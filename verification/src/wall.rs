//! The invisible boundary marker at the left or right screen edge. It never
//! moves, is never drawn and never destroyed; its sole effect is being the
//! collision partner that makes a fleet member turn.

use vstd::prelude::*;

use crate::character::{GameCharacter, GameCommand, Id, IdGen};
use crate::draw::DrawCommand;
use crate::geometry::Rect;

verus! {

/// Which screen edge the wall marks.
#[derive(Clone, Copy, PartialEq, Eq, Structural, Debug)]
pub enum WallType {
    Left,
    Right,
}

/// An invisible boundary marker.
#[derive(Clone, Copy, Debug)]
pub struct Wall {
    pub id: Id,
    pub wall_type: WallType,
    pub bounding_box: Rect,
}

impl Wall {
    pub fn id(&self) -> (r: Id)
        ensures
            r == self.id,
    {
        self.id
    }

    /// A fresh wall carrying the next minted identifier.
    pub fn new(wall_type: WallType, bounding_box: Rect, id_gen: &mut IdGen) -> (r: Wall)
        requires
            old(id_gen).next < u128::MAX,
        ensures
            r == (Wall { id: Id(old(id_gen).next), wall_type, bounding_box }),
            final(id_gen).next == old(id_gen).next + 1,
    {
        let id = id_gen.fresh();
        Wall { id, wall_type, bounding_box }
    }

    pub fn wall_type(&self) -> (r: WallType)
        ensures
            r == self.wall_type,
    {
        self.wall_type
    }

    pub fn bounding_box(&self) -> (r: Rect)
        ensures
            r == self.bounding_box,
    {
        self.bounding_box
    }

    /// A wall never changes and never emits a command.
    pub fn update(&mut self, delta_ms: u32) -> (cmd: Option<GameCommand>)
        ensures
            *final(self) == *old(self),
            cmd is None,
    {
        None
    }

    /// A wall is never destroyed, not even off screen.
    pub fn on_exit_screen(&mut self) -> (cmd: Option<GameCommand>)
        ensures
            *final(self) == *old(self),
            cmd is None,
    {
        None
    }

    /// A wall itself reacts to nothing; the turning is the fleet member's.
    pub fn on_collide(&self, other: &GameCharacter) -> (cmd: Option<GameCommand>)
        ensures
            cmd is None,
    {
        None
    }

    /// A wall is never drawn.
    pub fn draw(&self) -> (r: Option<DrawCommand>)
        ensures
            r is None,
    {
        None
    }
}

} // verus!
