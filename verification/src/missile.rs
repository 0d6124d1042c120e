//! The player projectile: rises at constant velocity, destroys what it hits
//! and burns out on any collision or off screen.

use vstd::prelude::*;

use crate::character::{GameCharacter, GameCommand, Id, IdGen};
use crate::draw::DrawCommand;
use crate::geometry::{Point, Rect, Shape};
use crate::layers;
use crate::motion::{displacement, spec_clamp_coord, spec_displacement, translate, COORD_MAX,
    COORD_MIN};
use crate::sprite::{wf_cell, Cell, CellName, SpriteSheet};

verus! {

/// Ascent velocity, in millipixels per millisecond.
pub const MISSILE_VELOCITY_MPX: i32 = 120;

/// A player projectile in flight.
#[derive(Clone, Copy, Debug)]
pub struct Missile {
    pub id: Id,
    pub position: Point,
    pub cell: Cell,
    pub velocity: i32,
}

/// The missile one tick later: risen by its velocity, clamped to the
/// coordinate band.
pub open spec fn spec_missile_step(m: Missile, delta_ms: u32) -> Missile {
    Missile {
        position: Point {
            x: m.position.x,
            y: spec_clamp_coord(
                m.position.y - spec_displacement(m.velocity as int, delta_ms as int),
            ) as i16,
        },
        ..m
    }
}

/// A missile destroys itself against a fleet member, the bonus enemy or a
/// shield segment.
pub open spec fn spec_missile_collide(m: Missile, other: GameCharacter) -> Option<GameCommand> {
    match other {
        GameCharacter::Ferris(_) => Some(GameCommand::DestroyCharacter(m.id)),
        GameCharacter::TurboFish(_) => Some(GameCommand::DestroyCharacter(m.id)),
        GameCharacter::ShieldElement(_) => Some(GameCommand::DestroyCharacter(m.id)),
        _ => None,
    }
}

impl Missile {
    pub open spec fn wf(self) -> bool {
        &&& COORD_MIN <= self.position.x <= COORD_MAX
        &&& COORD_MIN <= self.position.y <= COORD_MAX
        &&& wf_cell(self.cell)
        &&& -1000 <= self.velocity <= 1000
    }

    pub open spec fn spec_bbox(self) -> Rect {
        Rect { origin: self.position, shape: self.cell.frame.shape }
    }

    pub fn get_shape(sprite_sheet: &SpriteSheet) -> (s: Shape)
        requires
            sprite_sheet.spec_cell(CellName::Missile) is Some,
        ensures
            s == sprite_sheet.spec_cell(CellName::Missile)->Some_0.frame.shape,
    {
        match sprite_sheet.cell(CellName::Missile) {
            Some(cell) => cell.shape(),
            None => vstd::pervasive::unreached(),
        }
    }

    /// A fresh missile carrying the next minted identifier.
    pub fn new(sprite_sheet: &SpriteSheet, position: Point, id_gen: &mut IdGen) -> (r: Missile)
        requires
            sprite_sheet.spec_cell(CellName::Missile) is Some,
            old(id_gen).next < u128::MAX,
        ensures
            r == (Missile {
                id: Id(old(id_gen).next),
                position,
                cell: sprite_sheet.spec_cell(CellName::Missile)->Some_0,
                velocity: MISSILE_VELOCITY_MPX,
            }),
            final(id_gen).next == old(id_gen).next + 1,
    {
        match sprite_sheet.cell(CellName::Missile) {
            Some(cell) => Missile::from_cell(cell, position, id_gen),
            None => vstd::pervasive::unreached(),
        }
    }

    /// A fresh missile showing an already-resolved cell.
    pub fn from_cell(cell: Cell, position: Point, id_gen: &mut IdGen) -> (r: Missile)
        requires
            old(id_gen).next < u128::MAX,
        ensures
            r == (Missile {
                id: Id(old(id_gen).next),
                position,
                cell,
                velocity: MISSILE_VELOCITY_MPX,
            }),
            final(id_gen).next == old(id_gen).next + 1,
    {
        Missile { id: id_gen.fresh(), position, cell, velocity: MISSILE_VELOCITY_MPX }
    }

    pub fn id(&self) -> (r: Id)
        ensures
            r == self.id,
    {
        self.id
    }

    pub fn bounding_box(&self) -> (r: Rect)
        ensures
            r == self.spec_bbox(),
    {
        Rect::new(self.position, self.cell.shape())
    }

    /// Rise; a missile emits no command of its own.
    pub fn update(&mut self, delta_ms: u32) -> (cmd: Option<GameCommand>)
        requires
            old(self).wf(),
        ensures
            *final(self) == spec_missile_step(*old(self), delta_ms),
            final(self).wf(),
            cmd is None,
    {
        let d = displacement(self.velocity, delta_ms);
        self.position.y = translate(self.position.y, -d);
        None
    }

    pub fn draw(&self) -> (r: Option<DrawCommand>)
        ensures
            r == Some(
                DrawCommand { layer: layers::MISSILE, cell: self.cell, position: self.position },
            ),
    {
        Some(DrawCommand { layer: layers::MISSILE, cell: self.cell, position: self.position })
    }

    /// Off screen, a missile destroys itself.
    pub fn on_exit_screen(&mut self) -> (cmd: Option<GameCommand>)
        ensures
            *final(self) == *old(self),
            cmd == Some(GameCommand::DestroyCharacter(old(self).id)),
    {
        Some(GameCommand::DestroyCharacter(self.id))
    }

    pub fn on_collide(&self, other: &GameCharacter) -> (cmd: Option<GameCommand>)
        ensures
            cmd == spec_missile_collide(*self, *other),
    {
        match other {
            GameCharacter::Ferris(_) => Some(GameCommand::DestroyCharacter(self.id)),
            GameCharacter::TurboFish(_) => Some(GameCommand::DestroyCharacter(self.id)),
            GameCharacter::ShieldElement(_) => Some(GameCommand::DestroyCharacter(self.id)),
            _ => None,
        }
    }
}

} // verus!
