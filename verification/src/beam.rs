//! The enemy projectile: spawned under a firing fleet member, it descends at
//! constant velocity and burns out against shields or the player.

use vstd::prelude::*;

use crate::character::{GameCharacter, GameCommand, Id, IdGen};
use crate::draw::DrawCommand;
use crate::geometry::{Point, Rect, Shape};
use crate::layers;
use crate::motion::{displacement, spec_clamp_coord, spec_displacement, translate, COORD_MAX,
    COORD_MIN};
use crate::sprite::{wf_cell, Cell, CellName, SpriteSheet};

verus! {

/// Beam sprite colors, matching the color of the fleet member that fired.
#[derive(Clone, Copy, PartialEq, Eq, Structural, Debug)]
pub enum BeamColor {
    Blue,
    Green,
    Magenta,
}

/// Descent velocity, in millipixels per millisecond.
pub const BEAM_VELOCITY_MPX: i32 = 80;

/// The beam color fired by a fleet member of the given color.
pub open spec fn spec_beam_color_of(c: crate::ferris::FerrisColor) -> BeamColor {
    match c {
        crate::ferris::FerrisColor::Blue => BeamColor::Blue,
        crate::ferris::FerrisColor::Green => BeamColor::Green,
        crate::ferris::FerrisColor::Magenta => BeamColor::Magenta,
    }
}

/// An enemy projectile in flight.
#[derive(Clone, Copy, Debug)]
pub struct Beam {
    pub id: Id,
    pub position: Point,
    pub cell: Cell,
    pub velocity: i32,
}

/// The beam one tick later: descended by its velocity, clamped to the
/// coordinate band.
pub open spec fn spec_beam_step(b: Beam, delta_ms: u32) -> Beam {
    Beam {
        position: Point {
            x: b.position.x,
            y: spec_clamp_coord(
                b.position.y + spec_displacement(b.velocity as int, delta_ms as int),
            ) as i16,
        },
        ..b
    }
}

/// A beam destroys itself against a shield segment or the player.
pub open spec fn spec_beam_collide(b: Beam, other: GameCharacter) -> Option<GameCommand> {
    match other {
        GameCharacter::ShieldElement(_) => Some(GameCommand::DestroyCharacter(b.id)),
        GameCharacter::Ship(_) => Some(GameCommand::DestroyCharacter(b.id)),
        _ => None,
    }
}

impl Beam {
    pub open spec fn wf(self) -> bool {
        &&& COORD_MIN <= self.position.x <= COORD_MAX
        &&& COORD_MIN <= self.position.y <= COORD_MAX
        &&& wf_cell(self.cell)
        &&& -1000 <= self.velocity <= 1000
    }

    pub open spec fn spec_bbox(self) -> Rect {
        Rect { origin: self.position, shape: self.cell.frame.shape }
    }

    /// The shape every beam shares: the blue beam cell's shape.
    pub fn get_shape(sprite_sheet: &SpriteSheet) -> (s: Shape)
        requires
            sprite_sheet.spec_cell(CellName::Beam(BeamColor::Blue)) is Some,
        ensures
            s == sprite_sheet.spec_cell(CellName::Beam(BeamColor::Blue))->Some_0.frame.shape,
    {
        match sprite_sheet.cell(CellName::Beam(BeamColor::Blue)) {
            Some(cell) => cell.shape(),
            None => vstd::pervasive::unreached(),
        }
    }

    /// A fresh beam of the given color, carrying the next minted
    /// identifier.
    pub fn new(sprite_sheet: &SpriteSheet, position: Point, color: BeamColor, id_gen: &mut IdGen)
        -> (r: Beam)
        requires
            sprite_sheet.spec_cell(CellName::Beam(color)) is Some,
            old(id_gen).next < u128::MAX,
        ensures
            r == (Beam {
                id: Id(old(id_gen).next),
                position,
                cell: sprite_sheet.spec_cell(CellName::Beam(color))->Some_0,
                velocity: BEAM_VELOCITY_MPX,
            }),
            final(id_gen).next == old(id_gen).next + 1,
    {
        match sprite_sheet.cell(CellName::Beam(color)) {
            Some(cell) => Beam::from_cell(cell, position, id_gen),
            None => vstd::pervasive::unreached(),
        }
    }

    /// A fresh beam showing an already-resolved cell.
    pub fn from_cell(cell: Cell, position: Point, id_gen: &mut IdGen) -> (r: Beam)
        requires
            old(id_gen).next < u128::MAX,
        ensures
            r == (Beam {
                id: Id(old(id_gen).next),
                position,
                cell,
                velocity: BEAM_VELOCITY_MPX,
            }),
            final(id_gen).next == old(id_gen).next + 1,
    {
        Beam { id: id_gen.fresh(), position, cell, velocity: BEAM_VELOCITY_MPX }
    }

    pub fn id(&self) -> (r: Id)
        ensures
            r == self.id,
    {
        self.id
    }

    pub fn bounding_box(&self) -> (r: Rect)
        ensures
            r == self.spec_bbox(),
    {
        Rect::new(self.position, self.cell.shape())
    }

    /// Descend; a beam emits no command of its own.
    pub fn update(&mut self, delta_ms: u32) -> (cmd: Option<GameCommand>)
        requires
            old(self).wf(),
        ensures
            *final(self) == spec_beam_step(*old(self), delta_ms),
            final(self).wf(),
            cmd is None,
    {
        let d = displacement(self.velocity, delta_ms);
        self.position.y = translate(self.position.y, d);
        None
    }

    pub fn draw(&self) -> (r: Option<DrawCommand>)
        ensures
            r == Some(
                DrawCommand { layer: layers::BEAM, cell: self.cell, position: self.position },
            ),
    {
        Some(DrawCommand { layer: layers::BEAM, cell: self.cell, position: self.position })
    }

    /// Off screen, a beam destroys itself.
    pub fn on_exit_screen(&mut self) -> (cmd: Option<GameCommand>)
        ensures
            *final(self) == *old(self),
            cmd == Some(GameCommand::DestroyCharacter(old(self).id)),
    {
        Some(GameCommand::DestroyCharacter(self.id))
    }

    pub fn on_collide(&self, other: &GameCharacter) -> (cmd: Option<GameCommand>)
        ensures
            cmd == spec_beam_collide(*self, *other),
    {
        match other {
            GameCharacter::ShieldElement(_) => Some(GameCommand::DestroyCharacter(self.id)),
            GameCharacter::Ship(_) => Some(GameCommand::DestroyCharacter(self.id)),
            _ => None,
        }
    }
}

} // verus!
