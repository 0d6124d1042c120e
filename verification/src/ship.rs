//! The player ship: horizontal velocity set by discrete move inputs, and a
//! single-shot ammo flag. Firing consumes the ammo; releasing the fire
//! control restores it (reload on release, by design).

use vstd::prelude::*;

use crate::character::{GameCharacter, GameCommand, Id, IdGen};
use crate::draw::DrawCommand;
use crate::geometry::{Point, Rect, Shape};
use crate::layers;
use crate::missile::{Missile, MISSILE_VELOCITY_MPX};
use crate::motion::{clamp_coord, displacement, spec_clamp_coord, spec_displacement, translate,
    COORD_MAX, COORD_MIN};
use crate::sprite::{wf_cell, Cell, CellName, SpriteSheet};

verus! {

/// Horizontal speed while a move input is held, in millipixels per
/// millisecond.
pub const SHIP_VELOCITY_MPX: i32 = 90;

/// The player ship. It lives outside the roster, owned by the phase.
#[derive(Clone, Copy, Debug)]
pub struct Ship {
    pub id: Id,
    pub position: Point,
    pub cell: Cell,
    pub missile_cell: Cell,
    pub velocity: i32,
    pub need_shot: bool,
    pub has_bullet: bool,
}

/// The ship one tick later: moved by its velocity, the pending-shot flag
/// consumed.
pub open spec fn spec_ship_step(s: Ship, delta_ms: u32) -> Ship {
    Ship {
        position: Point {
            x: spec_clamp_coord(
                s.position.x + spec_displacement(s.velocity as int, delta_ms as int),
            ) as i16,
            y: s.position.y,
        },
        need_shot: false,
        ..s
    }
}

/// Where a fired missile appears: centered above the ship's frame.
pub open spec fn spec_missile_spawn_point(s: Ship) -> Point {
    Point {
        x: spec_clamp_coord(
            s.position.x + s.cell.frame.shape.width / 2 - s.missile_cell.frame.shape.width / 2,
        ) as i16,
        y: s.position.y,
    }
}

/// The player is destroyed by a beam or by a fleet member reaching it.
pub open spec fn spec_ship_collide(s: Ship, other: GameCharacter) -> Option<GameCommand> {
    match other {
        GameCharacter::Beam(_) => Some(GameCommand::DestroyPlayer),
        GameCharacter::Ferris(_) => Some(GameCommand::DestroyPlayer),
        _ => None,
    }
}

impl Ship {
    pub open spec fn wf(self) -> bool {
        &&& COORD_MIN <= self.position.x <= COORD_MAX
        &&& COORD_MIN <= self.position.y <= COORD_MAX
        &&& wf_cell(self.cell)
        &&& wf_cell(self.missile_cell)
        &&& -1000 <= self.velocity <= 1000
    }

    pub open spec fn spec_bbox(self) -> Rect {
        Rect { origin: self.position, shape: self.cell.frame.shape }
    }

    pub fn get_shape(sprite_sheet: &SpriteSheet) -> (s: Shape)
        requires
            sprite_sheet.spec_cell(CellName::Ship) is Some,
        ensures
            s == sprite_sheet.spec_cell(CellName::Ship)->Some_0.frame.shape,
    {
        match sprite_sheet.cell(CellName::Ship) {
            Some(cell) => cell.shape(),
            None => vstd::pervasive::unreached(),
        }
    }

    /// A fresh ship carrying the next minted identifier: still, with one
    /// shot loaded.
    pub fn new(sprite_sheet: &SpriteSheet, position: Point, id_gen: &mut IdGen) -> (r: Ship)
        requires
            sprite_sheet.spec_cell(CellName::Ship) is Some,
            sprite_sheet.spec_cell(CellName::Missile) is Some,
            old(id_gen).next < u128::MAX,
        ensures
            final(id_gen).next == old(id_gen).next + 1,
            r == (Ship {
                id: Id(old(id_gen).next),
                position,
                cell: sprite_sheet.spec_cell(CellName::Ship)->Some_0,
                missile_cell: sprite_sheet.spec_cell(CellName::Missile)->Some_0,
                velocity: 0,
                need_shot: false,
                has_bullet: true,
            }),
    {
        let cell = match sprite_sheet.cell(CellName::Ship) {
            Some(cell) => cell,
            None => vstd::pervasive::unreached(),
        };
        let missile_cell = match sprite_sheet.cell(CellName::Missile) {
            Some(cell) => cell,
            None => vstd::pervasive::unreached(),
        };
        Ship {
            id: id_gen.fresh(),
            position,
            cell,
            missile_cell,
            velocity: 0,
            need_shot: false,
            has_bullet: true,
        }
    }

    pub fn move_left(&mut self)
        ensures
            *final(self) == (Ship { velocity: -SHIP_VELOCITY_MPX as i32, ..*old(self) }),
    {
        self.velocity = -SHIP_VELOCITY_MPX;
    }

    pub fn move_right(&mut self)
        ensures
            *final(self) == (Ship { velocity: SHIP_VELOCITY_MPX, ..*old(self) }),
    {
        self.velocity = SHIP_VELOCITY_MPX;
    }

    pub fn stop(&mut self)
        ensures
            *final(self) == (Ship { velocity: 0, ..*old(self) }),
    {
        self.velocity = 0;
    }

    /// Request a shot: granted only if a bullet is loaded, and the bullet is
    /// consumed either way.
    pub fn shot(&mut self)
        ensures
            *final(self) == (Ship {
                need_shot: old(self).has_bullet,
                has_bullet: false,
                ..*old(self)
            }),
    {
        self.need_shot = self.has_bullet;
        self.has_bullet = false;
    }

    /// Restore the bullet; fired on release of the fire control.
    pub fn reload(&mut self)
        ensures
            *final(self) == (Ship { has_bullet: true, ..*old(self) }),
    {
        self.has_bullet = true;
    }

    /// The ship has no explosion behavior of its own; game over is handled
    /// by the phase.
    pub fn explode(&mut self)
        ensures
            *final(self) == *old(self),
    {
    }

    pub fn id(&self) -> (r: Id)
        ensures
            r == self.id,
    {
        self.id
    }

    pub fn bounding_box(&self) -> (r: Rect)
        ensures
            r == self.spec_bbox(),
    {
        Rect::new(self.position, self.cell.shape())
    }

    /// Move by the current velocity; if a shot is pending, consume it and
    /// spawn a missile centered above the moved ship, carrying the next
    /// minted identifier.
    pub fn update(&mut self, delta_ms: u32, id_gen: &mut IdGen) -> (cmd: Option<GameCommand>)
        requires
            old(self).wf(),
            old(id_gen).next < u128::MAX,
        ensures
            *final(self) == spec_ship_step(*old(self), delta_ms),
            final(self).wf(),
            if old(self).need_shot {
                cmd matches Some(GameCommand::SpawnCharacter(GameCharacter::Missile(m)))
                    && m == (Missile {
                    id: m.id,
                    position: spec_missile_spawn_point(spec_ship_step(*old(self), delta_ms)),
                    cell: old(self).missile_cell,
                    velocity: MISSILE_VELOCITY_MPX,
                })
            } else {
                cmd is None
            },
            crate::character::spec_minted_opt(cmd, *old(id_gen), *final(id_gen)),
    {
        let d = displacement(self.velocity, delta_ms);
        self.position.x = translate(self.position.x, d);

        if !self.need_shot {
            return None;
        }

        self.need_shot = false;
        let half_ship: i32 = ((self.cell.shape().width as u32) / 2) as i32;
        let half_missile: i32 = ((self.missile_cell.shape().width as u32) / 2) as i32;
        let spawn_x = clamp_coord((self.position.x as i32) + half_ship - half_missile);
        let missile = Missile::from_cell(
            self.missile_cell,
            Point { x: spawn_x, y: self.position.y },
            id_gen,
        );
        Some(GameCommand::SpawnCharacter(GameCharacter::Missile(missile)))
    }

    pub fn draw(&self) -> (r: Option<DrawCommand>)
        ensures
            r == Some(
                DrawCommand { layer: layers::SHIP, cell: self.cell, position: self.position },
            ),
    {
        Some(DrawCommand { layer: layers::SHIP, cell: self.cell, position: self.position })
    }

    /// Off screen, the ship would destroy itself; the phase never moves it
    /// off screen.
    pub fn on_exit_screen(&mut self) -> (cmd: Option<GameCommand>)
        ensures
            *final(self) == *old(self),
            cmd == Some(GameCommand::DestroyCharacter(old(self).id)),
    {
        Some(GameCommand::DestroyCharacter(self.id))
    }

    pub fn on_collide(&self, other: &GameCharacter) -> (cmd: Option<GameCommand>)
        ensures
            cmd == spec_ship_collide(*self, *other),
    {
        match other {
            GameCharacter::Beam(_) => Some(GameCommand::DestroyPlayer),
            GameCharacter::Ferris(_) => Some(GameCommand::DestroyPlayer),
            _ => None,
        }
    }
}

} // verus!
