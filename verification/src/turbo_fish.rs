//! The bonus enemy: appears off the left edge at a small per-tick chance,
//! swims right at constant velocity with a two-frame animation, and is worth
//! destroying with a missile.

use vstd::prelude::*;

use crate::character::{GameCharacter, GameCommand, Id, IdGen};
use crate::draw::DrawCommand;
use crate::geometry::{Point, Rect, Shape};
use crate::layers;
use crate::motion::{displacement, spec_clamp_coord, spec_displacement, translate, COORD_MAX,
    COORD_MIN};
use crate::sequence::{Frame, Sequence};
use crate::sprite::{wf_cell, CellName, SpriteSheet};

verus! {

/// Swim velocity, in millipixels per millisecond.
pub const TURBO_FISH_VELOCITY_MPX: i32 = 100;

/// How long each swim frame lasts, in milliseconds.
pub const TURBO_FISH_FRAME_MS: u32 = 100;

/// The bonus enemy.
#[derive(Clone, Copy, Debug)]
pub struct TurboFish {
    pub id: Id,
    pub position: Point,
    pub animation: Sequence<2>,
}

/// The bonus enemy one tick later: animation advanced, moved right by its
/// velocity, clamped to the coordinate band.
pub open spec fn spec_turbo_fish_step(t: TurboFish, delta_ms: u32) -> TurboFish {
    TurboFish {
        position: Point {
            x: spec_clamp_coord(
                t.position.x + spec_displacement(TURBO_FISH_VELOCITY_MPX as int, delta_ms as int),
            ) as i16,
            y: t.position.y,
        },
        animation: t.animation.spec_updated(delta_ms),
        ..t
    }
}

/// The bonus enemy is destroyed only by a missile.
pub open spec fn spec_turbo_fish_collide(
    t: TurboFish,
    other: GameCharacter,
) -> Option<GameCommand> {
    match other {
        GameCharacter::Missile(_) => Some(GameCommand::DestroyCharacter(t.id)),
        _ => None,
    }
}

impl TurboFish {
    pub open spec fn wf(self) -> bool {
        &&& COORD_MIN <= self.position.x <= COORD_MAX
        &&& COORD_MIN <= self.position.y <= COORD_MAX
        &&& self.animation.wf()
    }

    pub open spec fn spec_bbox(self) -> Rect {
        Rect { origin: self.position, shape: self.animation.spec_current_frame().cell.frame.shape }
    }

    /// The shape of the first swim frame.
    pub fn get_shape(sprite_sheet: &SpriteSheet) -> (s: Shape)
        requires
            sprite_sheet.spec_cell(CellName::TurboFish(0)) is Some,
        ensures
            s == sprite_sheet.spec_cell(CellName::TurboFish(0))->Some_0.frame.shape,
    {
        match sprite_sheet.cell(CellName::TurboFish(0)) {
            Some(cell) => cell.shape(),
            None => vstd::pervasive::unreached(),
        }
    }

    /// A fresh bonus enemy carrying the next minted identifier, starting on
    /// its first frame.
    pub fn new(sprite_sheet: &SpriteSheet, position: Point, id_gen: &mut IdGen) -> (r: TurboFish)
        requires
            sprite_sheet.wf(),
            sprite_sheet.spec_cell(CellName::TurboFish(0)) is Some,
            sprite_sheet.spec_cell(CellName::TurboFish(1)) is Some,
            COORD_MIN <= position.x <= COORD_MAX,
            COORD_MIN <= position.y <= COORD_MAX,
            old(id_gen).next < u128::MAX,
        ensures
            r.id == Id(old(id_gen).next),
            final(id_gen).next == old(id_gen).next + 1,
            r == (TurboFish { id: r.id, position, animation: r.animation }),
            r.animation == (Sequence {
                frames: r.animation.frames,
                acc_time_ms: 0u64,
                current: 0usize,
            }),
            r.animation.frames@ == seq![
                Frame {
                    cell: sprite_sheet.spec_cell(CellName::TurboFish(0))->Some_0,
                    duration_ms: TURBO_FISH_FRAME_MS,
                },
                Frame {
                    cell: sprite_sheet.spec_cell(CellName::TurboFish(1))->Some_0,
                    duration_ms: TURBO_FISH_FRAME_MS,
                },
            ],
            r.wf(),
    {
        let c0 = match sprite_sheet.cell(CellName::TurboFish(0)) {
            Some(cell) => cell,
            None => vstd::pervasive::unreached(),
        };
        let c1 = match sprite_sheet.cell(CellName::TurboFish(1)) {
            Some(cell) => cell,
            None => vstd::pervasive::unreached(),
        };
        proof {
            crate::sprite::lemma_lookup_wf(sprite_sheet.cells@, CellName::TurboFish(0));
            crate::sprite::lemma_lookup_wf(sprite_sheet.cells@, CellName::TurboFish(1));
        }
        let frames: [Frame; 2] = [
            Frame::new(c0, TURBO_FISH_FRAME_MS),
            Frame::new(c1, TURBO_FISH_FRAME_MS),
        ];
        let animation = Sequence::new(frames);
        TurboFish { id: id_gen.fresh(), position, animation }
    }

    pub fn id(&self) -> (r: Id)
        ensures
            r == self.id,
    {
        self.id
    }

    pub fn bounding_box(&self) -> (r: Rect)
        requires
            self.wf(),
        ensures
            r == self.spec_bbox(),
    {
        Rect::new(self.position, self.animation.current_frame().cell.shape())
    }

    /// Swim right; the bonus enemy emits no command of its own.
    pub fn update(&mut self, delta_ms: u32) -> (cmd: Option<GameCommand>)
        requires
            old(self).wf(),
        ensures
            *final(self) == spec_turbo_fish_step(*old(self), delta_ms),
            final(self).wf(),
            cmd is None,
    {
        self.animation.update(delta_ms);
        let d = displacement(TURBO_FISH_VELOCITY_MPX, delta_ms);
        self.position.x = translate(self.position.x, d);
        None
    }

    pub fn draw(&self) -> (r: Option<DrawCommand>)
        requires
            self.wf(),
        ensures
            r == Some(
                DrawCommand {
                    layer: layers::ENEMY,
                    cell: self.animation.spec_current_frame().cell,
                    position: self.position,
                },
            ),
    {
        Some(
            DrawCommand {
                layer: layers::ENEMY,
                cell: self.animation.current_frame().cell,
                position: self.position,
            },
        )
    }

    /// Off screen, the bonus enemy destroys itself.
    pub fn on_exit_screen(&mut self) -> (cmd: Option<GameCommand>)
        ensures
            *final(self) == *old(self),
            cmd == Some(GameCommand::DestroyCharacter(old(self).id)),
    {
        Some(GameCommand::DestroyCharacter(self.id))
    }

    pub fn on_collide(&self, other: &GameCharacter) -> (cmd: Option<GameCommand>)
        ensures
            cmd == spec_turbo_fish_collide(*self, *other),
    {
        match other {
            GameCharacter::Missile(_) => Some(GameCommand::DestroyCharacter(self.id)),
            _ => None,
        }
    }
}

} // verus!
