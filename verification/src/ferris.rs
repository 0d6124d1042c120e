//! The enemy fleet member: a three-color crab with a looping walk animation.
//! It marches horizontally; on a fleet-turn trigger it descends until it
//! reaches its turn target, one frame height down, then resumes marching
//! the other way. Each tick it fires a beam with a small fixed chance.

use vstd::prelude::*;

use crate::beam::{spec_beam_color_of, Beam, BeamColor, BEAM_VELOCITY_MPX};
use crate::character::{GameCharacter, GameCommand, Id, IdGen};
use crate::draw::DrawCommand;
use crate::geometry::{Point, Rect, Shape};
use crate::layers;
use crate::motion::{clamp_coord, displacement, spec_clamp_coord, spec_displacement, translate,
    COORD_MAX, COORD_MIN};
use crate::sequence::{Frame, Sequence};
use crate::sprite::{wf_cell, Cell, CellName, SpriteSheet};
use crate::wall::WallType;

verus! {

/// The three fleet colors; each has its own sprite cells.
#[derive(Clone, Copy, PartialEq, Eq, Structural, Debug)]
pub enum FerrisColor {
    Blue,
    Green,
    Magenta,
}

/// The motion state of a fleet member. A turning state remembers the
/// vertical target at which the descent ends.
#[derive(Clone, Copy, PartialEq, Eq, Structural, Debug)]
pub enum FerrisState {
    Idle,
    MovingLeft,
    MovingRight,
    TurnLeft(i16),
    TurnRight(i16),
}

/// March and descent velocity, in millipixels per millisecond.
pub const FERRIS_VELOCITY_MPX: i32 = 80;

/// How long each walk frame lasts, in milliseconds.
pub const FERRIS_FRAME_MS: u32 = 150;

/// A fleet member fires when its tick's random draw falls under this
/// threshold: one draw in ten thousand of the 31-bit draw space.
pub const SPAWN_BEAM_THRESHOLD: u32 = 214748;

/// One enemy fleet member.
#[derive(Clone, Copy, Debug)]
pub struct Ferris {
    pub id: Id,
    pub position: Point,
    pub animation: Sequence<5>,
    pub color: FerrisColor,
    pub state: FerrisState,
    /// The cell a beam fired by this member shows.
    pub beam_cell: Cell,
}

/// Horizontal velocity by state, in millipixels per millisecond.
pub open spec fn spec_velocity_x(state: FerrisState) -> int {
    match state {
        FerrisState::MovingLeft => -(FERRIS_VELOCITY_MPX as int),
        FerrisState::MovingRight => FERRIS_VELOCITY_MPX as int,
        _ => 0,
    }
}

/// Vertical velocity by state: descending only mid-turn.
pub open spec fn spec_velocity_y(state: FerrisState) -> int {
    match state {
        FerrisState::TurnLeft(_) => FERRIS_VELOCITY_MPX as int,
        FerrisState::TurnRight(_) => FERRIS_VELOCITY_MPX as int,
        _ => 0,
    }
}

/// The fleet member one tick later: animation advanced, moved by its state's
/// velocity, and, once the descent reaches or passes its target, snapped to
/// the target and marching in the new direction.
pub open spec fn spec_ferris_step(f: Ferris, delta_ms: u32) -> Ferris {
    let x1 = spec_clamp_coord(
        f.position.x + spec_displacement(spec_velocity_x(f.state), delta_ms as int),
    ) as i16;
    let y1 = spec_clamp_coord(
        f.position.y + spec_displacement(spec_velocity_y(f.state), delta_ms as int),
    ) as i16;
    let moved = Ferris {
        position: Point { x: x1, y: y1 },
        animation: f.animation.spec_updated(delta_ms),
        ..f
    };
    match f.state {
        FerrisState::TurnLeft(t) => if t <= y1 {
            Ferris { position: Point { x: x1, y: t }, state: FerrisState::MovingLeft, ..moved }
        } else {
            moved
        },
        FerrisState::TurnRight(t) => if t <= y1 {
            Ferris { position: Point { x: x1, y: t }, state: FerrisState::MovingRight, ..moved }
        } else {
            moved
        },
        _ => moved,
    }
}

/// Where a fired beam appears: centered under the member's current frame.
pub open spec fn spec_beam_spawn_point(f: Ferris) -> Point {
    let cw = f.animation.spec_current_frame().cell.frame.shape.width;
    let ch = f.animation.spec_current_frame().cell.frame.shape.height;
    let bw = f.beam_cell.frame.shape.width;
    Point {
        x: spec_clamp_coord(f.position.x + cw / 2 - bw / 2) as i16,
        y: spec_clamp_coord(f.position.y + ch) as i16,
    }
}

/// The member after a fleet-turn trigger: a marching member starts turning
/// toward the opposite direction, descending by its current frame's height;
/// any other state is left alone.
pub open spec fn spec_turned(f: Ferris) -> Ferris {
    let t = spec_clamp_coord(
        f.position.y + f.animation.spec_current_frame().cell.frame.shape.height,
    ) as i16;
    match f.state {
        FerrisState::MovingLeft => Ferris { state: FerrisState::TurnRight(t), ..f },
        FerrisState::MovingRight => Ferris { state: FerrisState::TurnLeft(t), ..f },
        _ => f,
    }
}

/// A fleet member is destroyed by a missile or by a fellow fleet member;
/// meeting the wall it is marching toward triggers the fleet turn.
pub open spec fn spec_ferris_collide(f: Ferris, other: GameCharacter) -> Option<GameCommand> {
    match other {
        GameCharacter::Missile(_) => Some(GameCommand::DestroyCharacter(f.id)),
        GameCharacter::Ferris(_) => Some(GameCommand::DestroyCharacter(f.id)),
        GameCharacter::Wall(w) => match (w.wall_type, f.state) {
            (WallType::Left, FerrisState::MovingLeft) => Some(GameCommand::TurnFerris),
            (WallType::Right, FerrisState::MovingRight) => Some(GameCommand::TurnFerris),
            _ => None,
        },
        _ => None,
    }
}

impl FerrisColor {
    /// The beam color a member of this color fires.
    pub fn beam_color(self) -> (r: BeamColor)
        ensures
            r == spec_beam_color_of(self),
    {
        match self {
            FerrisColor::Blue => BeamColor::Blue,
            FerrisColor::Green => BeamColor::Green,
            FerrisColor::Magenta => BeamColor::Magenta,
        }
    }
}

impl Ferris {
    pub open spec fn wf(self) -> bool {
        &&& COORD_MIN <= self.position.x <= COORD_MAX
        &&& COORD_MIN <= self.position.y <= COORD_MAX
        &&& self.animation.wf()
        &&& wf_cell(self.beam_cell)
        &&& match self.state {
            FerrisState::TurnLeft(t) => COORD_MIN <= t <= COORD_MAX,
            FerrisState::TurnRight(t) => COORD_MIN <= t <= COORD_MAX,
            _ => true,
        }
    }

    pub open spec fn spec_bbox(self) -> Rect {
        Rect { origin: self.position, shape: self.animation.spec_current_frame().cell.frame.shape }
    }

    /// The shape the fleet layout uses: the first blue frame's shape.
    pub fn get_shape(sprite_sheet: &SpriteSheet) -> (s: Shape)
        requires
            sprite_sheet.spec_cell(CellName::Ferris(FerrisColor::Blue, 0)) is Some,
        ensures
            s == sprite_sheet.spec_cell(
                CellName::Ferris(FerrisColor::Blue, 0),
            )->Some_0.frame.shape,
    {
        match sprite_sheet.cell(CellName::Ferris(FerrisColor::Blue, 0)) {
            Some(cell) => cell.shape(),
            None => vstd::pervasive::unreached(),
        }
    }

    /// A fresh fleet member carrying the next minted identifier, marching
    /// left on its first walk frame.
    pub fn new(sprite_sheet: &SpriteSheet, position: Point, color: FerrisColor, id_gen: &mut
        IdGen) -> (r: Ferris)
        requires
            sprite_sheet.wf(),
            old(id_gen).next < u128::MAX,
            sprite_sheet.spec_cell(CellName::Ferris(color, 0)) is Some,
            sprite_sheet.spec_cell(CellName::Ferris(color, 1)) is Some,
            sprite_sheet.spec_cell(CellName::Ferris(color, 2)) is Some,
            sprite_sheet.spec_cell(CellName::Ferris(color, 3)) is Some,
            sprite_sheet.spec_cell(CellName::Ferris(color, 4)) is Some,
            sprite_sheet.spec_cell(CellName::Beam(spec_beam_color_of(color))) is Some,
            COORD_MIN <= position.x <= COORD_MAX,
            COORD_MIN <= position.y <= COORD_MAX,
        ensures
            r.id == Id(old(id_gen).next),
            final(id_gen).next == old(id_gen).next + 1,
            r == (Ferris {
                id: r.id,
                position,
                animation: r.animation,
                color,
                state: FerrisState::MovingLeft,
                beam_cell: sprite_sheet.spec_cell(
                    CellName::Beam(spec_beam_color_of(color)),
                )->Some_0,
            }),
            r.animation == (Sequence {
                frames: r.animation.frames,
                acc_time_ms: 0u64,
                current: 0usize,
            }),
            forall|i: int|
                0 <= i < 5 ==> #[trigger] r.animation.frames@[i] == (Frame {
                    cell: sprite_sheet.spec_cell(CellName::Ferris(color, i as u8))->Some_0,
                    duration_ms: FERRIS_FRAME_MS,
                }),
            r.wf(),
    {
        let c0 = match sprite_sheet.cell(CellName::Ferris(color, 0)) {
            Some(cell) => cell,
            None => vstd::pervasive::unreached(),
        };
        let c1 = match sprite_sheet.cell(CellName::Ferris(color, 1)) {
            Some(cell) => cell,
            None => vstd::pervasive::unreached(),
        };
        let c2 = match sprite_sheet.cell(CellName::Ferris(color, 2)) {
            Some(cell) => cell,
            None => vstd::pervasive::unreached(),
        };
        let c3 = match sprite_sheet.cell(CellName::Ferris(color, 3)) {
            Some(cell) => cell,
            None => vstd::pervasive::unreached(),
        };
        let c4 = match sprite_sheet.cell(CellName::Ferris(color, 4)) {
            Some(cell) => cell,
            None => vstd::pervasive::unreached(),
        };
        let beam_cell = match sprite_sheet.cell(CellName::Beam(color.beam_color())) {
            Some(cell) => cell,
            None => vstd::pervasive::unreached(),
        };
        proof {
            crate::sprite::lemma_lookup_wf(sprite_sheet.cells@, CellName::Ferris(color, 0));
            crate::sprite::lemma_lookup_wf(sprite_sheet.cells@, CellName::Ferris(color, 1));
            crate::sprite::lemma_lookup_wf(sprite_sheet.cells@, CellName::Ferris(color, 2));
            crate::sprite::lemma_lookup_wf(sprite_sheet.cells@, CellName::Ferris(color, 3));
            crate::sprite::lemma_lookup_wf(sprite_sheet.cells@, CellName::Ferris(color, 4));
            crate::sprite::lemma_lookup_wf(
                sprite_sheet.cells@,
                CellName::Beam(spec_beam_color_of(color)),
            );
        }
        let frames: [Frame; 5] = [
            Frame::new(c0, FERRIS_FRAME_MS),
            Frame::new(c1, FERRIS_FRAME_MS),
            Frame::new(c2, FERRIS_FRAME_MS),
            Frame::new(c3, FERRIS_FRAME_MS),
            Frame::new(c4, FERRIS_FRAME_MS),
        ];
        let animation = Sequence::new(frames);
        Ferris {
            id: id_gen.fresh(),
            position,
            animation,
            color,
            state: FerrisState::MovingLeft,
            beam_cell,
        }
    }

    pub fn id(&self) -> (r: Id)
        ensures
            r == self.id,
    {
        self.id
    }

    pub fn bounding_box(&self) -> (r: Rect)
        requires
            self.wf(),
        ensures
            r == self.spec_bbox(),
    {
        Rect::new(self.position, self.animation.current_frame().cell.shape())
    }

    fn velocity_x(&self) -> (v: i32)
        ensures
            v as int == spec_velocity_x(self.state),
    {
        match self.state {
            FerrisState::MovingLeft => -FERRIS_VELOCITY_MPX,
            FerrisState::MovingRight => FERRIS_VELOCITY_MPX,
            _ => 0,
        }
    }

    fn velocity_y(&self) -> (v: i32)
        ensures
            v as int == spec_velocity_y(self.state),
    {
        match self.state {
            FerrisState::TurnLeft(_) => FERRIS_VELOCITY_MPX,
            FerrisState::TurnRight(_) => FERRIS_VELOCITY_MPX,
            _ => 0,
        }
    }

    /// One tick of motion; with `spawn_draw` under the firing threshold, the
    /// member also fires a beam centered under its moved frame, carrying the
    /// next minted identifier.
    pub fn update(&mut self, delta_ms: u32, spawn_draw: u32, id_gen: &mut IdGen) -> (cmd: Option<
        GameCommand,
    >)
        requires
            old(self).wf(),
            old(id_gen).next < u128::MAX,
        ensures
            *final(self) == spec_ferris_step(*old(self), delta_ms),
            final(self).wf(),
            if spawn_draw < SPAWN_BEAM_THRESHOLD {
                cmd matches Some(GameCommand::SpawnCharacter(GameCharacter::Beam(b)))
                    && b == (Beam {
                    id: b.id,
                    position: spec_beam_spawn_point(spec_ferris_step(*old(self), delta_ms)),
                    cell: old(self).beam_cell,
                    velocity: BEAM_VELOCITY_MPX,
                })
            } else {
                cmd is None
            },
            crate::character::spec_minted_opt(cmd, *old(id_gen), *final(id_gen)),
    {
        self.animation.update(delta_ms);
        let dx = displacement(self.velocity_x(), delta_ms);
        let dy = displacement(self.velocity_y(), delta_ms);
        self.position.x = translate(self.position.x, dx);
        self.position.y = translate(self.position.y, dy);

        match self.state {
            FerrisState::TurnLeft(t) => if t <= self.position.y {
                self.position.y = t;
                self.state = FerrisState::MovingLeft;
            },
            FerrisState::TurnRight(t) => if t <= self.position.y {
                self.position.y = t;
                self.state = FerrisState::MovingRight;
            },
            _ => {},
        }

        if spawn_draw < SPAWN_BEAM_THRESHOLD {
            let cw: i32 = ((self.animation.current_frame().cell.shape().width as u32) / 2) as i32;
            let bw: i32 = ((self.beam_cell.shape().width as u32) / 2) as i32;
            let sx = clamp_coord((self.position.x as i32) + cw - bw);
            let sy = clamp_coord(
                (self.position.y as i32) + (self.animation.current_frame().cell.shape().height
                    as i32),
            );
            let beam = Beam::from_cell(self.beam_cell, Point { x: sx, y: sy }, id_gen);
            return Some(GameCommand::SpawnCharacter(GameCharacter::Beam(beam)));
        }

        None
    }

    pub fn draw(&self) -> (r: Option<DrawCommand>)
        requires
            self.wf(),
        ensures
            r == Some(
                DrawCommand {
                    layer: layers::ENEMY,
                    cell: self.animation.spec_current_frame().cell,
                    position: self.position,
                },
            ),
    {
        Some(
            DrawCommand {
                layer: layers::ENEMY,
                cell: self.animation.current_frame().cell,
                position: self.position,
            },
        )
    }

    /// Off screen, a fleet member destroys itself.
    pub fn on_exit_screen(&mut self) -> (cmd: Option<GameCommand>)
        ensures
            *final(self) == *old(self),
            cmd == Some(GameCommand::DestroyCharacter(old(self).id)),
    {
        Some(GameCommand::DestroyCharacter(self.id))
    }

    pub fn on_collide(&self, other: &GameCharacter) -> (cmd: Option<GameCommand>)
        ensures
            cmd == spec_ferris_collide(*self, *other),
    {
        match other {
            GameCharacter::Missile(_) => Some(GameCommand::DestroyCharacter(self.id)),
            GameCharacter::Ferris(_) => Some(GameCommand::DestroyCharacter(self.id)),
            GameCharacter::Wall(w) => match (w.wall_type, self.state) {
                (WallType::Left, FerrisState::MovingLeft) => Some(GameCommand::TurnFerris),
                (WallType::Right, FerrisState::MovingRight) => Some(GameCommand::TurnFerris),
                _ => None,
            },
            _ => None,
        }
    }

    pub fn move_left(&mut self)
        ensures
            *final(self) == (Ferris { state: FerrisState::MovingLeft, ..*old(self) }),
    {
        self.state = FerrisState::MovingLeft;
    }

    pub fn move_right(&mut self)
        ensures
            *final(self) == (Ferris { state: FerrisState::MovingRight, ..*old(self) }),
    {
        self.state = FerrisState::MovingRight;
    }

    pub fn stop(&mut self)
        ensures
            *final(self) == (Ferris { state: FerrisState::Idle, ..*old(self) }),
    {
        self.state = FerrisState::Idle;
    }

    pub fn start(&mut self)
        ensures
            *final(self) == (Ferris { state: FerrisState::MovingRight, ..*old(self) }),
    {
        self.state = FerrisState::MovingRight;
    }

    /// React to the fleet-turn trigger.
    pub fn turn(&mut self)
        requires
            old(self).wf(),
        ensures
            *final(self) == spec_turned(*old(self)),
            final(self).wf(),
    {
        let t = clamp_coord(
            (self.position.y as i32) + (self.animation.current_frame().cell.shape().height
                as i32),
        );
        match self.state {
            FerrisState::MovingLeft => {
                self.state = FerrisState::TurnRight(t);
            },
            FerrisState::MovingRight => {
                self.state = FerrisState::TurnLeft(t);
            },
            _ => {},
        }
    }
}

} // verus!
