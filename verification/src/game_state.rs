//! The top-level game-phase machine: the initial phase, the attract phase
//! and the active simulation, with a pure per-tick update and no-op
//! enter/exit hooks.

use vstd::prelude::*;

use crate::created::Created;
use crate::draw::DrawCommand;
use crate::event::Event;
use crate::in_game::InGame;
use crate::out_game::OutGame;

verus! {

/// The kind of a phase; the runner fires transition hooks exactly when the
/// kind changes.
#[derive(Clone, Copy, PartialEq, Eq, Structural, Debug)]
pub enum PhaseKind {
    Created,
    OutGame,
    InGame,
}

/// The error a transition hook may surface; the hooks of this machine never
/// fail, but a failure would abort the transition atomically.
#[derive(Clone, Copy, PartialEq, Eq, Structural, Debug)]
pub struct HookError;

/// One phase of the game.
#[derive(Debug)]
pub enum GameStateMachine {
    Created(Created),
    OutGame(OutGame),
    InGame(InGame),
}

/// What must hold of a phase for its update to run.
pub open spec fn spec_machine_wf(m: GameStateMachine) -> bool {
    match m {
        GameStateMachine::Created(_) => true,
        GameStateMachine::OutGame(og) => og.wf(),
        GameStateMachine::InGame(g) => g.wf(),
    }
}

/// The identifier allocator still has headroom for this tick's minting; the
/// host checks the counter, which no realistic run can exhaust.
pub open spec fn spec_machine_headroom(m: GameStateMachine) -> bool {
    match m {
        GameStateMachine::Created(_) => true,
        GameStateMachine::OutGame(og) => og.id_gen.next <= crate::character::ID_SPAN_LIMIT,
        GameStateMachine::InGame(g) => g.id_gen.next <= crate::character::ID_SPAN_LIMIT,
    }
}

/// The kind of a phase.
pub open spec fn spec_kind(m: GameStateMachine) -> PhaseKind {
    match m {
        GameStateMachine::Created(_) => PhaseKind::Created,
        GameStateMachine::OutGame(_) => PhaseKind::OutGame,
        GameStateMachine::InGame(_) => PhaseKind::InGame,
    }
}

impl GameStateMachine {
    pub fn kind(&self) -> (r: PhaseKind)
        ensures
            r == spec_kind(*self),
    {
        match self {
            GameStateMachine::Created(_) => PhaseKind::Created,
            GameStateMachine::OutGame(_) => PhaseKind::OutGame,
            GameStateMachine::InGame(_) => PhaseKind::InGame,
        }
    }

    /// The draw pass of the current phase.
    pub fn draw(&self) -> (r: Vec<DrawCommand>)
        requires
            spec_machine_wf(*self),
        ensures
            match *self {
                GameStateMachine::Created(_) => r@ == Seq::<DrawCommand>::empty(),
                GameStateMachine::OutGame(og) => r@ == crate::character::spec_roster_draws(
                    og.characters@,
                ) + crate::character::opt_draw_seq(
                    crate::character::spec_char_draw(
                        crate::character::GameCharacter::Ship(og.player),
                    ),
                ),
                GameStateMachine::InGame(g) => r@ == crate::character::spec_roster_draws(
                    g.characters@,
                ) + crate::character::opt_draw_seq(
                    crate::character::spec_char_draw(
                        crate::character::GameCharacter::Ship(g.player),
                    ),
                ),
            },
    {
        match self {
            GameStateMachine::Created(state) => state.draw(),
            GameStateMachine::OutGame(state) => state.draw(),
            GameStateMachine::InGame(state) => state.draw(),
        }
    }

    /// One tick: a pure function of the current phase and the tick's inputs.
    /// The initial phase stays put, the attract phase advances to the active
    /// phase, and the active phase runs the full pipeline, falling back to a
    /// fresh attract phase on its terminal conditions.
    pub fn update(&self, delta_ms: u32, events: &Vec<Event>) -> (r: GameStateMachine)
        requires
            spec_machine_wf(*self),
            spec_machine_headroom(*self),
        ensures
            spec_machine_wf(r),
            (self is Created) <==> (r is Created),
            self is OutGame ==> r is InGame,
            *self matches GameStateMachine::OutGame(og) ==> (r matches
                GameStateMachine::InGame(g) && g.characters@ == og.characters@ && g.player
                == og.player && g.screen == og.screen && !g.is_game_over),
            *self matches GameStateMachine::InGame(cur) ==> (r matches
                GameStateMachine::InGame(g) ==> (crate::in_game::spec_ferris_count(g.characters@)
                > 0 && !g.is_game_over && g.screen == cur.screen)),
    {
        match self {
            GameStateMachine::Created(state) => state.update(delta_ms, events),
            GameStateMachine::OutGame(state) => state.update(delta_ms, events),
            GameStateMachine::InGame(state) => state.update(delta_ms, events),
        }
    }

    /// The hook fired on entering a phase: nothing here can fail, and the
    /// phase is left untouched.
    pub fn on_enter(&mut self) -> (r: Result<(), HookError>)
        ensures
            *final(self) == *old(self),
            r is Ok,
    {
        Ok(())
    }

    /// The hook fired on leaving a phase: nothing here can fail, and the
    /// phase is left untouched.
    pub fn on_exit(&mut self) -> (r: Result<(), HookError>)
        ensures
            *final(self) == *old(self),
            r is Ok,
    {
        Ok(())
    }
}

impl From<Created> for GameStateMachine {
    fn from(state: Created) -> Self {
        GameStateMachine::Created(state)
    }
}

impl vstd::std_specs::convert::FromSpecImpl<Created> for GameStateMachine {
    open spec fn obeys_from_spec() -> bool {
        true
    }

    open spec fn from_spec(v: Created) -> GameStateMachine {
        GameStateMachine::Created(v)
    }
}

impl From<OutGame> for GameStateMachine {
    fn from(state: OutGame) -> Self {
        GameStateMachine::OutGame(state)
    }
}

impl vstd::std_specs::convert::FromSpecImpl<OutGame> for GameStateMachine {
    open spec fn obeys_from_spec() -> bool {
        true
    }

    open spec fn from_spec(v: OutGame) -> GameStateMachine {
        GameStateMachine::OutGame(v)
    }
}

impl From<InGame> for GameStateMachine {
    fn from(state: InGame) -> Self {
        GameStateMachine::InGame(state)
    }
}

impl vstd::std_specs::convert::FromSpecImpl<InGame> for GameStateMachine {
    open spec fn obeys_from_spec() -> bool {
        true
    }

    open spec fn from_spec(v: InGame) -> GameStateMachine {
        GameStateMachine::InGame(v)
    }
}

impl Default for GameStateMachine {
    /// The machine starts in the initial phase.
    fn default() -> (r: GameStateMachine)
        ensures
            r is Created,
    {
        GameStateMachine::Created(Created::new())
    }
}

} // verus!
