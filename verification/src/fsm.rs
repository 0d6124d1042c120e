//! The state-machine runner: it computes the next phase as a pure function
//! of the current one, fires the enter/exit hooks exactly when the phase
//! kind changes, and commits atomically — a hook failure would leave the
//! previous phase current.

use vstd::prelude::*;

use crate::event::Event;
use crate::game_state::{spec_kind, spec_machine_headroom, spec_machine_wf, GameStateMachine,
    HookError};

verus! {

/// Owns the current phase and drives its transitions.
#[derive(Debug)]
pub struct StateMachineRunner {
    pub state: GameStateMachine,
}

impl StateMachineRunner {
    /// A fresh runner, holding the initial phase.
    pub fn new() -> (r: StateMachineRunner)
        ensures
            r.state is Created,
    {
        StateMachineRunner { state: GameStateMachine::default() }
    }

    /// One tick: compute the next phase from the current one and commit it
    /// through `transition`.
    pub fn update(&mut self, delta_ms: u32, events: &Vec<Event>) -> (r: Result<(), HookError>)
        requires
            spec_machine_wf(old(self).state),
            spec_machine_headroom(old(self).state),
        ensures
            r is Ok,
            spec_machine_wf(final(self).state),
            (old(self).state is Created) <==> (final(self).state is Created),
            old(self).state is OutGame ==> final(self).state is InGame,
            old(self).state matches GameStateMachine::OutGame(og) ==> (final(self).state matches
                GameStateMachine::InGame(g) && g.characters@ == og.characters@ && g.player
                == og.player && !g.is_game_over),
    {
        let next_state = self.state.update(delta_ms, events);
        self.transition(next_state)
    }

    /// Commit a next phase. When its kind differs from the current one, the
    /// old phase's exit hook and the new phase's enter hook run first; a
    /// hook failure would abort the commit and leave the current phase in
    /// place. When the kinds agree, no hooks fire.
    pub fn transition(&mut self, next_state: GameStateMachine) -> (r: Result<(), HookError>)
        ensures
            r is Ok ==> final(self).state == next_state,
            r is Err ==> *final(self) == *old(self),
            r is Ok,
    {
        let mut next_state = next_state;
        if self.state.kind() != next_state.kind() {
            match self.state.on_exit() {
                Ok(()) => {},
                Err(e) => {
                    return Err(e);
                },
            }
            match next_state.on_enter() {
                Ok(()) => {},
                Err(e) => {
                    return Err(e);
                },
            }
        }
        self.state = next_state;
        Ok(())
    }
}

} // verus!
