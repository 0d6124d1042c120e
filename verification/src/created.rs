//! The initial, transient phase: it performs no entity work and waits to be
//! advanced into the attract phase by an explicit transition.

use vstd::prelude::*;

use crate::draw::DrawCommand;
use crate::event::Event;

verus! {

/// The initial phase. It owns nothing.
#[derive(Clone, Copy, PartialEq, Eq, Structural, Debug)]
pub struct Created {
}

impl Created {
    pub fn new() -> (r: Created)
        ensures
            r == (Created {  }),
    {
        Created {  }
    }

    /// The initial phase draws nothing.
    pub fn draw(&self) -> (r: Vec<DrawCommand>)
        ensures
            r@ == Seq::<DrawCommand>::empty(),
    {
        Vec::new()
    }

    /// The initial phase stays put; it is advanced by an explicit
    /// transition, not by its own update.
    pub fn update(&self, delta_ms: u32, events: &Vec<Event>) -> (r:
        crate::game_state::GameStateMachine)
        ensures
            r matches crate::game_state::GameStateMachine::Created(c) && c == *self,
    {
        crate::game_state::GameStateMachine::Created(*self)
    }
}

} // verus!
