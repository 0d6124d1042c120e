//! The input boundary: discrete key-down/key-up events. The core reacts to
//! three logical keys; any other key is carried as `Other` and ignored. The
//! host translates its raw key names into these values.

use vstd::prelude::*;

verus! {

/// A logical key name.
#[derive(Clone, Copy, PartialEq, Eq, Structural, Debug)]
pub enum Key {
    ArrowLeft,
    ArrowRight,
    Space,
    Other,
}

/// One discrete input event.
#[derive(Clone, Copy, PartialEq, Eq, Structural, Debug)]
pub enum Event {
    KeyUp(Key),
    KeyDown(Key),
}

} // verus!
