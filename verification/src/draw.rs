//! The renderer boundary: one draw command per visible entity per tick. A
//! command names the sprite cell to blit, where to put it, and its layer; the
//! consumer sorts ascending by layer and executes each command once.

use vstd::prelude::*;

use crate::geometry::Point;
use crate::sprite::Cell;

verus! {

/// An ordered draw primitive: blit `cell` at `position`, on `layer`.
#[derive(Clone, Copy, PartialEq, Eq, Structural, Debug)]
pub struct DrawCommand {
    pub layer: u8,
    pub cell: Cell,
    pub position: Point,
}

} // verus!
