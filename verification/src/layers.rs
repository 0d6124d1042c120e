//! Draw-order keys consumed by the external renderer. The renderer sorts
//! draw commands ascending by layer, so larger layers are painted on top.

use vstd::prelude::*;

verus! {

pub const BACKGROUND: u8 = 0;

pub const SHIELD: u8 = 1;

pub const BEAM: u8 = 2;

pub const MISSILE: u8 = 3;

pub const SHIP: u8 = 4;

pub const ENEMY: u8 = 5;

} // verus!
