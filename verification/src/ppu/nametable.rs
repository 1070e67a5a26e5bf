//! The size of a nametable, in tiles.
use vstd::prelude::*;

verus! {

pub const HEIGHT: usize = 30;

pub const WIDTH: usize = 32;

} // verus!
