use vstd::prelude::*;

verus! {

/// The world that the player moves through; it holds no data yet.
#[derive(Clone, Copy, PartialEq, Eq, Debug)]
pub struct Level;

} // verus!
