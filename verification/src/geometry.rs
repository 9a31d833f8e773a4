use vstd::prelude::*;

verus! {

/// A grid-space coordinate in pixel units. Equality is structural.
#[derive(Clone, Copy, PartialEq, Eq, Structural, Debug)]
pub struct Point {
    pub x: i32,
    pub y: i32,
}

} // verus!
