//! Two-component vector of binary32 values.
use crate::ieee::{bits_float_eq, float_eq};
use vstd::prelude::*;
use vstd::std_specs::cmp::PartialEqSpecImpl;

verus! {

/// A 2D vector; `x` and `y` are binary32 bit patterns. Two vectors are equal
/// when their components are equal as numbers (see [`float_eq`]).
#[derive(Clone, Copy, Debug, Default)]
pub struct Vector2D {
    pub x: u32,
    pub y: u32,
}

impl Vector2D {
    /// The vector with components `x` and `y` (bit patterns).
    pub fn new(x: u32, y: u32) -> (v: Self)
        ensures
            v.x == x,
            v.y == y,
    {
        Self { x, y }
    }
}

impl PartialEq for Vector2D {
    fn eq(&self, other: &Self) -> (r: bool) {
        bits_float_eq(self.x, other.x) && bits_float_eq(self.y, other.y)
    }
}

impl PartialEqSpecImpl for Vector2D {
    open spec fn obeys_eq_spec() -> bool {
        true
    }

    open spec fn eq_spec(&self, other: &Self) -> bool {
        float_eq(self.x, other.x) && float_eq(self.y, other.y)
    }
}

} // verus!
