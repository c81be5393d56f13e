//! Integer vectors in the plane.

use std::ops::{Add, Sub};
use vstd::prelude::*;
use vstd::std_specs::ops::{AddSpecImpl, SubSpecImpl};

verus! {

/// A point or an offset with integer coordinates, compared by value.
#[derive(Debug, Clone, Copy, Hash, PartialEq, Eq, Structural)]
pub struct IntVector2 {
    pub x: i32,
    pub y: i32,
}

impl IntVector2 {
    /// The component-wise sum as a mathematical pair, before any machine bound.
    pub open spec fn sum(self, other: IntVector2) -> (int, int) {
        (self.x + other.x, self.y + other.y)
    }

    /// The component-wise difference as a mathematical pair.
    pub open spec fn difference(self, other: IntVector2) -> (int, int) {
        (self.x - other.x, self.y - other.y)
    }

    /// The component-wise sum as a vector, where it is representable.
    pub open spec fn plus(self, other: IntVector2) -> IntVector2 {
        IntVector2 { x: (self.x + other.x) as i32, y: (self.y + other.y) as i32 }
    }

    /// The component-wise difference as a vector, where it is representable.
    pub open spec fn minus(self, other: IntVector2) -> IntVector2 {
        IntVector2 { x: (self.x - other.x) as i32, y: (self.y - other.y) as i32 }
    }

    /// Whether a mathematical pair can be held in an `IntVector2`.
    pub open spec fn representable(pair: (int, int)) -> bool {
        i32::MIN <= pair.0 <= i32::MAX && i32::MIN <= pair.1 <= i32::MAX
    }
}

impl Add for IntVector2 {
    type Output = IntVector2;

    /// Component-wise addition; both sums must fit in an `i32`.
    fn add(self, other: IntVector2) -> (out: IntVector2) {
        IntVector2 { x: self.x + other.x, y: self.y + other.y }
    }
}

impl AddSpecImpl for IntVector2 {
    open spec fn obeys_add_spec() -> bool {
        true
    }

    open spec fn add_req(self, other: IntVector2) -> bool {
        IntVector2::representable(self.sum(other))
    }

    open spec fn add_spec(self, other: IntVector2) -> IntVector2 {
        self.plus(other)
    }
}

impl Sub for IntVector2 {
    type Output = IntVector2;

    /// Component-wise subtraction; both differences must fit in an `i32`.
    fn sub(self, other: IntVector2) -> (out: IntVector2) {
        IntVector2 { x: self.x - other.x, y: self.y - other.y }
    }
}

impl SubSpecImpl for IntVector2 {
    open spec fn obeys_sub_spec() -> bool {
        true
    }

    open spec fn sub_req(self, other: IntVector2) -> bool {
        IntVector2::representable(self.difference(other))
    }

    open spec fn sub_spec(self, other: IntVector2) -> IntVector2 {
        self.minus(other)
    }
}

} // verus!
