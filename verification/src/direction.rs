//! The four cardinal directions.

use crate::vector::IntVector2;
use vstd::prelude::*;

verus! {

/// A cardinal direction in the plane. `Up` points towards growing `y`.
#[derive(Debug, Clone, Copy, Hash, PartialEq, Eq, Structural)]
pub enum Direction {
    Up,
    Right,
    Down,
    Left,
}

impl Direction {
    /// The unit offset of one step in this direction.
    pub open spec fn offset(self) -> IntVector2 {
        match self {
            Direction::Up => IntVector2 { x: 0, y: 1 },
            Direction::Right => IntVector2 { x: 1, y: 0 },
            Direction::Down => IntVector2 { x: 0, y: -1i32 },
            Direction::Left => IntVector2 { x: -1i32, y: 0 },
        }
    }

    /// The direction that points the other way.
    pub open spec fn reversed(self) -> Direction {
        match self {
            Direction::Up => Direction::Down,
            Direction::Right => Direction::Left,
            Direction::Down => Direction::Up,
            Direction::Left => Direction::Right,
        }
    }

    /// Returns the unit offset of one step in this direction.
    pub fn to_position(&self) -> (offset: IntVector2)
        ensures
            offset == self.offset(),
    {
        match self {
            Direction::Up => IntVector2 { x: 0, y: 1 },
            Direction::Right => IntVector2 { x: 1, y: 0 },
            Direction::Down => IntVector2 { x: 0, y: -1 },
            Direction::Left => IntVector2 { x: -1, y: 0 },
        }
    }

    /// Returns the direction that points the other way.
    pub fn opposite(&self) -> (other: Direction)
        ensures
            other == self.reversed(),
    {
        match self {
            Direction::Up => Direction::Down,
            Direction::Right => Direction::Left,
            Direction::Left => Direction::Right,
            Direction::Down => Direction::Up,
        }
    }
}

/// Reversing a direction twice gives the direction back, and a direction
/// never equals its own reverse.
pub proof fn reversed_is_an_involution(d: Direction)
    ensures
        d.reversed().reversed() == d,
        d.reversed() != d,
{
}

/// Every offset is a unit step along one axis, and the offset of the
/// reversed direction is the negated offset.
pub proof fn offsets_are_opposite_unit_steps(d: Direction)
    ensures
        d.offset().x * d.offset().x + d.offset().y * d.offset().y == 1,
        d.reversed().offset().x == -d.offset().x,
        d.reversed().offset().y == -d.offset().y,
{
}

} // verus!
