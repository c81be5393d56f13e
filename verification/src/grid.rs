//! A rectangular grid whose edges wrap around.

use crate::vector::IntVector2;
use vstd::prelude::*;

verus! {

/// The bounds of a toroidal board, `width` columns by `height` rows.
#[derive(Clone, Copy)]
pub struct Grid {
    pub width: u16,
    pub height: u16,
}

impl Grid {
    /// A grid is well formed when it has at least one column and one row.
    pub open spec fn wf(self) -> bool {
        self.width > 0 && self.height > 0
    }

    /// Whether `position` lies on the board.
    pub open spec fn holds(self, position: IntVector2) -> bool {
        0 <= position.x < self.width && 0 <= position.y < self.height
    }

    /// The cell of the board that `position` stands for once both
    /// coordinates are reduced with the non-negative remainder.
    pub open spec fn wrapped(self, position: IntVector2) -> IntVector2 {
        IntVector2 {
            x: (position.x as int % self.width as int) as i32,
            y: (position.y as int % self.height as int) as i32,
        }
    }

    /// Creates a grid of the given size; neither side may be zero.
    pub fn new(width: u16, height: u16) -> (grid: Grid)
        requires
            width > 0,
            height > 0,
        ensures
            grid.width == width,
            grid.height == height,
            grid.wf(),
    {
        Grid { width, height }
    }

    /// Creates a grid of the given size, or nothing if a side is zero.
    pub fn checked(width: u16, height: u16) -> (grid: Option<Grid>)
        ensures
            grid.is_some() == (width > 0 && height > 0),
            grid matches Some(g) ==> g.width == width && g.height == height && g.wf(),
    {
        if width > 0 && height > 0 {
            Some(Grid::new(width, height))
        } else {
            None
        }
    }

    /// Tests whether `position` lies on the board.
    pub fn contains(&self, position: IntVector2) -> (inside: bool)
        ensures
            inside == self.holds(position),
    {
        position.x >= 0 && position.x < (self.width as i32) && position.y >= 0 && position.y < (
        self.height as i32)
    }

    /// Maps any position to the cell it falls on when the board repeats in
    /// every direction.
    pub fn wrap(&self, position: IntVector2) -> (cell: IntVector2)
        requires
            self.wf(),
        ensures
            cell == self.wrapped(position),
            self.holds(cell),
            self.holds(position) ==> cell == position,
    {
        let x = match position.x.checked_rem_euclid(self.width as i32) {
            Some(x) => x,
            None => 0,
        };
        let y = match position.y.checked_rem_euclid(self.height as i32) {
            Some(y) => y,
            None => 0,
        };
        proof {
            wrapped_lands_on_the_grid(*self, position);
        }
        IntVector2 { x, y }
    }
}

/// Wrapping always lands on the board, leaves cells of the board where they
/// are, and moves a position by whole multiples of the board's sides.
pub proof fn wrapped_lands_on_the_grid(grid: Grid, position: IntVector2)
    requires
        grid.wf(),
    ensures
        grid.holds(grid.wrapped(position)),
        grid.holds(position) ==> grid.wrapped(position) == position,
        grid.wrapped(grid.wrapped(position)) == grid.wrapped(position),
        (position.x - grid.wrapped(position).x) % (grid.width as int) == 0,
        (position.y - grid.wrapped(position).y) % (grid.height as int) == 0,
{
    let w = grid.width as int;
    let h = grid.height as int;
    let x = position.x as int;
    let y = position.y as int;
    assert(0 <= x % w < w && (x - x % w) % w == 0 && (x % w) % w == x % w) by (nonlinear_arith)
        requires
            w > 0,
    ;
    assert(0 <= y % h < h && (y - y % h) % h == 0 && (y % h) % h == y % h) by (nonlinear_arith)
        requires
            h > 0,
    ;
    assert(0 <= x < w ==> x % w == x) by (nonlinear_arith)
        requires
            w > 0,
    ;
    assert(0 <= y < h ==> y % h == y) by (nonlinear_arith)
        requires
            h > 0,
    ;
}

} // verus!
