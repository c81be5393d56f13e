//! Finding room for food and clearing food away.

use super::model::{away_from, eaten_at, food_cells, in_row_order, left_over, taken};
use crate::food::Food;
use crate::grid::Grid;
use crate::vector::IntVector2;
use vstd::prelude::*;

verus! {

/// Tests whether `position` is among `cells`.
pub fn contains_position(cells: &Vec<IntVector2>, position: IntVector2) -> (found: bool)
    ensures
        found == cells@.contains(position),
{
    let mut i: usize = 0;
    while i < cells.len()
        invariant
            i <= cells.len(),
            forall|j: int| 0 <= j < i ==> cells@[j] != position,
        decreases cells.len() - i,
    {
        if cells[i] == position {
            return true;
        }
        i += 1;
    }
    false
}

/// Tests whether a segment of the snake, whose cells are `occupied`, or one
/// of `foods` lies on `position`.
pub fn position_taken(occupied: &Vec<IntVector2>, foods: &Vec<Food>, position: IntVector2) -> (found:
    bool)
    ensures
        found == taken(occupied@, food_cells(foods@), position),
{
    if contains_position(occupied, position) {
        return true;
    }
    let mut i: usize = 0;
    while i < foods.len()
        invariant
            i <= foods.len(),
            forall|j: int| 0 <= j < i ==> food_cells(foods@)[j] != position,
        decreases foods.len() - i,
    {
        if *foods[i].pos() == position {
            assert(food_cells(foods@)[i as int] == position);
            return true;
        }
        i += 1;
    }
    false
}

/// Searches the board row by row from the origin for a cell that is not
/// taken, and returns the first one; `None` means that every cell is taken.
pub fn first_free_cell(grid: &Grid, occupied: &Vec<IntVector2>, foods: &Vec<Food>) -> (found:
    Option<IntVector2>)
    ensures
        match found {
            Some(cell) => {
                &&& grid.holds(cell)
                &&& !taken(occupied@, food_cells(foods@), cell)
                &&& forall|other: IntVector2|
                    #[trigger] grid.holds(other) && !taken(occupied@, food_cells(foods@), other)
                        ==> in_row_order(cell, other)
            },
            None => forall|other: IntVector2|
                #[trigger] grid.holds(other) ==> taken(occupied@, food_cells(foods@), other),
        },
{
    let mut y: u16 = 0;
    while y < grid.height
        invariant
            y <= grid.height,
            forall|other: IntVector2|
                #[trigger] grid.holds(other) && other.y < y ==> taken(
                    occupied@,
                    food_cells(foods@),
                    other,
                ),
        decreases grid.height - y,
    {
        let mut x: u16 = 0;
        while x < grid.width
            invariant
                x <= grid.width,
                y < grid.height,
                forall|other: IntVector2|
                    #[trigger] grid.holds(other) && (other.y < y || (other.y == y && other.x < x))
                        ==> taken(occupied@, food_cells(foods@), other),
            decreases grid.width - x,
        {
            let cell = IntVector2 { x: x as i32, y: y as i32 };
            if !position_taken(occupied, foods, cell) {
                return Some(cell);
            }
            x += 1;
        }
        y += 1;
    }
    None
}

/// Removes every piece of food that lies on `position` and returns how many
/// there were. The rest keeps its order.
pub fn remove_foods_at(foods: &mut Vec<Food>, position: IntVector2) -> (eaten: usize)
    ensures
        food_cells(final(foods)@) == left_over(food_cells(old(foods)@), position),
        eaten == eaten_at(food_cells(old(foods)@), position),
        final(foods)@.len() + eaten == old(foods)@.len(),
{
    let mut kept: Vec<Food> = Vec::new();
    let mut i: usize = 0;
    proof {
        reveal(Seq::filter);
        assert(food_cells(foods@).take(0) =~= Seq::<IntVector2>::empty());
        assert(food_cells(kept@) =~= Seq::<IntVector2>::empty());
    }
    while i < foods.len()
        invariant
            i <= foods.len(),
            kept@.len() <= i,
            food_cells(kept@) == left_over(food_cells(foods@).take(i as int), position),
        decreases foods.len() - i,
    {
        let cell = *foods[i].pos();
        let ghost before = food_cells(kept@);
        if cell != position {
            kept.push(Food::new(cell));
            assert(food_cells(kept@) =~= before.push(cell));
        }
        proof {
            let cells = food_cells(foods@);
            assert(cells.take(i + 1) =~= cells.take(i as int).push(cell));
            cells.take(i as int).lemma_filter_push(cell, away_from(position));
        }
        i += 1;
    }
    assert(food_cells(foods@).take(i as int) =~= food_cells(foods@));
    assert(food_cells(kept@).len() == kept@.len());
    assert(food_cells(foods@).len() == foods@.len());
    let eaten = foods.len() - kept.len();
    *foods = kept;
    eaten
}

} // verus!
