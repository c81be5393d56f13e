//! The bounded history of cells a snake has visited, kept in a
//! `circular_queue::CircularQueue`.
//!
//! Verus does not look inside the queue. What it holds is named by
//! [`queue_cells`] and [`queue_capacity`], and each function below states,
//! without proof, what one method of the queue does to them.

use crate::vector::IntVector2;
use circular_queue::CircularQueue;
use vstd::prelude::*;

verus! {

#[verifier::external_type_specification]
#[verifier::external_body]
#[verifier::reject_recursive_types(T)]
pub struct ExCircularQueue<T>(CircularQueue<T>);

/// The cells a queue holds, newest first: the order in which
/// `CircularQueue::iter` yields them.
pub uninterp spec fn queue_cells(queue: CircularQueue<IntVector2>) -> Seq<IntVector2>;

/// The capacity a queue was created with.
pub uninterp spec fn queue_capacity(queue: CircularQueue<IntVector2>) -> nat;

/// What a newest-first history of the given capacity holds after `cell` is
/// pushed: a queue without room keeps what it had, one with room left gains
/// the cell in front, and a full one also loses its oldest cell.
pub open spec fn pushed(cells: Seq<IntVector2>, capacity: nat, cell: IntVector2) -> Seq<
    IntVector2,
> {
    if capacity == 0 {
        cells
    } else if cells.len() != capacity {
        seq![cell] + cells
    } else {
        seq![cell] + cells.drop_last()
    }
}

/// Calls `CircularQueue::with_capacity`. Trusted: the new queue is empty and
/// remembers the capacity. The bound keeps the allocation of eight-byte
/// cells within what a `Vec` may be asked for.
#[verifier::external_body]
pub(crate) fn queue_with_capacity(capacity: usize) -> (queue: CircularQueue<IntVector2>)
    requires
        capacity * 8 <= isize::MAX,
    ensures
        queue_cells(queue) == Seq::<IntVector2>::empty(),
        queue_capacity(queue) == capacity,
{
    CircularQueue::with_capacity(capacity)
}

/// Calls `CircularQueue::push` and drops the evicted cell. Trusted: the
/// capacity stays, and the cells change as [`pushed`] says.
#[verifier::external_body]
pub(crate) fn queue_push(queue: &mut CircularQueue<IntVector2>, cell: IntVector2)
    ensures
        queue_capacity(*final(queue)) == queue_capacity(*old(queue)),
        queue_cells(*final(queue)) == pushed(
            queue_cells(*old(queue)),
            queue_capacity(*old(queue)),
            cell,
        ),
{
    queue.push(cell);
}

/// Calls `CircularQueue::iter` and copies what it yields into a vector.
/// Trusted: the vector holds the queue's cells, newest first.
#[verifier::external_body]
pub(crate) fn queue_to_vec(queue: &CircularQueue<IntVector2>) -> (cells: Vec<IntVector2>)
    ensures
        cells@ == queue_cells(*queue),
{
    queue.iter().copied().collect()
}

/// Calls `CircularQueue::len`. Trusted: it counts the cells held.
#[verifier::external_body]
pub(crate) fn queue_len(queue: &CircularQueue<IntVector2>) -> (len: usize)
    ensures
        len == queue_cells(*queue).len(),
{
    queue.len()
}

} // verus!
