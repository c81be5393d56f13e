//! The snake: a bounded, newest-first history of visited cells and a logical
//! length that may run ahead of that history.

use crate::vector::IntVector2;
use circular_queue::CircularQueue;
use vstd::prelude::*;

pub mod controller;
pub mod history;

pub use controller::{DirectionKeys, PlayerSnakeController, SnakeActionMoveTo};

use history::{pushed, queue_capacity, queue_cells, queue_len, queue_push, queue_to_vec, queue_with_capacity};

verus! {

/// Upper bound on both the stored history and the logical length. Play is
/// never expected to reach it.
pub const MAX_LENGTH: usize = 1000;

/// The body of a snake.
pub struct Snake {
    position_history: CircularQueue<IntVector2>,
    start_position: IntVector2,
    length: usize,
}

/// What a snake is, mathematically.
pub struct SnakeView {
    /// The cells the head has visited, newest first.
    pub history: Seq<IntVector2>,
    /// The cell that stands in for segments the history does not cover yet.
    pub start_position: IntVector2,
    /// The number of segments.
    pub length: nat,
}

impl SnakeView {
    /// A snake has at least one segment and one recorded cell, and neither
    /// count exceeds [`MAX_LENGTH`].
    pub open spec fn wf(self) -> bool {
        &&& 1 <= self.history.len() <= MAX_LENGTH
        &&& 1 <= self.length <= MAX_LENGTH
    }

    /// A snake of `length` segments that has not moved from `start`.
    pub open spec fn fresh(start: IntVector2, length: nat) -> SnakeView {
        SnakeView { history: seq![start], start_position: start, length }
    }

    /// The cell of the head.
    pub open spec fn head(self) -> IntVector2 {
        self.history[0]
    }

    /// The number of segments that lie on recorded cells.
    pub open spec fn recorded(self) -> nat {
        if self.length <= self.history.len() {
            self.length
        } else {
            self.history.len()
        }
    }

    /// The cells the body occupies, head first: the newest recorded cells,
    /// then the start position once for each segment beyond the history.
    pub open spec fn occupied(self) -> Seq<IntVector2> {
        self.history.take(self.recorded() as int) + Seq::new(
            (self.length - self.recorded()) as nat,
            |i: int| self.start_position,
        )
    }

    /// The snake with one more segment and the same history.
    pub open spec fn grown(self) -> SnakeView {
        SnakeView { length: self.length + 1, ..self }
    }

    /// The snake after its head has moved to `position`.
    pub open spec fn moved(self, position: IntVector2) -> SnakeView {
        SnakeView { history: pushed(self.history, MAX_LENGTH as nat, position), ..self }
    }
}

impl View for Snake {
    type V = SnakeView;

    closed spec fn view(&self) -> SnakeView {
        SnakeView {
            history: queue_cells(self.position_history),
            start_position: self.start_position,
            length: self.length as nat,
        }
    }
}

impl Snake {
    /// The capacity of the underlying history.
    pub closed spec fn capacity(&self) -> nat {
        queue_capacity(self.position_history)
    }

    /// The invariant of every snake this module hands out.
    pub open spec fn wf(&self) -> bool {
        self.capacity() == MAX_LENGTH && self@.wf()
    }

    /// Creates a snake resting on `start_position` with `start_length`
    /// segments; a requested length of zero gives one segment.
    pub fn new(start_position: IntVector2, start_length: usize) -> (snake: Snake)
        requires
            start_length <= MAX_LENGTH,
        ensures
            snake.wf(),
            snake@ == SnakeView::fresh(
                start_position,
                if start_length == 0 {
                    1
                } else {
                    start_length as nat
                },
            ),
    {
        let mut position_history = queue_with_capacity(MAX_LENGTH);
        queue_push(&mut position_history, start_position);
        assert(queue_cells(position_history) =~= seq![start_position]);

        let mut snake = Snake { start_position, position_history, length: 1 };

        let mut grown: usize = 1;
        while grown < start_length
            invariant
                1 <= grown,
                start_length <= MAX_LENGTH,
                grown <= start_length || grown == 1,
                snake.capacity() == MAX_LENGTH,
                snake@ == SnakeView::fresh(start_position, grown as nat),
            decreases start_length - grown,
        {
            snake.grow();
            grown += 1;
        }

        snake
    }

    /// Adds one segment. The history is left alone, so the tail catches up
    /// over the following moves.
    pub fn grow(&mut self)
        requires
            old(self).wf(),
            old(self)@.length < MAX_LENGTH,
        ensures
            final(self).wf(),
            final(self)@ == old(self)@.grown(),
    {
        self.length += 1;
    }

    /// Returns the number of segments.
    pub fn length(&self) -> (length: usize)
        ensures
            length == self@.length,
    {
        self.length
    }

    /// Moves the head to `position`, which must differ from the cell it is
    /// on. The oldest recorded cell is dropped once the history is full.
    pub fn move_to(&mut self, position: IntVector2)
        requires
            old(self).wf(),
            position != old(self)@.head(),
        ensures
            final(self).wf(),
            final(self)@ == old(self)@.moved(position),
            final(self)@.head() == position,
    {
        queue_push(&mut self.position_history, position);
    }

    /// Returns the cell of the head.
    pub fn current_position(&self) -> (head: IntVector2)
        requires
            self.wf(),
        ensures
            head == self@.head(),
    {
        let cells = queue_to_vec(&self.position_history);
        cells[0]
    }

    /// Returns the cells the body occupies, head first.
    pub fn positions(&self) -> (cells: Vec<IntVector2>)
        ensures
            cells@ == self@.occupied(),
            cells@.len() == self@.length,
    {
        let stored = queue_to_vec(&self.position_history);
        let recorded = if self.length <= queue_len(&self.position_history) {
            self.length
        } else {
            queue_len(&self.position_history)
        };
        let mut cells: Vec<IntVector2> = Vec::new();
        let mut taken: usize = 0;
        while taken < recorded
            invariant
                taken <= recorded,
                recorded == self@.recorded(),
                recorded <= stored@.len(),
                stored@ == self@.history,
                cells@ == stored@.take(taken as int),
            decreases recorded - taken,
        {
            cells.push(stored[taken]);
            taken += 1;
            assert(cells@ =~= stored@.take(taken as int));
        }
        let mut padding = repeat_ref(&self.start_position, self.length - recorded);
        cells.append(&mut padding);
        cells
    }
}

/// The body has as many cells as the snake has segments: the newest recorded
/// cells come first, and the start position fills what is left.
pub proof fn occupied_cells_match_length(snake: SnakeView)
    ensures
        snake.occupied().len() == snake.length,
        snake.recorded() <= snake.length,
        forall|i: int| 0 <= i < snake.recorded() ==> snake.occupied()[i] == snake.history[i],
        forall|i: int|
            snake.recorded() <= i < snake.length ==> snake.occupied()[i] == snake.start_position,
        snake.wf() ==> snake.occupied()[0] == snake.head(),
{
}

/// A snake that has not moved lies on its start position with every one of
/// its segments.
pub proof fn fresh_snake_lies_on_its_start(start: IntVector2, length: nat)
    requires
        1 <= length <= MAX_LENGTH,
    ensures
        SnakeView::fresh(start, length).wf(),
        SnakeView::fresh(start, length).head() == start,
        SnakeView::fresh(start, length).occupied() == Seq::new(length, |i: int| start),
{
    assert(SnakeView::fresh(start, length).occupied() =~= Seq::new(length, |i: int| start));
}

/// Growing and moving keep a snake well formed. Growing leaves the history
/// alone; moving puts the new cell in front, keeps the length, and drops the
/// oldest cell only when the history is full.
pub proof fn growing_and_moving_keep_a_snake_well_formed(snake: SnakeView, position: IntVector2)
    requires
        snake.wf(),
    ensures
        snake.length < MAX_LENGTH ==> snake.grown().wf(),
        snake.grown().history == snake.history,
        snake.grown().length == snake.length + 1,
        snake.moved(position).wf(),
        snake.moved(position).head() == position,
        snake.moved(position).length == snake.length,
        snake.moved(position).start_position == snake.start_position,
        snake.history.len() < MAX_LENGTH ==> snake.moved(position).history == seq![position]
            + snake.history,
        snake.history.len() == MAX_LENGTH ==> snake.moved(position).history == seq![position]
            + snake.history.drop_last(),
{
}

/// A snake of one segment that moves twice and then grows five times
/// covers its two newest cells and, four times, its start position.
pub proof fn growth_beyond_history_pads_with_start(
    start: IntVector2,
    first: IntVector2,
    second: IntVector2,
)
    ensures
        SnakeView::fresh(start, 1).moved(first).moved(
            second,
        ).grown().grown().grown().grown().grown().occupied() == seq![
            second,
            first,
            start,
            start,
            start,
            start,
        ],
{
    let snake = SnakeView::fresh(start, 1).moved(first).moved(
        second,
    ).grown().grown().grown().grown().grown();
    assert(snake.history =~= seq![second, first, start]);
    assert(snake.occupied() =~= seq![second, first, start, start, start, start]);
}

/// Returns `count` copies of `item`.
fn repeat_ref(item: &IntVector2, count: usize) -> (copies: Vec<IntVector2>)
    ensures
        copies@ == Seq::new(count as nat, |i: int| *item),
{
    let mut copies: Vec<IntVector2> = Vec::new();
    let mut made: usize = 0;
    while made < count
        invariant
            made <= count,
            copies@ == Seq::new(made as nat, |i: int| *item),
        decreases count - made,
    {
        copies.push(*item);
        made += 1;
        assert(copies@ =~= Seq::new(made as nat, |i: int| *item));
    }
    copies
}

} // verus!
