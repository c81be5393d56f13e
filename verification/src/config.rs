//! What a host decides when it starts a game.

use crate::direction::Direction;
use crate::grid::Grid;
use crate::snake::MAX_LENGTH;
use crate::vector::IntVector2;
use vstd::prelude::*;

verus! {

/// The settings of one game.
pub struct Config {
    /// The cell the snake starts on.
    pub start_position: IntVector2,
    /// The number of segments the snake starts with.
    pub start_length: usize,
    /// The direction the snake starts to move in.
    pub start_direction: Direction,
    /// Whether key presses steer the snake. A game that only plays a demo
    /// keeps its start direction.
    pub input_allowed: bool,
    /// The board.
    pub grid: Grid,
}

impl Config {
    /// A configuration can be played when the board has cells, the start
    /// length is within [`MAX_LENGTH`], and one step from the start position
    /// in any direction stays within `i32`.
    pub open spec fn wf(self) -> bool {
        &&& self.grid.wf()
        &&& self.start_length <= MAX_LENGTH
        &&& i32::MIN < self.start_position.x < i32::MAX
        &&& i32::MIN < self.start_position.y < i32::MAX
    }

    /// Tests whether the configuration can be played.
    pub fn is_playable(&self) -> (playable: bool)
        ensures
            playable == self.wf(),
    {
        self.grid.width > 0 && self.grid.height > 0 && self.start_length <= MAX_LENGTH
            && i32::MIN < self.start_position.x && self.start_position.x < i32::MAX && i32::MIN
            < self.start_position.y && self.start_position.y < i32::MAX
    }
}

} // verus!
