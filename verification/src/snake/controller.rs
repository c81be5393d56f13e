//! Turns directional key presses into the direction the snake moves in,
//! one change per interval, with a single slot for a turn that came too
//! early.

use super::Snake;
use crate::direction::Direction;
use crate::vector::IntVector2;
use vstd::prelude::*;

verus! {

/// The move a controller asks for.
pub struct SnakeActionMoveTo {
    pub position: IntVector2,
}

/// Which of the four directional keys went down in the current frame.
#[derive(Debug, Clone, Copy, PartialEq, Eq, Structural)]
pub struct DirectionKeys {
    pub up: bool,
    pub right: bool,
    pub down: bool,
    pub left: bool,
}

impl DirectionKeys {
    /// The direction the keys ask for: the first that is down among up,
    /// right, down and left, or none.
    pub open spec fn wanted(self) -> Option<Direction> {
        if self.up {
            Some(Direction::Up)
        } else if self.right {
            Some(Direction::Right)
        } else if self.down {
            Some(Direction::Down)
        } else if self.left {
            Some(Direction::Left)
        } else {
            None
        }
    }

    /// A snapshot with no key down.
    pub fn none() -> (keys: DirectionKeys)
        ensures
            keys == (DirectionKeys { up: false, right: false, down: false, left: false }),
            keys.wanted() == None::<Direction>,
    {
        DirectionKeys { up: false, right: false, down: false, left: false }
    }

    /// A snapshot with only the key of `direction` down.
    pub fn only(direction: Direction) -> (keys: DirectionKeys)
        ensures
            keys.wanted() == Some(direction),
            keys.up == (direction == Direction::Up),
            keys.right == (direction == Direction::Right),
            keys.down == (direction == Direction::Down),
            keys.left == (direction == Direction::Left),
    {
        DirectionKeys {
            up: direction == Direction::Up,
            right: direction == Direction::Right,
            down: direction == Direction::Down,
            left: direction == Direction::Left,
        }
    }

    /// Returns the direction the keys ask for, if any.
    pub fn wanted_direction(&self) -> (wanted: Option<Direction>)
        ensures
            wanted == self.wanted(),
    {
        if self.up {
            Some(Direction::Up)
        } else if self.right {
            Some(Direction::Right)
        } else if self.down {
            Some(Direction::Down)
        } else if self.left {
            Some(Direction::Left)
        } else {
            None
        }
    }
}

/// Decides the direction of a player's snake.
pub struct PlayerSnakeController {
    direction: Direction,
    next_direction: Option<Direction>,
    buffered_direction: Option<Direction>,
}

/// What a controller is, mathematically.
pub struct ControllerView {
    /// The direction the snake currently moves in.
    pub direction: Direction,
    /// The accepted change that the next interval will commit.
    pub next_direction: Option<Direction>,
    /// A request that was refused while another change was pending.
    pub buffered_direction: Option<Direction>,
}

impl ControllerView {
    /// A controller that moves in `direction` with nothing pending.
    pub open spec fn fresh(direction: Direction) -> ControllerView {
        ControllerView { direction, next_direction: None, buffered_direction: None }
    }

    /// A change is valid unless it reverses the committed direction.
    pub open spec fn is_valid(self, new_direction: Direction) -> bool {
        self.direction.reversed() != new_direction
    }

    /// The pending change, if there is one, does not reverse the committed
    /// direction.
    pub open spec fn wf(self) -> bool {
        self.next_direction matches Some(next) ==> self.is_valid(next)
    }

    /// The controller after a request: a valid one becomes the pending
    /// change; an invalid one is buffered if a change is pending, and is
    /// dropped otherwise.
    pub open spec fn stored(self, wanted: Option<Direction>) -> ControllerView {
        match wanted {
            None => self,
            Some(wanted_direction) => {
                if self.is_valid(wanted_direction) {
                    ControllerView { next_direction: Some(wanted_direction), ..self }
                } else if self.next_direction.is_some() {
                    ControllerView { buffered_direction: Some(wanted_direction), ..self }
                } else {
                    self
                }
            },
        }
    }

    /// The direction committed at an interval boundary.
    pub open spec fn committed(self) -> Direction {
        match self.next_direction {
            Some(next) => next,
            None => self.direction,
        }
    }

    /// The controller after an interval boundary: the pending change is
    /// committed, and the buffered request becomes the pending change if it
    /// is valid against the new direction, else it is dropped.
    pub open spec fn changed(self) -> ControllerView {
        let direction = self.committed();
        ControllerView {
            direction,
            next_direction: match self.buffered_direction {
                Some(buffered) => if direction.reversed() != buffered {
                    Some(buffered)
                } else {
                    None
                },
                None => None,
            },
            buffered_direction: None,
        }
    }

    /// The cell one step from `head` in the committed direction.
    pub open spec fn target(self, head: IntVector2) -> IntVector2 {
        head.plus(self.direction.offset())
    }
}

impl View for PlayerSnakeController {
    type V = ControllerView;

    closed spec fn view(&self) -> ControllerView {
        ControllerView {
            direction: self.direction,
            next_direction: self.next_direction,
            buffered_direction: self.buffered_direction,
        }
    }
}

impl PlayerSnakeController {
    /// Creates a controller that moves in `start_direction`.
    pub fn new(start_direction: Direction) -> (controller: PlayerSnakeController)
        ensures
            controller@ == ControllerView::fresh(start_direction),
            controller@.wf(),
    {
        PlayerSnakeController {
            direction: start_direction,
            next_direction: None,
            buffered_direction: None,
        }
    }

    /// Takes note of the direction the keys ask for. May be called any
    /// number of times within an interval.
    pub fn store_direction_change(&mut self, keys: &DirectionKeys)
        ensures
            final(self)@ == old(self)@.stored(keys.wanted()),
            old(self)@.wf() ==> final(self)@.wf(),
    {
        let wanted_direction = match keys.wanted_direction() {
            Some(direction) => direction,
            None => {
                return ;
            },
        };

        let valid = self.is_valid(wanted_direction);
        if valid {
            self.next_direction = Some(wanted_direction);
        }
        // A request that is invalid now may be valid once the pending change
        // is committed, so it is kept for one interval.

        if !valid && self.next_direction.is_some() {
            self.buffered_direction = Some(wanted_direction);
        }
    }

    /// Commits at most one change of direction. Call once per interval.
    pub fn change_direction(&mut self)
        ensures
            final(self)@ == old(self)@.changed(),
            final(self)@.wf(),
            old(self)@.wf() ==> final(self)@.direction != old(self)@.direction.reversed(),
    {
        if let Some(direction) = self.next_direction.take() {
            self.direction = direction;
        }
        if let Some(buffered_direction) = self.buffered_direction.take() {
            if self.is_valid(buffered_direction) {
                self.next_direction = Some(buffered_direction);
            }
        }
    }

    /// Tests whether `new_direction` may follow the committed direction.
    pub fn is_valid(&self, new_direction: Direction) -> (valid: bool)
        ensures
            valid == self@.is_valid(new_direction),
    {
        self.direction.opposite() != new_direction
    }

    /// Returns the committed direction.
    pub fn direction(&self) -> (direction: Direction)
        ensures
            direction == self@.direction,
    {
        self.direction
    }

    /// Returns the direction that would be committed at the next interval
    /// boundary if `keys` were noted first. Nothing is changed.
    pub fn direction_after(&self, keys: &DirectionKeys) -> (direction: Direction)
        ensures
            direction == self@.stored(keys.wanted()).changed().direction,
    {
        let pending = match keys.wanted_direction() {
            Some(wanted) => if self.is_valid(wanted) {
                Some(wanted)
            } else {
                self.next_direction
            },
            None => self.next_direction,
        };
        match pending {
            Some(next) => next,
            None => self.direction,
        }
    }

    /// Returns the move that takes the head of `snake` one step in the
    /// committed direction. Nothing is changed.
    pub fn action(&self, snake: &Snake) -> (action: SnakeActionMoveTo)
        requires
            snake.wf(),
            IntVector2::representable(snake@.head().sum(self@.direction.offset())),
        ensures
            action.position == self@.target(snake@.head()),
    {
        let new_position = snake.current_position() + self.direction.to_position();
        SnakeActionMoveTo { position: new_position }
    }
}

/// A request to reverse the committed direction never becomes the pending
/// change, any other request does, and so an interval boundary never turns
/// the snake back on itself.
pub proof fn reversal_is_rejected(controller: ControllerView, wanted: Direction)
    requires
        controller.wf(),
    ensures
        !controller.is_valid(controller.direction.reversed()),
        controller.is_valid(wanted) <==> wanted != controller.direction.reversed(),
        controller.is_valid(wanted) ==> controller.stored(Some(wanted)).next_direction == Some(
            wanted,
        ),
        !controller.is_valid(wanted) ==> controller.stored(Some(wanted)).next_direction
            == controller.next_direction,
        controller.stored(Some(wanted)).direction == controller.direction,
        controller.stored(Some(wanted)).wf(),
        controller.changed().wf(),
        controller.changed().direction != controller.direction.reversed(),
        controller.stored(Some(wanted)).changed().direction != controller.direction.reversed(),
{
}

} // verus!
