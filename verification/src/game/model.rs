//! The rules of the game, stated over mathematical values.
//!
//! Clock values and intervals are whole microseconds.

use crate::config::Config;
use crate::food::Food;
use crate::grid::Grid;
use crate::random::{picked, raw_at};
use crate::snake::controller::{ControllerView, DirectionKeys};
use crate::snake::{SnakeView, MAX_LENGTH};
use crate::vector::IntVector2;
use vstd::prelude::*;

verus! {

/// The interval between two moves at the start of a game: 0.13 s.
pub const ACTION_INTERVAL_BASE: u64 = 130_000;

/// The shortest interval between two moves: 0.05 s.
pub const ACTION_INTERVAL_MIN: u64 = 50_000;

/// The share of the interval, in percent, that is left after food is eaten.
pub const ACTION_INTERVAL_DECR_PERCENT: u64 = 80;

/// How many random cells are tried for new food before the board is
/// searched cell by cell.
pub const FOOD_ATTEMPTS: usize = 64;

/// Whether a game goes on or how it ended.
#[derive(Debug, Clone, Copy, PartialEq, Eq, Structural)]
pub enum SnakeGameState {
    /// The snake is alive.
    Running,
    /// The snake ran into itself.
    Finished {
        /// The number of segments at that moment.
        size: usize,
        /// The clock value at that moment.
        time: u64,
    },
}

/// The interval that follows `interval` when food is eaten: four fifths of
/// it, rounded down, but never less than [`ACTION_INTERVAL_MIN`].
pub open spec fn decayed(interval: u64) -> u64 {
    let shrunk = interval as nat * ACTION_INTERVAL_DECR_PERCENT as nat / 100;
    if shrunk < ACTION_INTERVAL_MIN {
        ACTION_INTERVAL_MIN
    } else {
        shrunk as u64
    }
}

/// The interval after `eaten` pieces of food.
pub open spec fn decayed_times(interval: u64, eaten: nat) -> u64
    decreases eaten,
{
    if eaten == 0 {
        interval
    } else {
        decayed(decayed_times(interval, (eaten - 1) as nat))
    }
}

/// The cells on which the given pieces of food lie, in the same order.
pub open spec fn food_cells(foods: Seq<Food>) -> Seq<IntVector2> {
    Seq::new(foods.len(), |i: int| foods[i]@)
}

/// Whether a segment of the snake or a piece of food lies on `position`.
pub open spec fn taken(
    occupied: Seq<IntVector2>,
    foods: Seq<IntVector2>,
    position: IntVector2,
) -> bool {
    occupied.contains(position) || foods.contains(position)
}

/// Whether `first` comes no later than `second` when the board is read row
/// by row from the origin.
pub open spec fn in_row_order(first: IntVector2, second: IntVector2) -> bool {
    first.y < second.y || (first.y == second.y && first.x <= second.x)
}

/// The cell of `grid` that a source with the given seed draws after
/// `draws` draws: the column from its next number, the row from the one
/// after that.
pub open spec fn drawn_cell(seed: usize, draws: u64, grid: Grid) -> IntVector2 {
    IntVector2 {
        x: picked(raw_at(seed, draws), 0, grid.width as usize) as i32,
        y: picked(raw_at(seed, draws.wrapping_add(1)), 0, grid.height as usize) as i32,
    }
}

/// The test that keeps every cell but `position`.
pub open spec fn away_from(position: IntVector2) -> spec_fn(IntVector2) -> bool {
    |cell: IntVector2| cell != position
}

/// The food that is left when the snake's head arrives on `position`.
pub open spec fn left_over(foods: Seq<IntVector2>, position: IntVector2) -> Seq<IntVector2> {
    foods.filter(away_from(position))
}

/// The number of pieces of food that lie on `position`.
pub open spec fn eaten_at(foods: Seq<IntVector2>, position: IntVector2) -> nat {
    (foods.len() - left_over(foods, position).len()) as nat
}

/// What a search for a cell for new food comes to.
pub struct FoodSearch {
    /// The cell that was found, if any.
    pub cell: Option<IntVector2>,
    /// The number of draws the pseudo-random source has made afterwards.
    pub draws: u64,
}

/// The food on a board and the state of the source once the game has seen
/// to it that there is food.
pub struct Spawn {
    /// The cells on which food lies.
    pub foods: Seq<IntVector2>,
    /// The number of draws the pseudo-random source has made afterwards.
    pub draws: u64,
}

/// What a game is, mathematically. The pseudo-random source is not part of
/// it: the rules say where food may appear, not which numbers are drawn.
pub struct GameView {
    /// Whether the game goes on.
    pub state: SnakeGameState,
    /// The board.
    pub grid: Grid,
    /// The snake.
    pub snake: SnakeView,
    /// The cells on which food lies, oldest first.
    pub foods: Seq<IntVector2>,
    /// The direction controller.
    pub controller: ControllerView,
    /// Whether key presses steer the snake.
    pub input_allowed: bool,
    /// The clock value of the last move.
    pub last_interval: u64,
    /// The time that has to pass between two moves.
    pub interval_time: u64,
}

impl GameView {
    /// The invariant of a game: its parts are well formed, the interval lies
    /// between the floor and the base, at most one piece of food lies on the
    /// board, all food lies on cells of the board, and one step from the
    /// head in any direction stays within `i32`.
    pub open spec fn wf(self) -> bool {
        &&& self.grid.wf()
        &&& self.snake.wf()
        &&& self.controller.wf()
        &&& ACTION_INTERVAL_MIN <= self.interval_time <= ACTION_INTERVAL_BASE
        &&& self.foods.len() <= 1
        &&& forall|i: int| 0 <= i < self.foods.len() ==> self.grid.holds(#[trigger] self.foods[i])
        &&& i32::MIN < self.snake.head().x < i32::MAX
        &&& i32::MIN < self.snake.head().y < i32::MAX
    }

    /// The game that `config` starts.
    pub open spec fn initial(config: Config) -> GameView {
        GameView {
            state: SnakeGameState::Running,
            grid: config.grid,
            snake: SnakeView::fresh(
                config.start_position,
                if config.start_length == 0 {
                    1
                } else {
                    config.start_length as nat
                },
            ),
            foods: Seq::empty(),
            controller: ControllerView::fresh(config.start_direction),
            input_allowed: config.input_allowed,
            last_interval: 0,
            interval_time: ACTION_INTERVAL_BASE,
        }
    }

    /// Whether `position` is a cell of the board that holds neither a
    /// segment of the snake nor food.
    pub open spec fn free(self, position: IntVector2) -> bool {
        self.grid.holds(position) && !taken(self.snake.occupied(), self.foods, position)
    }

    /// Whether `foods` may lie on the board once the game has seen to it
    /// that there is food: what lay there stays; an empty board gets one
    /// piece on a free cell, and stays empty only if no cell is free.
    pub open spec fn spawned(self, foods: Seq<IntVector2>) -> bool {
        if self.foods.len() > 0 {
            foods == self.foods
        } else if exists|position: IntVector2| self.free(position) {
            foods.len() == 1 && self.free(foods[0])
        } else {
            foods.len() == 0
        }
    }

    /// Whether `cell` is the first free cell of the board when it is read
    /// row by row from the origin.
    pub open spec fn is_first_free(self, cell: IntVector2) -> bool {
        self.free(cell) && forall|other: IntVector2| #[trigger]
            self.free(other) ==> in_row_order(cell, other)
    }

    /// The first free cell of the board in row order, if any cell is free.
    pub open spec fn first_free(self) -> Option<IntVector2> {
        if exists|cell: IntVector2| self.is_first_free(cell) {
            Some(choose|cell: IntVector2| self.is_first_free(cell))
        } else {
            None
        }
    }

    /// The search for a cell for new food by a source with the given seed
    /// that has made `draws` draws and has `attempts` tries left: the first
    /// drawn cell that is free, each try taking two draws; once the tries
    /// are used up, the first free cell in row order, if there is one.
    pub open spec fn searched(self, seed: usize, draws: u64, attempts: nat) -> FoodSearch
        decreases attempts,
    {
        if attempts == 0 {
            FoodSearch { cell: self.first_free(), draws }
        } else {
            let cell = drawn_cell(seed, draws, self.grid);
            let after = draws.wrapping_add(1).wrapping_add(1);
            if self.free(cell) {
                FoodSearch { cell: Some(cell), draws: after }
            } else {
                self.searched(seed, after, (attempts - 1) as nat)
            }
        }
    }

    /// The food on the board, and the draws the source has made, once the
    /// game has seen to it that there is food: a board with food is left
    /// alone and nothing is drawn; an empty board gets the cell that
    /// [`FOOD_ATTEMPTS`] tries of the search come to.
    pub open spec fn spawn(self, seed: usize, draws: u64) -> Spawn {
        if self.foods.len() > 0 {
            Spawn { foods: self.foods, draws }
        } else {
            let search = self.searched(seed, draws, FOOD_ATTEMPTS as nat);
            Spawn {
                foods: match search.cell {
                    Some(cell) => seq![cell],
                    None => Seq::empty(),
                },
                draws: search.draws,
            }
        }
    }

    /// The game with `foods` on the board.
    pub open spec fn with_foods(self, foods: Seq<IntVector2>) -> GameView {
        GameView { foods, ..self }
    }

    /// The game after the controller has seen `keys`.
    pub open spec fn fed(self, keys: DirectionKeys) -> GameView {
        GameView { controller: self.controller.stored(keys.wanted()), ..self }
    }

    /// Whether more than one interval has passed at clock value `now`.
    pub open spec fn due(self, now: u64) -> bool {
        now - self.last_interval > self.interval_time
    }

    /// The controller that decides the next move: a game that takes input
    /// commits a change of direction first.
    pub open spec fn steering(self) -> ControllerView {
        if self.input_allowed {
            self.controller.changed()
        } else {
            self.controller
        }
    }

    /// The cell the head moves to next: one step in the steering direction,
    /// wrapped onto the board.
    pub open spec fn candidate(self) -> IntVector2 {
        self.grid.wrapped(self.snake.head().plus(self.steering().direction.offset()))
    }

    /// The snake once it has eaten what lies on the candidate cell.
    pub open spec fn fed_snake(self) -> SnakeView {
        SnakeView {
            length: self.snake.length + eaten_at(self.foods, self.candidate()),
            ..self.snake
        }
    }

    /// Whether the next move runs the snake into itself.
    pub open spec fn collides(self) -> bool {
        self.fed_snake().occupied().contains(self.candidate())
    }

    /// The game after the move that is made at clock value `now`: food on
    /// the candidate cell is eaten, each piece shortens the interval and
    /// adds a segment, and then the snake either runs into itself, which
    /// ends the game, or moves.
    pub open spec fn advanced(self, now: u64) -> GameView {
        let position = self.candidate();
        let snake = self.fed_snake();
        GameView {
            state: if self.collides() {
                SnakeGameState::Finished { size: snake.length as usize, time: now }
            } else {
                SnakeGameState::Running
            },
            grid: self.grid,
            snake: if self.collides() {
                snake
            } else {
                snake.moved(position)
            },
            foods: left_over(self.foods, position),
            controller: self.steering(),
            input_allowed: self.input_allowed,
            last_interval: now,
            interval_time: decayed_times(self.interval_time, eaten_at(self.foods, position)),
        }
    }

    /// Whether the tick at clock value `now` with `keys` leaves the snake
    /// within [`MAX_LENGTH`]: a move that is due must not make it longer
    /// than that, whatever cell new food may have appeared on.
    pub open spec fn room_to_tick(self, now: u64, keys: DirectionKeys) -> bool {
        self.state == SnakeGameState::Running && self.due(now) ==> forall|foods: Seq<IntVector2>|
            #[trigger] self.spawned(foods) ==> self.with_foods(foods).fed(
                keys,
            ).fed_snake().length <= MAX_LENGTH
    }

    /// The game after one tick at clock value `now` with `keys`, food
    /// placement aside: a finished game stays as it is; a running game
    /// hands the keys to its controller, and moves if a move is due.
    pub open spec fn ticked(self, now: u64, keys: DirectionKeys) -> GameView {
        match self.state {
            SnakeGameState::Finished { .. } => self,
            SnakeGameState::Running => {
                if self.fed(keys).due(now) {
                    self.fed(keys).advanced(now)
                } else {
                    self.fed(keys)
                }
            },
        }
    }
}

/// The first free cell in row order is unique.
pub proof fn first_free_cell_is_unique(game: GameView, cell: IntVector2)
    requires
        game.is_first_free(cell),
    ensures
        game.first_free() == Some(cell),
{
    let chosen = choose|other: IntVector2| game.is_first_free(other);
    assert(game.free(chosen) && game.free(cell));
    assert(in_row_order(cell, chosen) && in_row_order(chosen, cell));
}

/// A board without a free cell has no first free cell.
pub proof fn covered_board_has_no_first_free_cell(game: GameView)
    requires
        forall|cell: IntVector2| !game.free(cell),
    ensures
        game.first_free().is_none(),
{
}

/// The search finds a free cell whenever one is there, and only then
/// nothing.
pub proof fn search_finds_a_free_cell_if_there_is_one(
    game: GameView,
    seed: usize,
    draws: u64,
    attempts: nat,
)
    requires
        game.grid.wf(),
    ensures
        game.searched(seed, draws, attempts).cell matches Some(cell) ==> game.free(cell),
        game.searched(seed, draws, attempts).cell.is_none() ==> forall|cell: IntVector2|
            !game.free(cell),
    decreases attempts,
{
    if attempts == 0 {
        if game.first_free().is_none() {
            assert forall|cell: IntVector2| !game.free(cell) by {
                if game.free(cell) {
                    some_free_cell_is_first(game, cell);
                }
            }
        }
    } else {
        let after = draws.wrapping_add(1).wrapping_add(1);
        search_finds_a_free_cell_if_there_is_one(game, seed, after, (attempts - 1) as nat);
    }
}

/// Among the free cells of a board one comes first in row order.
pub proof fn some_free_cell_is_first(game: GameView, cell: IntVector2)
    requires
        game.free(cell),
    ensures
        exists|first: IntVector2| game.is_first_free(first),
    decreases cell.y as int * 0x1_0000 + cell.x,
{
    if exists|other: IntVector2| game.free(other) && !in_row_order(cell, other) {
        let other = choose|other: IntVector2| game.free(other) && !in_row_order(cell, other);
        some_free_cell_is_first(game, other);
    } else {
        assert(game.is_first_free(cell));
    }
}

/// What the game puts on the board when it sees to it that there is food
/// is food that may lie there.
pub proof fn spawn_is_spawned(game: GameView, seed: usize, draws: u64)
    requires
        game.grid.wf(),
    ensures
        game.spawned(game.spawn(seed, draws).foods),
        game.foods.len() > 0 ==> game.spawn(seed, draws).draws == draws,
{
    if game.foods.len() == 0 {
        search_finds_a_free_cell_if_there_is_one(game, seed, draws, FOOD_ATTEMPTS as nat);
    }
}

/// Of at most one piece of food, one is eaten exactly when it lies on the
/// cell in question.
pub proof fn eaten_of_at_most_one(foods: Seq<IntVector2>, position: IntVector2)
    requires
        foods.len() <= 1,
    ensures
        eaten_at(foods, position) == if foods.len() == 1 && foods[0] == position {
            1nat
        } else {
            0nat
        },
{
    reveal_with_fuel(Seq::filter, 3);
    if foods.len() == 1 {
        assert(foods.drop_last() =~= Seq::<IntVector2>::empty());
    }
}

/// A snake below the greatest length always has room for the next tick.
pub proof fn shorter_snake_has_room(game: GameView, now: u64, keys: DirectionKeys)
    requires
        game.wf(),
        game.snake.length < MAX_LENGTH,
    ensures
        game.room_to_tick(now, keys),
{
    assert forall|foods: Seq<IntVector2>| #[trigger] game.spawned(foods) implies game.with_foods(
        foods,
    ).fed(keys).fed_snake().length <= MAX_LENGTH by {
        let fed = game.with_foods(foods).fed(keys);
        eaten_of_at_most_one(foods, fed.candidate());
    }
}

/// Eating never lengthens the interval and never takes it below the floor,
/// however much is eaten.
pub proof fn interval_never_rises_nor_passes_the_floor(interval: u64, eaten: nat)
    requires
        ACTION_INTERVAL_MIN <= interval,
    ensures
        ACTION_INTERVAL_MIN <= decayed_times(interval, eaten + 1) <= decayed_times(interval, eaten)
            <= interval,
    decreases eaten,
{
    if eaten > 0 {
        interval_never_rises_nor_passes_the_floor(interval, (eaten - 1) as nat);
    }
    let before = decayed_times(interval, eaten);
    assert(decayed_times(interval, eaten + 1) == decayed(before));
    assert(before as nat * 80 / 100 <= before) by (nonlinear_arith);
}

/// From the base interval the floor is reached with the fifth piece of food,
/// and the interval rests there.
pub proof fn interval_settles_on_the_floor(eaten: nat)
    ensures
        decayed_times(ACTION_INTERVAL_BASE, 1) == 104_000,
        decayed_times(ACTION_INTERVAL_BASE, 2) == 83_200,
        decayed_times(ACTION_INTERVAL_BASE, 3) == 66_560,
        decayed_times(ACTION_INTERVAL_BASE, 4) == 53_248,
        eaten >= 5 ==> decayed_times(ACTION_INTERVAL_BASE, eaten) == ACTION_INTERVAL_MIN,
    decreases eaten,
{
    reveal_with_fuel(decayed_times, 6);
    if eaten > 5 {
        interval_settles_on_the_floor((eaten - 1) as nat);
    }
}

/// A tick of a running game before the next move is due changes nothing
/// but what the controller has noted of the keys.
pub proof fn early_tick_only_notes_the_keys(game: GameView, now: u64, keys: DirectionKeys)
    requires
        game.state == SnakeGameState::Running,
        now - game.last_interval <= game.interval_time,
    ensures
        game.ticked(now, keys) == (GameView {
            controller: game.controller.stored(keys.wanted()),
            ..game
        }),
        game.ticked(now, keys).controller.direction == game.controller.direction,
{
}

/// A finished game ignores every tick.
pub proof fn finished_game_is_frozen(game: GameView, now: u64, keys: DirectionKeys)
    requires
        game.state is Finished,
    ensures
        game.ticked(now, keys) == game,
{
}

/// A game that ends in a move reports the length the snake had at that
/// moment, grown by what it ate on the way, and the time of the move.
pub proof fn collision_reports_size_and_time(game: GameView, now: u64)
    requires
        game.wf(),
        game.snake.length + game.foods.len() <= MAX_LENGTH,
    ensures
        game.collides() <==> game.advanced(now).state is Finished,
        game.collides() ==> game.advanced(now).state == (SnakeGameState::Finished {
            size: (game.snake.length + eaten_at(game.foods, game.candidate())) as usize,
            time: now,
        }),
        game.advanced(now).snake.length == game.snake.length + eaten_at(
            game.foods,
            game.candidate(),
        ),
        !game.collides() ==> game.advanced(now).snake.head() == game.candidate(),
{
}

} // verus!
