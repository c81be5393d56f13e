//! The game engine: one snake, its food and its controller on a board,
//! advanced by ticks of a clock.

use crate::config::Config;
use crate::food::Food;
use crate::grid::Grid;
use crate::random::PsuedoRandom;
use crate::renderer::{is_drawing, CellRect, SnakeGameRenderer};
use crate::snake::controller::{DirectionKeys, PlayerSnakeController};
use crate::snake::{Snake, SnakeView, MAX_LENGTH};
use crate::vector::IntVector2;
use vstd::prelude::*;

pub mod model;
pub mod placement;

pub use model::{
    GameView, SnakeGameState, ACTION_INTERVAL_BASE, ACTION_INTERVAL_DECR_PERCENT, ACTION_INTERVAL_MIN,
    FOOD_ATTEMPTS,
};

use model::{
    away_from, covered_board_has_no_first_free_cell, decayed, decayed_times, drawn_cell,
    eaten_of_at_most_one, first_free_cell_is_unique, food_cells,
    interval_never_rises_nor_passes_the_floor, shorter_snake_has_room, spawn_is_spawned,
};
use placement::{contains_position, first_free_cell, position_taken, remove_foods_at};

verus! {

/// A slot that holds how a game stands. The game keeps one, and
/// [`SnakeGame::handle`] gives a host a copy of it. A copy is a snapshot: it
/// does not follow the game, and a state put into it does not reach the
/// game. A host that is to share the state with the game shares the game
/// and uses [`SnakeGame::state`] and [`SnakeGame::replace_state`].
#[derive(Clone, Copy)]
pub struct SnakeGameHandle {
    state: SnakeGameState,
}

impl View for SnakeGameHandle {
    type V = SnakeGameState;

    closed spec fn view(&self) -> SnakeGameState {
        self.state
    }
}

impl SnakeGameHandle {
    /// Returns the state in the slot.
    pub fn state(&self) -> (state: SnakeGameState)
        ensures
            state == self@,
    {
        self.state
    }

    /// Puts `state` into the slot and returns what was there.
    pub fn replace_state(&mut self, state: SnakeGameState) -> (previous: SnakeGameState)
        ensures
            previous == old(self)@,
            final(self)@ == state,
    {
        let previous = self.state;
        self.state = state;
        previous
    }
}

/// Returns the interval that follows `interval` when food is eaten.
pub fn decayed_interval(interval: u64) -> (next: u64)
    ensures
        next == decayed(interval),
{
    let shrunk: u128 = (interval as u128) * (ACTION_INTERVAL_DECR_PERCENT as u128) / 100;
    if shrunk < ACTION_INTERVAL_MIN as u128 {
        ACTION_INTERVAL_MIN
    } else {
        shrunk as u64
    }
}

/// One game of snake.
pub struct SnakeGame {
    handle: SnakeGameHandle,
    grid: Grid,
    snake: Snake,
    foods: Vec<Food>,
    snake_controller: PlayerSnakeController,
    renderer: SnakeGameRenderer,
    rng: PsuedoRandom,
    input_allowed: bool,
    /// The clock value of the last move.
    last_interval: u64,
    interval_time: u64,
}

impl View for SnakeGame {
    type V = GameView;

    closed spec fn view(&self) -> GameView {
        GameView {
            state: self.handle@,
            grid: self.grid,
            snake: self.snake@,
            foods: food_cells(self.foods@),
            controller: self.snake_controller@,
            input_allowed: self.input_allowed,
            last_interval: self.last_interval,
            interval_time: self.interval_time,
        }
    }
}

impl SnakeGame {
    /// Whether the history of the snake has the capacity it was made with.
    pub closed spec fn history_bounded(&self) -> bool {
        self.snake.capacity() == MAX_LENGTH
    }

    /// The pseudo-random source from which the game draws cells for food.
    pub closed spec fn source(&self) -> PsuedoRandom {
        self.rng
    }

    /// The invariant of every game this module hands out.
    pub open spec fn wf(&self) -> bool {
        self.history_bounded() && self@.wf()
    }

    /// Starts the game that `config` describes, with `rng` as the source of
    /// the cells on which food appears.
    pub fn new(config: Config, rng: PsuedoRandom) -> (game: SnakeGame)
        requires
            config.wf(),
        ensures
            game.wf(),
            game@ == GameView::initial(config),
            game.source() == rng,
    {
        let Config { start_position, start_length, start_direction, input_allowed, grid } = config;
        let game = SnakeGame {
            handle: SnakeGameHandle { state: SnakeGameState::Running },
            grid,
            snake: Snake::new(start_position, start_length),
            foods: Vec::new(),
            snake_controller: PlayerSnakeController::new(start_direction),
            renderer: SnakeGameRenderer::new(),
            rng,
            input_allowed,
            last_interval: 0,
            interval_time: ACTION_INTERVAL_BASE,
        };
        assert(food_cells(game.foods@) =~= Seq::<IntVector2>::empty());
        game
    }

    /// Returns how the game stands.
    pub fn state(&self) -> (state: SnakeGameState)
        ensures
            state == self@.state,
    {
        self.handle.state()
    }

    /// Returns a copy of the slot that holds the state: a snapshot of how
    /// the game stands now.
    pub fn handle(&self) -> (handle: SnakeGameHandle)
        ensures
            handle@ == self@.state,
    {
        self.handle
    }

    /// Puts `state` in place of the current state and returns the latter.
    /// Nothing else changes; a finished game that is set to run again goes
    /// on from where it stopped.
    pub fn replace_state(&mut self, state: SnakeGameState) -> (previous: SnakeGameState)
        ensures
            previous == old(self)@.state,
            final(self)@ == (GameView { state, ..old(self)@ }),
            final(self).source() == old(self).source(),
            old(self).wf() ==> final(self).wf(),
    {
        self.handle.replace_state(state)
    }

    /// Returns the board.
    pub fn grid(&self) -> (grid: &Grid)
        ensures
            *grid == self@.grid,
    {
        &self.grid
    }

    /// Returns the snake.
    pub fn snake(&self) -> (snake: &Snake)
        ensures
            snake@ == self@.snake,
            self.wf() ==> snake.wf(),
    {
        &self.snake
    }

    /// Returns the food on the board.
    pub fn foods(&self) -> (foods: &Vec<Food>)
        ensures
            food_cells(foods@) == self@.foods,
    {
        &self.foods
    }

    /// Returns the controller.
    pub fn controller(&self) -> (controller: &PlayerSnakeController)
        ensures
            controller@ == self@.controller,
    {
        &self.snake_controller
    }

    /// Returns the time that has to pass between two moves.
    pub fn interval_time(&self) -> (interval: u64)
        ensures
            interval == self@.interval_time,
    {
        self.interval_time
    }

    /// Returns the clock value of the last move.
    pub fn last_interval(&self) -> (last: u64)
        ensures
            last == self@.last_interval,
    {
        self.last_interval
    }

    /// Returns the layer on which the game is drawn: behind everything else.
    pub fn render_order(&self) -> (order: i32)
        ensures
            order == -1,
    {
        -1
    }

    /// Returns the squares that show the game, in drawing order.
    pub fn render(&self) -> (rects: Vec<CellRect>)
        ensures
            is_drawing(rects@, self@.grid, self@.snake.occupied(), self@.foods),
    {
        self.renderer.render(&self.grid, &self.snake, &self.foods)
    }

    /// Draws a cell of the board from the game's source: the column with
    /// one draw, then the row with the next. The game itself is left as it
    /// is; the source has made two draws more.
    pub fn random_grid_position(&mut self) -> (position: IntVector2)
        requires
            old(self).wf(),
        ensures
            final(self).wf(),
            final(self)@ == old(self)@,
            position == drawn_cell(
                old(self).source().seed(),
                old(self).source().draws(),
                old(self)@.grid,
            ),
            final(self)@.grid.holds(position),
            final(self).source().seed() == old(self).source().seed(),
            final(self).source().draws() == old(self).source().draws().wrapping_add(
                1,
            ).wrapping_add(1),
    {
        let x = self.rng.random_in_range(0, self.grid.width as usize) as i32;
        let y = self.rng.random_in_range(0, self.grid.height as usize) as i32;
        IntVector2 { x, y }
    }

    /// Puts food on `position` if the board holds no food yet and the
    /// position is a free cell of the board. Returns whether it did.
    pub fn try_place_food(&mut self, position: IntVector2) -> (placed: bool)
        requires
            old(self).wf(),
        ensures
            final(self).wf(),
            placed == (old(self)@.foods.len() == 0 && old(self)@.free(position)),
            placed ==> final(self)@ == old(self)@.with_foods(seq![position]),
            !placed ==> final(self)@ == old(self)@,
            final(self).source() == old(self).source(),
    {
        if self.foods.len() > 0 || !self.grid.contains(position) {
            return false;
        }
        let occupied = self.snake.positions();
        if position_taken(&occupied, &self.foods, position) {
            return false;
        }
        self.foods.push(Food::new(position));
        assert(food_cells(self.foods@) =~= seq![position]);
        true
    }

    /// Sees to it that there is food on the board. A board with food is
    /// left alone, and nothing is drawn from the source. Otherwise up to
    /// [`FOOD_ATTEMPTS`] cells are drawn and the first of them that is free
    /// gets the food; if all of them are taken, the first free cell in row
    /// order gets it. The board stays empty only when the snake covers it.
    pub fn generate_foods(&mut self)
        requires
            old(self).wf(),
        ensures
            final(self).wf(),
            final(self)@ == old(self)@.with_foods(
                old(self)@.spawn(old(self).source().seed(), old(self).source().draws()).foods,
            ),
            final(self).source().seed() == old(self).source().seed(),
            final(self).source().draws() == old(self)@.spawn(
                old(self).source().seed(),
                old(self).source().draws(),
            ).draws,
            old(self)@.foods.len() > 0 ==> final(self).source() == old(self).source(),
            old(self)@.spawned(final(self)@.foods),
    {
        let ghost seed = self.source().seed();
        let ghost start = self.source().draws();
        proof {
            spawn_is_spawned(self@, seed, start);
        }
        if !self.foods.is_empty() {
            assert(self@.with_foods(self@.foods) == self@);
            return ;
        }
        let mut attempts: usize = 0;
        while attempts < FOOD_ATTEMPTS
            invariant
                attempts <= FOOD_ATTEMPTS,
                self.wf(),
                self@ == old(self)@,
                self@.foods.len() == 0,
                seed == old(self).source().seed(),
                start == old(self).source().draws(),
                self.source().seed() == seed,
                old(self)@.searched(seed, start, FOOD_ATTEMPTS as nat) == old(self)@.searched(
                    seed,
                    self.source().draws(),
                    (FOOD_ATTEMPTS - attempts) as nat,
                ),
            decreases FOOD_ATTEMPTS - attempts,
        {
            let pos = self.random_grid_position();
            if self.try_place_food(pos) {
                return ;
            }
            attempts += 1;
        }
        let occupied = self.snake.positions();
        match first_free_cell(&self.grid, &occupied, &self.foods) {
            Some(pos) => {
                proof {
                    first_free_cell_is_unique(self@, pos);
                }
                self.foods.push(Food::new(pos));
                assert(food_cells(self.foods@) =~= seq![pos]);
            },
            None => {
                proof {
                    covered_board_has_no_first_free_cell(self@);
                }
                assert(food_cells(self.foods@) =~= Seq::<IntVector2>::empty());
            },
        }
    }

    /// Makes the move that is due at clock value `now` and returns how the
    /// game stands after it. The state in the slot is not touched.
    fn advance(&mut self, now: u64) -> (state: SnakeGameState)
        requires
            old(self).wf(),
            old(self)@.fed_snake().length <= MAX_LENGTH,
        ensures
            final(self).wf(),
            final(self)@ == (GameView { state: old(self)@.state, ..old(self)@.advanced(now) }),
            state == old(self)@.advanced(now).state,
            final(self).source() == old(self).source(),
    {
        self.last_interval = now;

        if self.input_allowed {
            // One change of direction per interval.
            self.snake_controller.change_direction();
        }
        let action = self.snake_controller.action(&self.snake);
        // A snake that leaves the board comes back in on the other side.
        let position = self.grid.wrap(action.position);
        assert(position == old(self)@.candidate());

        let ghost foods_before = food_cells(self.foods@);
        let ghost interval_before = self.interval_time;
        let ghost snake_before = self.snake@;
        let eaten_count = remove_foods_at(&mut self.foods, position);
        proof {
            foods_before.lemma_filter_len(away_from(position));
            assert forall|i: int| 0 <= i < food_cells(self.foods@).len() implies self.grid.holds(
                #[trigger] food_cells(self.foods@)[i],
            ) by {
                foods_before.lemma_filter_contains_rev(
                    away_from(position),
                    food_cells(self.foods@)[i],
                );
            }
            interval_never_leaves_its_range(self.interval_time, 0);
        }
        let ghost fed = *self;
        let mut grown: usize = 0;
        while grown < eaten_count
            invariant
                grown <= eaten_count,
                self.snake.wf(),
                snake_before.length + eaten_count <= MAX_LENGTH,
                self.snake@ == (SnakeView {
                    length: (snake_before.length + grown) as nat,
                    ..snake_before
                }),
                self.interval_time == decayed_times(interval_before, grown as nat),
                self.handle == fed.handle,
                self.grid == fed.grid,
                self.foods == fed.foods,
                self.snake_controller == fed.snake_controller,
                self.input_allowed == fed.input_allowed,
                self.last_interval == fed.last_interval,
                self.rng == fed.rng,
            decreases eaten_count - grown,
        {
            // Each piece of food makes the game faster and the snake longer.
            self.interval_time = decayed_interval(self.interval_time);
            self.snake.grow();
            grown += 1;
        }
        proof {
            interval_never_leaves_its_range(interval_before, eaten_count as nat);
        }

        let occupied = self.snake.positions();
        let collided_with_self = contains_position(&occupied, position);
        if collided_with_self {
            SnakeGameState::Finished { size: self.snake.length(), time: now }
        } else {
            assert(position != self.snake@.head()) by {
                assert(self.snake@.occupied()[0] == self.snake@.head());
            }
            self.snake.move_to(position);
            SnakeGameState::Running
        }
    }

    /// Advances the game by one frame at clock value `now`, with `keys` as
    /// the keys that went down in this frame.
    ///
    /// A finished game is left as it is. A running game sees to it that
    /// there is food, hands the keys to its controller and, if more than
    /// one interval has passed since the last move, makes the next move.
    /// Time that was lost is not made up: one tick makes at most one move.
    /// A tick that comes before the next move is due changes nothing but the
    /// food, if there was none, and what the controller has noted.
    ///
    /// A move that is due must leave the snake within [`MAX_LENGTH`]:
    /// [`SnakeGame::can_tick`] tests just that. A snake below that length,
    /// a tick between moves and a finished game always qualify.
    pub fn tick(&mut self, now: u64, keys: &DirectionKeys)
        requires
            old(self).wf(),
            old(self)@.room_to_tick(now, *keys),
        ensures
            final(self).wf(),
            final(self).source().seed() == old(self).source().seed(),
            old(self)@.state is Finished ==> final(self)@ == old(self)@ && final(self).source()
                == old(self).source(),
            old(self)@.state == SnakeGameState::Running ==> {
                let spawn = old(self)@.spawn(old(self).source().seed(), old(self).source().draws());
                &&& final(self)@ == old(self)@.with_foods(spawn.foods).ticked(now, *keys)
                &&& final(self).source().draws() == spawn.draws
            },
            old(self)@.state == SnakeGameState::Running && old(self)@.foods.len() > 0 ==> {
                &&& final(self)@ == old(self)@.ticked(now, *keys)
                &&& final(self).source() == old(self).source()
            },
            old(self)@.state == SnakeGameState::Running && now - old(self)@.last_interval
                <= old(self)@.interval_time ==> {
                &&& old(self)@.spawned(final(self)@.foods)
                &&& final(self)@ == (GameView {
                    foods: final(self)@.foods,
                    controller: old(self)@.controller.stored(keys.wanted()),
                    ..old(self)@
                })
            },
    {
        match self.handle.replace_state(SnakeGameState::Running) {
            SnakeGameState::Running => {
                self.generate_foods();
                let ghost foods = self@.foods;
                self.snake_controller.store_direction_change(keys);
                let state = if now > self.last_interval && now - self.last_interval
                    > self.interval_time {
                    assert(old(self)@.spawned(foods));
                    assert(self@ == old(self)@.with_foods(foods).fed(*keys));
                    self.advance(now)
                } else {
                    SnakeGameState::Running
                };
                self.handle.replace_state(state);
                assert(self@ == old(self)@.with_foods(foods).ticked(now, *keys));
                assert(old(self)@.foods.len() > 0 ==> old(self)@.with_foods(foods) == old(self)@);
            },
            finished => {
                self.handle.replace_state(finished);
            },
        }
    }

    /// Tests whether [`SnakeGame::tick`] may be called at clock value `now`
    /// with `keys`. It may unless the game runs, a move is due, the snake
    /// has [`MAX_LENGTH`] segments and the move could eat: food lies on the
    /// cell the head moves to or, on a board without food, that cell is
    /// free, so that new food could appear there.
    pub fn can_tick(&self, now: u64, keys: &DirectionKeys) -> (ok: bool)
        requires
            self.wf(),
        ensures
            ok == self@.room_to_tick(now, *keys),
    {
        let running = match self.handle.state() {
            SnakeGameState::Running => true,
            SnakeGameState::Finished { .. } => false,
        };
        if !running || !(now > self.last_interval && now - self.last_interval
            > self.interval_time) {
            return true;
        }
        if self.snake.length() < MAX_LENGTH {
            proof {
                shorter_snake_has_room(self@, now, *keys);
            }
            return true;
        }
        let direction = if self.input_allowed {
            self.snake_controller.direction_after(keys)
        } else {
            self.snake_controller.direction()
        };
        let position = self.grid.wrap(self.snake.current_position() + direction.to_position());
        let occupied = self.snake.positions();
        let could_eat = if self.foods.len() > 0 {
            *self.foods[0].pos() == position
        } else {
            !contains_position(&occupied, position)
        };
        proof {
            let game = self@;
            assert(forall|foods: Seq<IntVector2>|
                game.with_foods(foods).fed(*keys).candidate() == position);
            if could_eat {
                let foods = if game.foods.len() > 0 {
                    game.foods
                } else {
                    seq![position]
                };
                assert(game.free(position) || game.foods.len() > 0);
                assert(game.spawned(foods));
                eaten_of_at_most_one(foods, position);
                assert(game.with_foods(foods).fed(*keys).fed_snake().length > MAX_LENGTH);
            } else {
                assert forall|foods: Seq<IntVector2>| #[trigger]
                    game.spawned(foods) implies game.with_foods(foods).fed(
                    *keys,
                ).fed_snake().length <= MAX_LENGTH by {
                    eaten_of_at_most_one(foods, position);
                }
            }
        }
        !could_eat
    }
}

/// An interval between the floor and the base stays there however much is
/// eaten.
proof fn interval_never_leaves_its_range(interval: u64, eaten: nat)
    requires
        ACTION_INTERVAL_MIN <= interval <= ACTION_INTERVAL_BASE,
    ensures
        ACTION_INTERVAL_MIN <= decayed_times(interval, eaten) <= ACTION_INTERVAL_BASE,
    decreases eaten,
{
    if eaten > 0 {
        interval_never_rises_nor_passes_the_floor(interval, (eaten - 1) as nat);
    }
}

} // verus!
