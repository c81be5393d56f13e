//! What the application around a game decides: the standard settings, when
//! to change screens, and the score.

use crate::config::Config;
use crate::direction::Direction;
use crate::game::model::SnakeGameState;
use crate::grid::Grid;
use crate::vector::IntVector2;
use vstd::prelude::*;

verus! {

/// How long a finished game stays on screen before the game-over screen
/// takes its place: one second.
pub const GAME_OVER_DELAY: u64 = 1_000_000;

/// The number of segments a standard game starts with. They do not count
/// towards the score.
pub const START_LENGTH: usize = 3;

/// The screen the application shows.
#[derive(Debug, Clone, Copy, PartialEq, Eq, Structural)]
pub enum ApplicationScreen {
    /// The title, with a demo game behind it and a button to play.
    TitleScreen,
    /// A game that the player steers.
    Running,
    /// The score, with a button to play again.
    GameOver,
}

/// A change of screens.
#[derive(Debug, Clone, Copy, PartialEq, Eq, Structural)]
pub enum ScreenChange {
    /// Start a new game and show it.
    NewGame,
    /// Show the game-over screen for a snake of `size` segments.
    GameOver { size: usize },
}

/// The change of screens that is due, if any: a click on the button of the
/// title or game-over screen starts a game, and a game that has been
/// finished for more than [`GAME_OVER_DELAY`] gives way to the game-over
/// screen.
pub open spec fn next_state(
    screen: ApplicationScreen,
    button_clicked: bool,
    game_state: SnakeGameState,
    now: u64,
) -> Option<ScreenChange> {
    match screen {
        ApplicationScreen::TitleScreen | ApplicationScreen::GameOver => if button_clicked {
            Some(ScreenChange::NewGame)
        } else {
            None
        },
        ApplicationScreen::Running => match game_state {
            SnakeGameState::Finished { size, time } => if now - time > GAME_OVER_DELAY {
                Some(ScreenChange::GameOver { size })
            } else {
                None
            },
            SnakeGameState::Running => None,
        },
    }
}

/// Decides whether the screen changes. `button_clicked` says whether the
/// button of the current screen was clicked, `game_state` how the game on
/// screen stands, and `now` is the clock value.
pub fn calculate_next_state(
    screen: ApplicationScreen,
    button_clicked: bool,
    game_state: SnakeGameState,
    now: u64,
) -> (change: Option<ScreenChange>)
    ensures
        change == next_state(screen, button_clicked, game_state, now),
{
    match screen {
        ApplicationScreen::TitleScreen => {
            if button_clicked {
                return Some(ScreenChange::NewGame);
            }
        },
        ApplicationScreen::Running => {
            if let SnakeGameState::Finished { size, time } = game_state {
                // A finished game stays visible for a moment.
                if now > time && now - time > GAME_OVER_DELAY {
                    return Some(ScreenChange::GameOver { size });
                }
            }
        },
        ApplicationScreen::GameOver => {
            if button_clicked {
                return Some(ScreenChange::NewGame);
            }
        },
    }
    None
}

/// Returns the board of a standard game: fifteen by fifteen cells.
pub fn grid() -> (grid: Grid)
    ensures
        grid.width == 15,
        grid.height == 15,
        grid.wf(),
{
    Grid::new(15, 15)
}

/// Returns the settings of a standard game.
pub fn config() -> (config: Config)
    ensures
        config.wf(),
        config.start_position == (IntVector2 { x: 0, y: 13 }),
        config.start_length == START_LENGTH,
        config.start_direction == Direction::Right,
        config.input_allowed,
        config.grid.width == 15,
        config.grid.height == 15,
{
    Config {
        start_position: IntVector2 { x: 0, y: 13 },
        start_length: START_LENGTH,
        start_direction: Direction::Right,
        input_allowed: true,
        grid: grid(),
    }
}

/// Returns the points for a game that ended with a snake of `size`
/// segments: one for each segment it gained.
pub fn score(size: usize) -> (points: usize)
    requires
        size >= START_LENGTH,
    ensures
        points == size - START_LENGTH,
{
    size - START_LENGTH
}

} // verus!
