//! Simulation core of a grid-based snake game.
//!
//! The crate tracks a snake's body over time on a toroidal grid, validates
//! direction input, places food and advances the game one step per elapsed
//! interval. The logic is verified with Verus against the contracts it
//! carries. The few calls into other crates stand behind small wrappers
//! whose contracts are stated and believed, not proved; each says so.
//!
//! Nothing here draws, reads keys or asks for the time: a host hands in key
//! presses and clock values, in whole microseconds, and gets back a state
//! to show.

pub mod application;
pub mod config;
pub mod direction;
pub mod food;
pub mod game;
pub mod grid;
pub mod random;
pub mod renderer;
pub mod snake;
pub mod vector;

pub use config::Config;
pub use direction::Direction;
pub use food::Food;
pub use game::{SnakeGame, SnakeGameHandle, SnakeGameState};
pub use grid::Grid;
pub use random::PsuedoRandom;
pub use renderer::{calculate_grid_canvas_size, SnakeGameRenderer};
pub use snake::{DirectionKeys, PlayerSnakeController, Snake, SnakeActionMoveTo};
pub use vector::IntVector2;
