//! The simulation core of a Snake game on a fixed grid of tiles.
//!
//! The game advances in ticks. Between two ticks the direction keys that the
//! player pressed are queued; a tick resolves the queue into at most one
//! turn, lets the snake eat the apple ahead of it, ends the game where the
//! snake would hit a wall or its tail, and else moves the snake.
//!
//! Every function states what it does over the mathematical views of the
//! values: [`snake::SnakeView`] for the snake and
//! [`screen::game::GameView`] for the game. What holds of every tick is
//! proved in [`screen::game::laws`].
//!
//! The library draws nothing and reads no input. It is handed events and
//! ticks, and its state is there to be drawn.

pub mod color;
pub mod config;
pub mod direction;
pub mod drawable_collection;
pub mod drawable_group;
pub mod input;
pub mod placement;
pub mod position;
pub mod queue;
mod random;
pub mod screen;
pub mod snake;
pub mod state;
pub mod tile;

pub use crate::color::Rgb;
pub use crate::direction::Direction;
pub use crate::drawable_collection::DrawableCollection;
pub use crate::drawable_group::DrawableGroup;
pub use crate::input::{Event, Key, MouseButton};
pub use crate::position::Position;
pub use crate::screen::{
    CurrentScreen, EventHandler, GameScreen, Screen, ScreenName, StartScreen, Updatable,
};
pub use crate::snake::Snake;
pub use crate::state::{ScreenRefMut, Screens, State};
pub use crate::tile::Tile;
