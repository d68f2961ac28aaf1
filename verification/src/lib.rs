//! The rules of a grid snake game: a snake that moves one cell per tick,
//! grows after eating, and dies on walls and on itself.
//!
//! The crate holds the state and its transitions only. Drawing, the window
//! and the event loop belong to the host, which feeds key presses and ticks
//! in and reads cells, squares and the score back.

pub mod direction;
pub mod food;
pub mod game;
pub mod grid;
pub mod random;
pub mod render;
pub mod snake;

pub use crate::direction::Direction;
pub use crate::direction::Key;
pub use crate::snake::Snake;
pub use crate::snake::SnakePiece;
pub use crate::snake::SnakeView;
pub use crate::food::Food;
pub use crate::render::Square;
pub use crate::game::Frame;
pub use crate::game::Game;
pub use crate::game::GameView;
