//! Rule engine of a grid snake game: the board, the snake's body, its
//! direction, the food, and the step that advances the game by one tick.
mod game;
pub mod laws;
pub mod model;

pub use game::{Direction, Position, RandomSource, SnakeGame};
pub use model::GameView;
