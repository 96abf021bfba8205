//! Game-state simulation of a grid snake game: the snake's body, its
//! movement and growth rules, collision and bounds queries, the collectible
//! apple, and the fixed-tick pacing of simulation steps.

mod arith;
pub mod apple;
pub mod direction;
pub mod game;
pub mod grid;
pub mod snake;
pub mod text;
pub mod tick;

pub use apple::{Apple, AppleView, SnakeBlockCount, SnakeCollectibleGrower};
pub use direction::SnakeBlockDirection;
pub use game::{handle_game_tick, TickOutcome};
pub use grid::{cell_position, random_pos_in_grid};
pub use snake::{Snake, SnakeBlock, SnakeView};
pub use text::decimal_string;
pub use tick::{TickEvent, TickScheduler, TickView};
