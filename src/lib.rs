pub mod ball;
pub mod brick;
pub mod config;
pub mod laws;
pub mod paddle;
pub mod universe;

pub use brick::{check_brick_collision, Brick, BrickCollision};
pub use universe::{GameStatus, Universe};
