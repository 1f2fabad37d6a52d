//! The systems that move the game forward by one tick.

pub mod ai;
pub mod bounce;
pub mod move_balls;
pub mod paddle;
pub mod pause;
pub mod winner;

pub use ai::AiSystem;
pub use bounce::BounceSystem;
pub use move_balls::MoveBallsSystem;
pub use paddle::PaddleSystem;
pub use pause::PauseSystem;
pub use winner::WinnerSystem;
