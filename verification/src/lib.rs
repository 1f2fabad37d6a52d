//! A two-paddle ball game on a fixed-point arena: paddle control, ball
//! motion with spin, wall and paddle collisions, scoring, and the states
//! that decide when the simulation runs.

pub mod fixed;
pub mod vector;
pub mod pong;
pub mod chance;
pub mod event;
pub mod audio;
pub mod systems;
pub mod states;
pub mod laws;
pub mod speed;
