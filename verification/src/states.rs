//! The states of the application: the main menu, the game and the pause.

pub mod game;
pub mod main_menu;
pub mod pause;
pub mod machine;

pub use game::GameState;
pub use machine::{Application, State, Trans};
pub use main_menu::MainMenuState;
pub use pause::PauseState;
