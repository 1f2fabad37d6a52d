//! The main menu.

use vstd::prelude::*;
use crate::event::{is_named, StateEvent};
use crate::states::game::GameState;
use crate::states::machine::Trans;

verus! {

/// The name of the button that starts a game of one player.
pub const MENU_BTN_SINGLE_PLAYER_ID: &'static str = "btn_single_player";

/// The name of the button that starts a game of two players.
pub const MENU_BTN_TWO_PLAYER_ID: &'static str = "btn_two_player";

/// The name of the button that ends the application.
pub const MENU_BTN_QUIT_ID: &'static str = "btn_quit";

/// What the main menu asks for when it has seen `event`: a click on the
/// quit button ends the application, a click on either player button starts
/// that game, and nothing else matters.
pub open spec fn menu_choice(event: StateEvent) -> Trans {
    match event {
        StateEvent::Click(target) => if target@ == MENU_BTN_QUIT_ID@ {
            Trans::Quit
        } else if target@ == MENU_BTN_SINGLE_PLAYER_ID@ {
            Trans::Switch(GameState { two_players: false })
        } else if target@ == MENU_BTN_TWO_PLAYER_ID@ {
            Trans::Switch(GameState { two_players: true })
        } else {
            Trans::Stay
        },
        _ => Trans::Stay,
    }
}

/// The main menu.
#[derive(Clone, Copy, PartialEq, Eq, Debug, Default)]
pub struct MainMenuState;

impl MainMenuState {
    /// What the main menu asks for when it has seen `event`.
    pub fn handle_event(&self, event: &StateEvent) -> (trans: Trans)
        ensures
            trans == menu_choice(*event),
    {
        match event {
            StateEvent::Click(target) => {
                if is_named(target, MENU_BTN_QUIT_ID) {
                    Trans::Quit
                } else if is_named(target, MENU_BTN_SINGLE_PLAYER_ID) {
                    Trans::Switch(GameState::with_single_player())
                } else if is_named(target, MENU_BTN_TWO_PLAYER_ID) {
                    Trans::Switch(GameState::with_two_players())
                } else {
                    Trans::Stay
                }
            },
            _ => Trans::Stay,
        }
    }
}

} // verus!
