//! The pause.

use vstd::prelude::*;
use crate::event::{is_named, StateEvent, ACTION_PAUSE};
use crate::pong::{PausedOrRunning, World, WorldState};
use crate::states::machine::Trans;

verus! {

/// The name of the button that leads back to the main menu.
pub const MENU_BTN_MAIN_MENU_ID: &'static str = "btn_main_menu";

/// The name of the button that ends the pause.
pub const MENU_BTN_RESUME_ID: &'static str = "btn_resume";

/// The name of the button that ends the application.
pub const MENU_BTN_QUIT_ID: &'static str = "btn_quit";

/// What the pause asks for when it has seen `event`: the pause action ends
/// the pause, and so does a click on the resume button; a click on the quit
/// button ends the application, one on the main menu button leads there;
/// nothing else matters.
pub open spec fn pause_choice(event: StateEvent) -> Trans {
    match event {
        StateEvent::ActionPressed(action) => if action@ == ACTION_PAUSE@ {
            Trans::Pop
        } else {
            Trans::Stay
        },
        StateEvent::Click(target) => if target@ == MENU_BTN_QUIT_ID@ {
            Trans::Quit
        } else if target@ == MENU_BTN_RESUME_ID@ {
            Trans::Pop
        } else if target@ == MENU_BTN_MAIN_MENU_ID@ {
            Trans::MainMenu
        } else {
            Trans::Stay
        },
        _ => Trans::Stay,
    }
}

/// `world`, frozen: all that is on it stays.
pub open spec fn frozen(world: WorldState) -> WorldState {
    WorldState { running: PausedOrRunning::Paused, ..world }
}

/// `world`, thawed: all that is on it stays.
pub open spec fn thawed(world: WorldState) -> WorldState {
    WorldState { running: PausedOrRunning::Running, ..world }
}

/// The pause.
#[derive(Clone, Copy, PartialEq, Eq, Debug, Default)]
pub struct PauseState;

impl PauseState {
    /// Freezes the world as the pause begins. Nothing leaves the arena.
    pub fn on_start(&mut self, world: &mut World)
        requires
            old(world).wf(),
        ensures
            final(world)@ == frozen(old(world)@),
            final(world).wf(),
    {
        world.running = PausedOrRunning::Paused;
        proof {
            assert(final(world)@.paddles =~= old(world)@.paddles);
        }
    }

    /// Thaws the world as the pause ends.
    pub fn on_stop(&mut self, world: &mut World)
        requires
            old(world).wf(),
        ensures
            final(world)@ == thawed(old(world)@),
            final(world).wf(),
    {
        world.running = PausedOrRunning::Running;
        proof {
            assert(final(world)@.paddles =~= old(world)@.paddles);
        }
    }

    /// What the pause asks for when it has seen `event`.
    pub fn handle_event(&self, event: &StateEvent) -> (trans: Trans)
        ensures
            trans == pause_choice(*event),
    {
        match event {
            StateEvent::ActionPressed(action) => {
                if is_named(action, ACTION_PAUSE) {
                    Trans::Pop
                } else {
                    Trans::Stay
                }
            },
            StateEvent::Click(target) => {
                if is_named(target, MENU_BTN_QUIT_ID) {
                    Trans::Quit
                } else if is_named(target, MENU_BTN_RESUME_ID) {
                    Trans::Pop
                } else if is_named(target, MENU_BTN_MAIN_MENU_ID) {
                    Trans::MainMenu
                } else {
                    Trans::Stay
                }
            },
            _ => Trans::Stay,
        }
    }
}

} // verus!
