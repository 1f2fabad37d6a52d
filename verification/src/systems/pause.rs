//! The pause key.

use vstd::prelude::*;
use crate::event::InputState;
use crate::pong::PausedOrRunning;

verus! {

/// The other of the two values.
pub open spec fn toggled(state: PausedOrRunning) -> PausedOrRunning {
    match state {
        PausedOrRunning::Paused => PausedOrRunning::Running,
        PausedOrRunning::Running => PausedOrRunning::Paused,
    }
}

/// The system that freezes and thaws the simulation at each press of the
/// pause key. It remembers whether the key has been let go since the last
/// press, so that a key held down counts once.
#[derive(Clone, Copy, PartialEq, Eq, Debug, Default)]
pub struct PauseSystem {
    pub key_up: bool,
}

impl PauseSystem {
    /// One tick with the pause key as `input` reads it, which is down or up:
    /// a pause key that is bound to nothing is not for this system. A key
    /// that is down, after it has been up, toggles `state`; a key that is up
    /// is remembered as such.
    pub fn run(&mut self, input: &InputState, state: &mut PausedOrRunning)
        requires
            input.pause is Some,
        ensures
            final(self).key_up == !input.pause->0,
            *final(state) == if input.pause->0 && old(self).key_up {
                toggled(*old(state))
            } else {
                *old(state)
            },
    {
        match input.pause {
            Some(true) => {
                if self.key_up {
                    if *state == PausedOrRunning::Paused {
                        *state = PausedOrRunning::Running;
                    } else {
                        *state = PausedOrRunning::Paused;
                    }
                    self.key_up = false;
                }
            },
            Some(false) => {
                if !self.key_up {
                    self.key_up = true;
                }
            },
            None => {},
        }
    }
}

} // verus!
