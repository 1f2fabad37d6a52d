//! What the world outside tells the game.

use vstd::prelude::*;
use crate::fixed::Fixed;
use crate::pong::Side;

verus! {

/// What the players' controls read at one tick: how far each paddle's axis
/// is pushed, from minus one to one, and whether the pause action is held
/// down. A control that is bound to nothing reads as `None`.
#[derive(Clone, Copy, PartialEq, Eq, Debug)]
pub struct InputState {
    pub left_paddle: Option<Fixed>,
    pub right_paddle: Option<Fixed>,
    pub pause: Option<bool>,
}

/// The value of `axis`, in millionths.
pub open spec fn axis_value(axis: Option<Fixed>) -> Option<int> {
    match axis {
        Some(a) => Some(a@),
        None => None,
    }
}

impl InputState {
    /// The reading of the axis that steers the paddle on `side`.
    pub open spec fn axis_of(&self, side: Side) -> Option<int> {
        match side {
            Side::Left => axis_value(self.left_paddle),
            Side::Right => axis_value(self.right_paddle),
        }
    }

    /// The reading of the axis that steers the paddle on `side`.
    pub fn axis(&self, side: Side) -> (r: Option<Fixed>)
        ensures
            axis_value(r) == self.axis_of(side),
    {
        match side {
            Side::Left => self.left_paddle,
            Side::Right => self.right_paddle,
        }
    }
}

/// What happened outside the game.
#[derive(Clone, PartialEq, Eq, Debug)]
pub enum StateEvent {
    /// The action of this name was pressed.
    ActionPressed(String),
    /// The window gained the focus, or lost it.
    Focused(bool),
    /// The button of this name was clicked.
    Click(String),
    /// Anything else.
    Other,
}

/// The name of the action that pauses the game.
pub const ACTION_PAUSE: &'static str = "pause";

/// Whether `event` asks for a pause: the pause action was pressed, or the
/// window lost the focus.
pub open spec fn asks_for_pause(event: StateEvent) -> bool {
    match event {
        StateEvent::ActionPressed(action) => action@ == ACTION_PAUSE@,
        StateEvent::Focused(focused) => !focused,
        _ => false,
    }
}

/// Whether `event` asks for a pause: the pause action was pressed, or the
/// window lost the focus.
pub fn pause_requested(event: &StateEvent) -> (r: bool)
    ensures
        r == asks_for_pause(*event),
{
    match event {
        StateEvent::ActionPressed(action) => is_named(action, ACTION_PAUSE),
        StateEvent::Focused(focused) => !*focused,
        _ => false,
    }
}

/// Whether `text` is `name`.
pub fn is_named(text: &String, name: &str) -> (r: bool)
    ensures
        r == (text@ == name@),
{
    let owned = name.to_owned();
    *text == owned
}

} // verus!
