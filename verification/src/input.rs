//! Window events as the game sees them, and what each does to the player's
//! controls.

use vstd::prelude::*;
use crate::player::Player;
use crate::player::PlayerState;

verus! {

/// A key of the keyboard. The six keys that the game reacts to have a name
/// each; every other key is `Other`.
#[derive(Clone, Copy, Debug, PartialEq, Eq, Structural)]
pub enum Key {
    /// Move left.
    A,
    /// Move right.
    D,
    /// Move up.
    W,
    /// Move down.
    S,
    /// Jump.
    Space,
    /// Quit.
    Escape,
    /// Any key that the game does not react to.
    Other,
}

/// An event of the window.
#[derive(Clone, Copy, Debug, PartialEq, Eq, Structural)]
pub enum Event {
    /// The window was asked to close.
    Closed,
    /// A key went down.
    KeyPressed { code: Key },
    /// A key came up.
    KeyReleased { code: Key },
    /// Anything else: ignored.
    Other,
}

/// Whether the loop goes on after an event or ends with it.
#[derive(Clone, Copy, Debug, PartialEq, Eq, Structural)]
pub enum LoopState {
    Running,
    Closing,
}

impl PlayerState {
    /// This player with the control that `key` is mapped to set to `held`.
    /// Keys without a control leave the player as it is.
    pub open spec fn with_key(self, key: Key, held: bool) -> PlayerState {
        match key {
            Key::A => PlayerState { left: held, ..self },
            Key::D => PlayerState { right: held, ..self },
            Key::W => PlayerState { up: held, ..self },
            Key::S => PlayerState { down: held, ..self },
            Key::Space => PlayerState { jump: held, ..self },
            Key::Escape => self,
            Key::Other => self,
        }
    }

    /// This player after a window event: a key that goes down latches its
    /// control, a key that comes up releases it.
    pub open spec fn after_event(self, event: Event) -> PlayerState {
        match event {
            Event::KeyPressed { code } => self.with_key(code, true),
            Event::KeyReleased { code } => self.with_key(code, false),
            Event::Closed => self,
            Event::Other => self,
        }
    }
}

impl Event {
    /// The events that end the loop: a request to close the window, and
    /// Escape going down.
    pub open spec fn closes(self) -> bool {
        self == Event::Closed || self == (Event::KeyPressed { code: Key::Escape })
    }
}

impl Player {
    /// Sets the control that `key` is mapped to.
    fn set_control(&mut self, key: Key, held: bool)
        ensures
            final(self)@ == old(self)@.with_key(key, held),
    {
        match key {
            Key::A => {
                self.control_left = held;
            },
            Key::D => {
                self.control_right = held;
            },
            Key::W => {
                self.control_up = held;
            },
            Key::S => {
                self.control_down = held;
            },
            Key::Space => {
                self.control_jump = held;
            },
            Key::Escape => {},
            Key::Other => {},
        }
    }
}

/// Takes one window event: updates the player's controls and tells whether
/// the loop goes on.
///
/// The loop ends on a request to close the window and on Escape going down;
/// either leaves the player untouched.
pub fn handle_event(player: &mut Player, event: Event) -> (state: LoopState)
    ensures
        final(player)@ == old(player)@.after_event(event),
        state == (if event.closes() {
            LoopState::Closing
        } else {
            LoopState::Running
        }),
{
    match event {
        Event::Closed => LoopState::Closing,
        Event::KeyPressed { code } => {
            match code {
                Key::Escape => LoopState::Closing,
                _ => {
                    player.set_control(code, true);
                    LoopState::Running
                },
            }
        },
        Event::KeyReleased { code } => {
            player.set_control(code, false);
            LoopState::Running
        },
        Event::Other => LoopState::Running,
    }
}

} // verus!
