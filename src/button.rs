//! Debounced button state machine.

use vstd::prelude::*;

use crate::messages::ButtonMessage;

verus! {

/// Position of the button state machine.
#[derive(Debug, Clone, Copy, PartialEq, Eq, Structural)]
pub enum ButtonActorState {
    /// Waiting for a press.
    Idle,
    /// A press was seen; held while the button stays down.
    Notifying,
    /// The button went up after a press.
    Released,
}

/// Button actor: `pressed` is latched by the caller before each `step`.
pub struct ButtonActor {
    pub state: ButtonActorState,
    pub pressed: bool,
    pub press_count: u32,
}

/// The state that follows `s` when the latched input is `pressed`.
pub open spec fn button_next(s: ButtonActorState, pressed: bool) -> ButtonActorState {
    match s {
        ButtonActorState::Idle => if pressed {
            ButtonActorState::Notifying
        } else {
            ButtonActorState::Idle
        },
        ButtonActorState::Notifying => if pressed {
            ButtonActorState::Notifying
        } else {
            ButtonActorState::Released
        },
        ButtonActorState::Released => if pressed {
            ButtonActorState::Notifying
        } else {
            ButtonActorState::Idle
        },
    }
}

/// One more on an unsigned 32-bit counter, wrapping to zero at the top.
pub open spec fn counter_next(c: u32) -> u32 {
    if c == u32::MAX {
        0
    } else {
        (c + 1) as u32
    }
}

/// A press edge: the machine enters `Notifying` from another state.
pub open spec fn is_press_edge(before: ButtonActorState, after: ButtonActorState) -> bool {
    before != ButtonActorState::Notifying && after == ButtonActorState::Notifying
}

/// The message owed for a transition: one only on the tick where the state
/// changes, into `Notifying` or into `Released`.
pub open spec fn button_edge_message(
    before: ButtonActorState,
    after: ButtonActorState,
) -> Option<ButtonMessage> {
    if before == after {
        None
    } else {
        match after {
            ButtonActorState::Notifying => Some(ButtonMessage::Pressed),
            ButtonActorState::Released => Some(ButtonMessage::Released),
            ButtonActorState::Idle => None,
        }
    }
}

impl ButtonActor {
    /// The actor after one `step` with its latched input.
    pub open spec fn stepped(self) -> ButtonActor {
        let next = button_next(self.state, self.pressed);
        ButtonActor {
            state: next,
            pressed: self.pressed,
            press_count: if is_press_edge(self.state, next) {
                counter_next(self.press_count)
            } else {
                self.press_count
            },
        }
    }

    /// The documented initial actor.
    pub open spec fn initial() -> ButtonActor {
        ButtonActor { state: ButtonActorState::Idle, pressed: false, press_count: 0 }
    }

    pub fn new() -> (r: ButtonActor)
        ensures
            r == ButtonActor::initial(),
            r.state == ButtonActorState::Idle,
            !r.pressed,
            r.press_count == 0,
    {
        ButtonActor { state: ButtonActorState::Idle, pressed: false, press_count: 0 }
    }

    /// Advances by one transition check on the latched `pressed` input.
    pub fn step(&mut self)
        ensures
            *final(self) == old(self).stepped(),
    {
        let next = button_transition(self.state, self.pressed);
        if self.state != ButtonActorState::Notifying && next == ButtonActorState::Notifying {
            self.press_count = if self.press_count == u32::MAX {
                0
            } else {
                self.press_count + 1
            };
        }
        self.state = next;
    }
}

/// The state that follows `s` on input `pressed`.
pub fn button_transition(s: ButtonActorState, pressed: bool) -> (r: ButtonActorState)
    ensures
        r == button_next(s, pressed),
{
    match s {
        ButtonActorState::Idle => if pressed {
            ButtonActorState::Notifying
        } else {
            ButtonActorState::Idle
        },
        ButtonActorState::Notifying => if pressed {
            ButtonActorState::Notifying
        } else {
            ButtonActorState::Released
        },
        ButtonActorState::Released => if pressed {
            ButtonActorState::Notifying
        } else {
            ButtonActorState::Idle
        },
    }
}

/// The message owed for the transition from `before` to `after`.
pub fn button_edge(before: ButtonActorState, after: ButtonActorState) -> (r: Option<ButtonMessage>)
    ensures
        r == button_edge_message(before, after),
{
    if before == after {
        None
    } else {
        match after {
            ButtonActorState::Notifying => Some(ButtonMessage::Pressed),
            ButtonActorState::Released => Some(ButtonMessage::Released),
            ButtonActorState::Idle => None,
        }
    }
}

} // verus!
