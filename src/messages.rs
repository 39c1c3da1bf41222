//! Message types exchanged between actors.

use vstd::prelude::*;

verus! {

/// Messages from the button actor to the control actor.
#[derive(Debug, Clone, Copy, PartialEq, Eq, Structural)]
pub enum ButtonMessage {
    /// Button was pressed
    Pressed,
    /// Button was released
    Released,
}

/// Messages from the maintenance actor to the control actor.
#[derive(Debug, Clone, Copy, PartialEq, Eq, Structural)]
pub struct MaintenanceMessage {
    /// System health status
    pub system_ok: bool,
    /// Current LED state
    pub led_state: bool,
    /// Current tick count
    pub tick_count: i32,
}

} // verus!
