//! Tuning constants of the node.

use vstd::prelude::*;

verus! {

/// Period of the hard-deadline control loop, in milliseconds (1 kHz).
pub const CONTROL_PERIOD_MS: u8 = 1;

/// Period of the maintenance task, in milliseconds (10 Hz).
pub const MAINTENANCE_PERIOD_MS: u8 = 100;

/// Sampling period of the button, in milliseconds; noise shorter than this
/// is never seen.
pub const BUTTON_DEBOUNCE_MS: u8 = 20;

/// Capacity of the button-to-control channel.
pub const BUTTON_CHANNEL_CAPACITY: usize = 4;

/// Capacity of the maintenance-to-control channel.
pub const MAINTENANCE_CHANNEL_CAPACITY: usize = 2;

} // verus!
