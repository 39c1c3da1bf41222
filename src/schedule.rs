//! The deadline rule of the hard-period control loop.
//!
//! Each iteration measures how long its work took. Under the period it
//! sleeps for the rest of it; otherwise the miss is reported with its
//! overrun and the next iteration starts at once.

use vstd::prelude::*;

use crate::config::CONTROL_PERIOD_MS;

verus! {

/// What the control loop does after the work of one iteration.
#[derive(Debug, Clone, Copy, PartialEq, Eq, Structural)]
pub enum DeadlineOutcome {
    /// The work fit in the period: sleep this many microseconds.
    Sleep(u64),
    /// The deadline was missed by this many microseconds: report it, no sleep.
    Missed(u64),
}

/// The outcome for work that took `elapsed_us` against a period of `period_us`.
pub open spec fn deadline_outcome(elapsed_us: u64, period_us: u64) -> DeadlineOutcome {
    if elapsed_us < period_us {
        DeadlineOutcome::Sleep((period_us - elapsed_us) as u64)
    } else {
        DeadlineOutcome::Missed((elapsed_us - period_us) as u64)
    }
}

/// Decides what follows an iteration whose work took `elapsed_us`.
pub fn check_deadline(elapsed_us: u64, period_us: u64) -> (r: DeadlineOutcome)
    ensures
        r == deadline_outcome(elapsed_us, period_us),
        elapsed_us < period_us ==> r == DeadlineOutcome::Sleep((period_us - elapsed_us) as u64),
        elapsed_us >= period_us ==> r == DeadlineOutcome::Missed((elapsed_us - period_us) as u64),
{
    if elapsed_us < period_us {
        DeadlineOutcome::Sleep(period_us - elapsed_us)
    } else {
        DeadlineOutcome::Missed(elapsed_us - period_us)
    }
}

/// The control period in microseconds.
pub fn control_period_us() -> (r: u64)
    ensures
        r == CONTROL_PERIOD_MS as u64 * 1000,
{
    CONTROL_PERIOD_MS as u64 * 1000
}

} // verus!
