//! Realtime control state machine.

use vstd::prelude::*;

use crate::button::counter_next;

verus! {

/// Internal position of the control machine.
#[derive(Debug, Clone, Copy, PartialEq, Eq, Structural)]
pub enum ControlActorState {
    /// Constructed, not yet stepped.
    Starting,
    /// Stepped at least once.
    Running,
}

/// Control actor: counts its cycles; `enabled` and `error_flag` are kept as
/// they were set at construction.
pub struct RealtimeControlActor {
    pub state: ControlActorState,
    pub cycle_count: u32,
    pub enabled: bool,
    pub error_flag: bool,
}

impl RealtimeControlActor {
    /// The actor after one `step`.
    pub open spec fn stepped(self) -> RealtimeControlActor {
        RealtimeControlActor {
            state: ControlActorState::Running,
            cycle_count: counter_next(self.cycle_count),
            enabled: self.enabled,
            error_flag: self.error_flag,
        }
    }

    /// The documented initial actor.
    pub open spec fn initial() -> RealtimeControlActor {
        RealtimeControlActor {
            state: ControlActorState::Starting,
            cycle_count: 0,
            enabled: true,
            error_flag: false,
        }
    }

    pub fn new() -> (r: RealtimeControlActor)
        ensures
            r == RealtimeControlActor::initial(),
            r.state == ControlActorState::Starting,
            r.cycle_count == 0,
            r.enabled,
            !r.error_flag,
    {
        RealtimeControlActor {
            state: ControlActorState::Starting,
            cycle_count: 0,
            enabled: true,
            error_flag: false,
        }
    }

    /// One control cycle: bounded work, exactly one more on `cycle_count`.
    pub fn step(&mut self)
        ensures
            *final(self) == old(self).stepped(),
    {
        self.cycle_count = if self.cycle_count == u32::MAX {
            0
        } else {
            self.cycle_count + 1
        };
        self.state = ControlActorState::Running;
    }
}

} // verus!
