//! Periodic self-check state machine.

use vstd::prelude::*;

verus! {

/// Position in the fixed four-state maintenance cycle.
#[derive(Debug, Clone, Copy, PartialEq, Eq, Structural)]
pub enum MaintenanceActorState {
    Idle,
    Checking,
    Toggling,
    Reporting,
}

/// Maintenance actor: advances one position per `step`, whatever the input.
pub struct MaintenanceActor {
    pub state: MaintenanceActorState,
    pub tick_count: i32,
    pub led_state: bool,
    pub system_ok: bool,
}

/// The position that follows `s` in the cycle Idle, Checking, Toggling, Reporting.
pub open spec fn maintenance_next(s: MaintenanceActorState) -> MaintenanceActorState {
    match s {
        MaintenanceActorState::Idle => MaintenanceActorState::Checking,
        MaintenanceActorState::Checking => MaintenanceActorState::Toggling,
        MaintenanceActorState::Toggling => MaintenanceActorState::Reporting,
        MaintenanceActorState::Reporting => MaintenanceActorState::Idle,
    }
}

/// One more on a signed 32-bit heartbeat, wrapping to the minimum at the top.
pub open spec fn heartbeat_next(t: i32) -> i32 {
    if t == i32::MAX {
        i32::MIN
    } else {
        (t + 1) as i32
    }
}

/// The actor after `n` steps.
pub open spec fn maintenance_run(a: MaintenanceActor, n: nat) -> MaintenanceActor
    decreases n,
{
    if n == 0 {
        a
    } else {
        maintenance_run(a, (n - 1) as nat).stepped()
    }
}

/// How many of the first `n` steps flip the LED.
pub open spec fn led_flips(a: MaintenanceActor, n: nat) -> nat
    decreases n,
{
    if n == 0 {
        0
    } else {
        let before = maintenance_run(a, (n - 1) as nat);
        led_flips(a, (n - 1) as nat) + if before.stepped().led_state != before.led_state {
            1nat
        } else {
            0nat
        }
    }
}

/// Four steps close the cycle: the actor is back in the state it started
/// in, the LED has flipped exactly once, and the heartbeat has advanced by
/// four (wrapping past the top of the signed 32-bit range).
pub proof fn four_steps_close_the_cycle(a: MaintenanceActor)
    ensures
        maintenance_run(a, 4).state == a.state,
        maintenance_run(a, 4).led_state == !a.led_state,
        led_flips(a, 4) == 1,
        maintenance_run(a, 4).system_ok == a.system_ok,
        a.tick_count <= i32::MAX - 4 ==> maintenance_run(a, 4).tick_count == a.tick_count + 4,
        a.tick_count > i32::MAX - 4 ==> maintenance_run(a, 4).tick_count == a.tick_count + 4
            - 0x1_0000_0000,
{
    reveal_with_fuel(maintenance_run, 5);
    reveal_with_fuel(led_flips, 5);
}

impl MaintenanceActor {
    /// The actor after one `step`: the LED flips on entry to `Toggling`.
    pub open spec fn stepped(self) -> MaintenanceActor {
        let next = maintenance_next(self.state);
        MaintenanceActor {
            state: next,
            tick_count: heartbeat_next(self.tick_count),
            led_state: if next == MaintenanceActorState::Toggling {
                !self.led_state
            } else {
                self.led_state
            },
            system_ok: self.system_ok,
        }
    }

    /// The documented initial actor.
    pub open spec fn initial() -> MaintenanceActor {
        MaintenanceActor {
            state: MaintenanceActorState::Idle,
            tick_count: 0,
            led_state: false,
            system_ok: true,
        }
    }

    pub fn new() -> (r: MaintenanceActor)
        ensures
            r == MaintenanceActor::initial(),
            r.state == MaintenanceActorState::Idle,
            r.tick_count == 0,
            !r.led_state,
            r.system_ok,
    {
        MaintenanceActor {
            state: MaintenanceActorState::Idle,
            tick_count: 0,
            led_state: false,
            system_ok: true,
        }
    }

    /// Advances exactly one position in the cycle and counts one heartbeat.
    pub fn step(&mut self)
        ensures
            *final(self) == old(self).stepped(),
    {
        let next = match self.state {
            MaintenanceActorState::Idle => MaintenanceActorState::Checking,
            MaintenanceActorState::Checking => MaintenanceActorState::Toggling,
            MaintenanceActorState::Toggling => MaintenanceActorState::Reporting,
            MaintenanceActorState::Reporting => MaintenanceActorState::Idle,
        };
        if next == MaintenanceActorState::Toggling {
            self.led_state = !self.led_state;
        }
        self.tick_count = if self.tick_count == i32::MAX {
            i32::MIN
        } else {
            self.tick_count + 1
        };
        self.state = next;
    }
}

} // verus!
