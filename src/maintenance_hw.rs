//! Maintenance actor bound to its outbound channel; the LED level it asks
//! for is handed back to the caller, which owns the pin.

use vstd::prelude::*;

use embassy_sync::channel::SendDynamicSender;

use crate::link::try_send;
use crate::maintenance::{MaintenanceActor, MaintenanceActorState};
use crate::messages::MaintenanceMessage;

verus! {

/// What one maintenance step asks of the outside world.
#[derive(Debug, Clone, Copy, PartialEq, Eq, Structural)]
pub enum MaintenanceEffect {
    /// No transition with an effect.
    Nothing,
    /// Entered `Toggling`: drive the LED to this level (`true` is on).
    DriveLed(bool),
    /// Entered `Reporting`: this snapshot was offered to the channel.
    Reported(MaintenanceMessage),
}

/// Maintenance actor with the sending end of the maintenance-to-control channel.
pub struct MaintenanceActorHw {
    pub actor: MaintenanceActor,
    pub to_control: SendDynamicSender<'static, MaintenanceMessage>,
}

/// The snapshot that the actor reports.
pub open spec fn snapshot(a: MaintenanceActor) -> MaintenanceMessage {
    MaintenanceMessage { system_ok: a.system_ok, led_state: a.led_state, tick_count: a.tick_count }
}

/// The effect owed when the actor goes from `before` to `after`: only on the
/// tick where the state changes, into `Toggling` or into `Reporting`.
pub open spec fn maintenance_effect(before: MaintenanceActor, after: MaintenanceActor) -> MaintenanceEffect {
    if before.state == after.state {
        MaintenanceEffect::Nothing
    } else {
        match after.state {
            MaintenanceActorState::Toggling => MaintenanceEffect::DriveLed(after.led_state),
            MaintenanceActorState::Reporting => MaintenanceEffect::Reported(snapshot(after)),
            _ => MaintenanceEffect::Nothing,
        }
    }
}

/// The snapshot of `a` that goes to the control actor.
pub fn report(a: &MaintenanceActor) -> (m: MaintenanceMessage)
    ensures
        m == snapshot(*a),
{
    MaintenanceMessage { system_ok: a.system_ok, led_state: a.led_state, tick_count: a.tick_count }
}

impl MaintenanceActorHw {
    pub fn new(to_control: SendDynamicSender<'static, MaintenanceMessage>) -> (r: MaintenanceActorHw)
        ensures
            r.actor == MaintenanceActor::initial(),
            r.to_control == to_control,
    {
        MaintenanceActorHw { actor: MaintenanceActor::new(), to_control }
    }

    /// Steps the actor; on entry to `Reporting` offers the snapshot to the
    /// channel (a full channel drops it). Returns the effect of the step.
    pub fn step(&mut self) -> (r: MaintenanceEffect)
        ensures
            final(self).actor == old(self).actor.stepped(),
            final(self).to_control == old(self).to_control,
            r == maintenance_effect(old(self).actor, final(self).actor),
    {
        let old_state = self.actor.state;
        self.actor.step();
        if old_state == self.actor.state {
            return MaintenanceEffect::Nothing;
        }
        match self.actor.state {
            MaintenanceActorState::Toggling => MaintenanceEffect::DriveLed(self.actor.led_state),
            MaintenanceActorState::Reporting => {
                let msg = report(&self.actor);
                let _ = try_send(&self.to_control, msg);
                MaintenanceEffect::Reported(msg)
            },
            _ => MaintenanceEffect::Nothing,
        }
    }
}

} // verus!
