//! Control actor bound to the receiving ends of both channels.

use vstd::prelude::*;

use embassy_sync::channel::SendDynamicReceiver;

use crate::config::{BUTTON_CHANNEL_CAPACITY, MAINTENANCE_CHANNEL_CAPACITY};
use crate::control::RealtimeControlActor;
use crate::link::try_receive;
use crate::messages::{ButtonMessage, MaintenanceMessage};

verus! {

/// The messages taken from the channels in one control cycle, oldest first.
pub struct ControlInbox {
    pub buttons: Vec<ButtonMessage>,
    pub reports: Vec<MaintenanceMessage>,
}

/// Control actor with the receiving ends of both channels.
pub struct ControlActorHw {
    pub actor: RealtimeControlActor,
    pub from_button: SendDynamicReceiver<'static, ButtonMessage>,
    pub from_maintenance: SendDynamicReceiver<'static, MaintenanceMessage>,
}

/// Files one receive result: a message is appended after those already
/// taken, and taking goes on while fewer than `limit` are held; an empty
/// receive stops the taking.
pub fn take_received<T>(taken: &mut Vec<T>, got: Option<T>, limit: usize) -> (more: bool)
    ensures
        got matches Some(m) ==> final(taken)@ == old(taken)@.push(m) && more == (final(taken)@.len()
            < limit),
        got is None ==> final(taken)@ == old(taken)@ && !more,
{
    match got {
        Some(m) => {
            taken.push(m);
            taken.len() < limit
        },
        None => false,
    }
}

/// Takes messages from `rx`, oldest first, until it is empty or `limit` were
/// taken; each result goes through `take_received`.
fn drain<T>(rx: &SendDynamicReceiver<'static, T>, limit: usize) -> (r: Vec<T>)
    ensures
        r.len() <= limit,
{
    let mut taken: Vec<T> = Vec::new();
    let mut more = limit > 0;
    while more
        invariant
            taken.len() <= limit,
            more ==> taken.len() < limit,
        decreases limit - taken.len() + if more { 1int } else { 0int },
    {
        let got = try_receive(rx);
        more = take_received(&mut taken, got, limit);
    }
    taken
}

impl ControlActorHw {
    pub fn new(
        from_button: SendDynamicReceiver<'static, ButtonMessage>,
        from_maintenance: SendDynamicReceiver<'static, MaintenanceMessage>,
    ) -> (r: ControlActorHw)
        ensures
            r.actor == RealtimeControlActor::initial(),
            r.from_button == from_button,
            r.from_maintenance == from_maintenance,
    {
        ControlActorHw { actor: RealtimeControlActor::new(), from_button, from_maintenance }
    }

    /// One control cycle: drains the button channel, then the maintenance
    /// channel, each at most to its capacity so that the work is bounded,
    /// then steps the actor. Returns what was drained.
    pub fn step(&mut self) -> (r: ControlInbox)
        ensures
            final(self).actor == old(self).actor.stepped(),
            final(self).from_button == old(self).from_button,
            final(self).from_maintenance == old(self).from_maintenance,
            r.buttons.len() <= BUTTON_CHANNEL_CAPACITY,
            r.reports.len() <= MAINTENANCE_CHANNEL_CAPACITY,
    {
        let buttons = drain(&self.from_button, BUTTON_CHANNEL_CAPACITY);
        let reports = drain(&self.from_maintenance, MAINTENANCE_CHANNEL_CAPACITY);
        self.actor.step();
        ControlInbox { buttons, reports }
    }
}

} // verus!
