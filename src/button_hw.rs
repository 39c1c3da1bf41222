//! Button actor bound to its input sample and its outbound channel.

use vstd::prelude::*;

use embassy_sync::channel::SendDynamicSender;

use crate::button::{button_edge, button_edge_message, counter_next, ButtonActor, ButtonActorState};
use crate::link::try_send;
use crate::messages::ButtonMessage;

verus! {

/// Button actor with the sending end of the button-to-control channel.
pub struct ButtonActorHw {
    pub actor: ButtonActor,
    pub to_control: SendDynamicSender<'static, ButtonMessage>,
}

/// The actor with `pressed` latched as its input.
pub open spec fn latched(a: ButtonActor, pressed: bool) -> ButtonActor {
    ButtonActor { pressed, ..a }
}

/// The actor after sampling each of `inputs` in turn.
pub open spec fn button_run(a: ButtonActor, inputs: Seq<bool>) -> ButtonActor
    decreases inputs.len(),
{
    if inputs.len() == 0 {
        a
    } else {
        button_run(latched(a, inputs[0]).stepped(), inputs.drop_first())
    }
}

/// The message, if any, as a sequence of at most one.
pub open spec fn message_seq(m: Option<ButtonMessage>) -> Seq<ButtonMessage> {
    match m {
        Some(x) => seq![x],
        None => Seq::empty(),
    }
}

/// The messages offered to the channel while sampling each of `inputs` in turn.
pub open spec fn button_trace(a: ButtonActor, inputs: Seq<bool>) -> Seq<ButtonMessage>
    decreases inputs.len(),
{
    if inputs.len() == 0 {
        Seq::empty()
    } else {
        let b = latched(a, inputs[0]).stepped();
        message_seq(button_edge_message(a.state, b.state)) + button_trace(b, inputs.drop_first())
    }
}

/// `n` samples at the same level.
pub open spec fn held(n: nat, level: bool) -> Seq<bool> {
    Seq::new(n, |_i: int| level)
}

/// Running on `x` then `y` is running on `x + y`.
pub proof fn lemma_run_append(a: ButtonActor, x: Seq<bool>, y: Seq<bool>)
    ensures
        button_run(a, x + y) == button_run(button_run(a, x), y),
        button_trace(a, x + y) == button_trace(a, x) + button_trace(button_run(a, x), y),
    decreases x.len(),
{
    if x.len() == 0 {
        assert(x + y =~= y);
        assert(button_trace(a, x) + button_trace(a, y) =~= button_trace(a, y));
    } else {
        let b = latched(a, x[0]).stepped();
        assert((x + y).drop_first() =~= x.drop_first() + y);
        assert((x + y)[0] == x[0]);
        lemma_run_append(b, x.drop_first(), y);
        let m = message_seq(button_edge_message(a.state, b.state));
        assert(m + (button_trace(b, x.drop_first()) + button_trace(button_run(b, x.drop_first()), y))
            =~= (m + button_trace(b, x.drop_first())) + button_trace(button_run(b, x.drop_first()), y));
    }
}

/// Holding the level that keeps the current state changes nothing but the
/// latched input, and offers no message.
proof fn lemma_steady(a: ButtonActor, n: nat, level: bool)
    requires
        (level && a.state == ButtonActorState::Notifying) || (!level && a.state
            == ButtonActorState::Idle),
    ensures
        button_run(a, held(n, level)).state == a.state,
        button_run(a, held(n, level)).press_count == a.press_count,
        button_trace(a, held(n, level)) == Seq::<ButtonMessage>::empty(),
    decreases n,
{
    if n > 0 {
        let b = latched(a, level).stepped();
        assert(held(n, level).drop_first() =~= held((n - 1) as nat, level));
        lemma_steady(b, (n - 1) as nat, level);
        assert(button_trace(a, held(n, level)) =~= Seq::<ButtonMessage>::empty());
    }
}

/// A button that is never pressed stays `Idle` and offers no message, however
/// many times it is sampled.
pub proof fn idle_button_stays_idle(a: ButtonActor, n: nat)
    requires
        a.state == ButtonActorState::Idle,
    ensures
        button_run(a, held(n, false)).state == ButtonActorState::Idle,
        button_trace(a, held(n, false)) == Seq::<ButtonMessage>::empty(),
{
    lemma_steady(a, n, false);
}

/// One press held for `down` samples then released for `up` samples offers
/// exactly `Pressed` then `Released`, counts one press, and ends `Idle` once
/// released for two samples or more.
pub proof fn press_release_reports_once(a: ButtonActor, down: nat, up: nat)
    requires
        a.state == ButtonActorState::Idle,
        down >= 1,
        up >= 1,
    ensures
        button_trace(a, held(down, true) + held(up, false)) == seq![
            ButtonMessage::Pressed,
            ButtonMessage::Released,
        ],
        button_run(a, held(down, true) + held(up, false)).press_count == counter_next(
            a.press_count,
        ),
        up >= 2 ==> button_run(a, held(down, true) + held(up, false)).state
            == ButtonActorState::Idle,
{
    let x = held(down, true);
    let y = held(up, false);
    lemma_run_append(a, x, y);
    // the press
    let b = latched(a, true).stepped();
    assert(x.drop_first() =~= held((down - 1) as nat, true));
    lemma_steady(b, (down - 1) as nat, true);
    assert(button_trace(a, x) =~= seq![ButtonMessage::Pressed]);
    let bx = button_run(a, x);
    // the release
    assert(bx.state == ButtonActorState::Notifying);
    assert(bx.press_count == counter_next(a.press_count));
    assert(y[0] == false);
    let c = latched(bx, false).stepped();
    assert(c.state == ButtonActorState::Released);
    assert(button_run(bx, y) == button_run(c, y.drop_first()));
    assert(button_trace(bx, y) == seq![ButtonMessage::Released] + button_trace(c, y.drop_first()));
    if up >= 2 {
        let d = latched(c, false).stepped();
        assert(y.drop_first()[0] == false);
        assert(y.drop_first().drop_first() =~= held((up - 2) as nat, false));
        lemma_steady(d, (up - 2) as nat, false);
        assert(button_run(c, y.drop_first()) == button_run(d, y.drop_first().drop_first()));
        assert(button_trace(c, y.drop_first()) =~= Seq::<ButtonMessage>::empty());
    } else {
        assert(y.drop_first() =~= Seq::<bool>::empty());
    }
    assert(button_trace(bx, y) =~= seq![ButtonMessage::Released]);
    assert(seq![ButtonMessage::Pressed] + seq![ButtonMessage::Released] =~= seq![
        ButtonMessage::Pressed,
        ButtonMessage::Released,
    ]);
}

impl ButtonActorHw {
    pub fn new(to_control: SendDynamicSender<'static, ButtonMessage>) -> (r: ButtonActorHw)
        ensures
            r.actor == ButtonActor::initial(),
            r.to_control == to_control,
    {
        ButtonActorHw { actor: ButtonActor::new(), to_control }
    }

    /// Latches the sampled input (`true` while the button is held down),
    /// steps the actor, and offers the edge message, if any, to the channel.
    /// Returns the message offered; a full channel drops it.
    pub fn step(&mut self, pressed: bool) -> (r: Option<ButtonMessage>)
        ensures
            final(self).actor == latched(old(self).actor, pressed).stepped(),
            final(self).to_control == old(self).to_control,
            r == button_edge_message(old(self).actor.state, final(self).actor.state),
    {
        self.actor.pressed = pressed;
        let old_state = self.actor.state;
        self.actor.step();
        let edge = button_edge(old_state, self.actor.state);
        match edge {
            Some(m) => {
                let _ = try_send(&self.to_control, m);
            },
            None => {},
        }
        edge
    }
}

} // verus!
