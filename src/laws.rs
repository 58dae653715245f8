//! Properties of the repeat state machine over whole runs.

use vstd::arithmetic::div_mod::lemma_add_mod_noop_right;
use vstd::prelude::*;

use crate::event::{advance_time, time_modulus, ChannelEvent, KeyEvent, RepeatInfo, RepeatMessage};
use crate::machine::{closed_in, gap_for_rate, RepeatModel};

verus! {

/// One thing that can happen to the machine: a control message arrives, or
/// the timer fires.
pub enum Input {
    Message(RepeatMessage),
    TimerFired,
}

/// The state after a run of inputs.
pub open spec fn state_after(s: RepeatModel, inputs: Seq<Input>) -> RepeatModel
    decreases inputs.len(),
{
    if inputs.len() == 0 {
        s
    } else {
        let prev = state_after(s, inputs.drop_last());
        match inputs.last() {
            Input::Message(m) => prev.after_message(m),
            Input::TimerFired => prev.after_timer().state,
        }
    }
}

/// The repeats emitted during a run of inputs, in order.
pub open spec fn emitted_during(s: RepeatModel, inputs: Seq<Input>) -> Seq<KeyEvent>
    decreases inputs.len(),
{
    if inputs.len() == 0 {
        Seq::empty()
    } else {
        let prev = emitted_during(s, inputs.drop_last());
        match inputs.last() {
            Input::Message(_) => prev,
            Input::TimerFired => match state_after(s, inputs.drop_last()).after_timer().emitted {
                Some(k) => prev.push(k),
                None => prev,
            },
        }
    }
}

/// Whether an input starts a repeat.
pub open spec fn is_start(i: Input) -> bool {
    i matches Input::Message(RepeatMessage::StartRepeat(_))
}

/// Whether a message cancels repeating.
pub open spec fn is_cancel(m: RepeatMessage) -> bool {
    m matches RepeatMessage::StopRepeat || m matches RepeatMessage::RepeatInfo(RepeatInfo::Disable)
}

/// `n` timer expiries in a row.
pub open spec fn timer_firings(n: nat) -> Seq<Input> {
    Seq::new(n, |i: int| Input::TimerFired)
}

/// Running `a` and then `b` is running `a + b`.
pub proof fn lemma_run_concat(s: RepeatModel, a: Seq<Input>, b: Seq<Input>)
    ensures
        state_after(s, a + b) == state_after(state_after(s, a), b),
        emitted_during(s, a + b) == emitted_during(s, a) + emitted_during(state_after(s, a), b),
    decreases b.len(),
{
    if b.len() == 0 {
        assert(a + b == a);
    } else {
        lemma_run_concat(s, a, b.drop_last());
        assert((a + b).drop_last() == a + b.drop_last());
        assert((a + b).last() == b.last());
    }
}

/// With no key latched, inputs that start no repeat emit nothing and latch
/// nothing.
proof fn lemma_idle_stays_silent(s: RepeatModel, inputs: Seq<Input>)
    requires
        s.key is None,
        forall|j: int| 0 <= j < inputs.len() ==> !is_start(#[trigger] inputs[j]),
    ensures
        state_after(s, inputs).key is None,
        emitted_during(s, inputs) == Seq::<KeyEvent>::empty(),
    decreases inputs.len(),
{
    if inputs.len() > 0 {
        let rest = inputs.drop_last();
        assert forall|j: int| 0 <= j < rest.len() implies !is_start(#[trigger] rest[j]) by {
            assert(rest[j] == inputs[j]);
        }
        lemma_idle_stays_silent(s, rest);
        assert(!is_start(inputs[inputs.len() - 1]));
    }
}

/// Once the latest repeat-relevant message is a stop or a disable, nothing is
/// emitted until a key is pressed again, whatever the timer does.
pub proof fn lemma_silent_after_cancel(
    s: RepeatModel,
    before: Seq<Input>,
    m: RepeatMessage,
    after: Seq<Input>,
)
    requires
        is_cancel(m),
        forall|j: int| 0 <= j < after.len() ==> !is_start(#[trigger] after[j]),
    ensures
        emitted_during(s, before.push(Input::Message(m)) + after) == emitted_during(s, before),
{
    let a = before.push(Input::Message(m));
    lemma_run_concat(s, a, after);
    assert(a.drop_last() == before);
    lemma_idle_stays_silent(state_after(s, a), after);
    assert(emitted_during(s, a) + Seq::<KeyEvent>::empty() == emitted_during(s, a));
}

/// A press followed at once by a release in the same batch, with only
/// messages that start nothing after them, leaves the timer nothing to emit.
pub proof fn lemma_press_release_same_batch(
    s: RepeatModel,
    before: Seq<ChannelEvent>,
    e: KeyEvent,
    after: Seq<ChannelEvent>,
)
    requires
        forall|j: int|
            0 <= j < after.len() ==> !(#[trigger] after[j] matches ChannelEvent::Msg(
                RepeatMessage::StartRepeat(_),
            )),
    ensures
        s.after_events(
            before + seq![
                ChannelEvent::Msg(RepeatMessage::StartRepeat(e)),
                ChannelEvent::Msg(RepeatMessage::StopRepeat),
            ] + after,
        ).after_timer().emitted is None,
{
    let pair = seq![
        ChannelEvent::Msg(RepeatMessage::StartRepeat(e)),
        ChannelEvent::Msg(RepeatMessage::StopRepeat),
    ];
    lemma_batch_stays_idle(s, before + pair, after);
    assert((before + pair).drop_last() == before.push(pair[0]));
    assert(before.push(pair[0]).drop_last() == before);
}

/// A batch that starts nothing keeps a state without a latched key
/// without one.
proof fn lemma_batch_stays_idle(s: RepeatModel, a: Seq<ChannelEvent>, b: Seq<ChannelEvent>)
    requires
        s.after_events(a).key is None,
        forall|j: int|
            0 <= j < b.len() ==> !(#[trigger] b[j] matches ChannelEvent::Msg(
                RepeatMessage::StartRepeat(_),
            )),
    ensures
        s.after_events(a + b).key is None,
    decreases b.len(),
{
    if b.len() > 0 {
        let rest = b.drop_last();
        assert forall|j: int| 0 <= j < rest.len() implies !(#[trigger] rest[j] matches ChannelEvent::Msg(
            RepeatMessage::StartRepeat(_),
        )) by {
            assert(rest[j] == b[j]);
        }
        lemma_batch_stays_idle(s, a, rest);
        assert((a + b).drop_last() == a + rest);
        assert((a + b).last() == b[b.len() - 1]);
    }
}

/// The timestamp of the `k`-th repeat (counting from 0) of a key pressed at
/// `t`, with the given delay and gap.
pub open spec fn repeat_time(t: u32, delay: u32, gap: u32, k: int) -> u32 {
    ((t as int + delay as int + k * gap as int) % time_modulus()) as u32
}

/// The latched key as it stands after `k` repeats of `gap` milliseconds.
#[verifier::opaque]
pub open spec fn nth_repeat(k0: KeyEvent, gap: u32, k: int) -> KeyEvent {
    KeyEvent { time: ((k0.time as int + k * gap as int) % time_modulus()) as u32, ..k0 }
}

proof fn lemma_nth_repeat_step(k0: KeyEvent, gap: u32, k: int)
    ensures
        nth_repeat(k0, gap, 0) == k0,
        nth_repeat(k0, gap, k) == (KeyEvent { time: nth_repeat(k0, gap, k).time, ..k0 }),
        nth_repeat(k0, gap, k + 1) == (KeyEvent {
            time: advance_time(nth_repeat(k0, gap, k).time, gap),
            ..k0
        }),
{
    reveal(nth_repeat);
    let m = time_modulus();
    let t = k0.time as int + k * gap as int;
    lemma_add_mod_noop_right(gap as int, t, m);
    assert(t + gap as int == k0.time as int + (k + 1) * gap as int) by (nonlinear_arith)
        requires
            t == k0.time as int + k * gap as int,
    ;
    assert(0 * gap as int == 0);
    assert(k0.time as int % m == k0.time);
}

/// While repeating, `n` timer expiries emit the latched key `n` times, its
/// timestamp moved forward by one gap each time.
proof fn lemma_steady_repeats(s: RepeatModel, n: nat)
    requires
        s.repeating(),
    ensures
        state_after(s, timer_firings(n)) == (RepeatModel {
            key: Some(nth_repeat(s.key->Some_0, s.gap, n as int)),
            ..s
        }),
        emitted_during(s, timer_firings(n)) == Seq::new(
            n,
            |k: int| nth_repeat(s.key->Some_0, s.gap, k),
        ),
    decreases n,
{
    let k0 = s.key->Some_0;
    lemma_nth_repeat_step(k0, s.gap, n - 1);
    if n == 0 {
        assert(emitted_during(s, timer_firings(0)) =~= Seq::new(
            0,
            |k: int| nth_repeat(k0, s.gap, k),
        ));
        assert(state_after(s, timer_firings(0)) == s);
    } else {
        let p = (n - 1) as nat;
        lemma_steady_repeats(s, p);
        assert(timer_firings(n).drop_last() == timer_firings(p));
        assert(timer_firings(n).last() is TimerFired);
        assert(emitted_during(s, timer_firings(n)) =~= Seq::new(
            n,
            |k: int| nth_repeat(k0, s.gap, k),
        ));
    }
}

/// After the cadence is set to `rate` and `delay` and a key is pressed at
/// `e.time`, `n` timer expiries emit `n` copies of the key, the first at
/// `e.time + delay` and each next one `rate / 1000` milliseconds later.
pub proof fn lemma_repeat_cadence(s: RepeatModel, rate: u32, delay: u32, e: KeyEvent, n: nat)
    ensures
        emitted_during(
            s,
            seq![
                Input::Message(RepeatMessage::RepeatInfo(RepeatInfo::Repeat { rate, delay })),
                Input::Message(RepeatMessage::StartRepeat(e)),
            ] + timer_firings(n),
        ) == Seq::new(
            n,
            |k: int| KeyEvent { time: repeat_time(e.time, delay, gap_for_rate(rate), k), ..e },
        ),
{
    let msgs = seq![
        Input::Message(RepeatMessage::RepeatInfo(RepeatInfo::Repeat { rate, delay })),
        Input::Message(RepeatMessage::StartRepeat(e)),
    ];
    let m = time_modulus();
    let g = gap_for_rate(rate);
    lemma_run_concat(s, msgs, timer_firings(n));
    assert(msgs.drop_last() == seq![msgs[0]]);
    assert(seq![msgs[0]].drop_last() == Seq::<Input>::empty());
    assert(seq![msgs[0]].last() == msgs[0]);
    assert(emitted_during(s, Seq::<Input>::empty()) == Seq::<KeyEvent>::empty());
    assert(emitted_during(s, seq![msgs[0]]) == Seq::<KeyEvent>::empty());
    let st = state_after(s, msgs);
    assert(emitted_during(s, msgs) == Seq::<KeyEvent>::empty());
    assert(st.key == Some(KeyEvent { time: advance_time(e.time, delay), ..e }));
    lemma_steady_repeats(st, n);
    assert forall|k: int| 0 <= k < n implies nth_repeat(st.key->Some_0, g, k) == (KeyEvent {
        time: #[trigger] repeat_time(e.time, delay, g, k),
        ..e
    }) by {
        reveal(nth_repeat);
        lemma_add_mod_noop_right(k * g as int, e.time as int + delay as int, m);
    }
    assert(emitted_during(s, msgs + timer_firings(n)) =~= Seq::new(
        n,
        |k: int| KeyEvent { time: repeat_time(e.time, delay, g, k), ..e },
    ));
}

/// Disabling twice is the same as disabling once.
pub proof fn lemma_disable_idempotent(s: RepeatModel)
    ensures
        s.after_message(RepeatMessage::RepeatInfo(RepeatInfo::Disable)).after_message(
            RepeatMessage::RepeatInfo(RepeatInfo::Disable),
        ) == s.after_message(RepeatMessage::RepeatInfo(RepeatInfo::Disable)),
        s.after_message(RepeatMessage::RepeatInfo(RepeatInfo::Disable)).rearm_on_message(
            RepeatMessage::RepeatInfo(RepeatInfo::Disable),
        ) == s.rearm_on_message(RepeatMessage::RepeatInfo(RepeatInfo::Disable)),
{
}

/// A batch that reports the channel closed, wherever in the batch and
/// whatever comes around it, asks for the source to be removed.
pub proof fn lemma_closed_batch_removes(before: Seq<ChannelEvent>, after: Seq<ChannelEvent>)
    ensures
        closed_in(before.push(ChannelEvent::Closed) + after),
{
    let evs = before.push(ChannelEvent::Closed) + after;
    assert(evs[before.len() as int] is Closed);
}

} // verus!
