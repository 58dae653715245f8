//! The repeat state machine and its abstract model.

use vstd::prelude::*;

use crate::event::{advance_time, ChannelEvent, KeyEvent, RepeatInfo, RepeatMessage};

verus! {

/// Milliseconds between two repeats for an advertised rate: the rate is
/// divided by 1000 and truncated.
pub open spec fn gap_for_rate(rate: u32) -> u32 {
    (rate / 1000) as u32
}

/// The abstract repeat state.
pub struct RepeatModel {
    /// The key being repeated, its timestamp already moved to the next repeat.
    pub key: Option<KeyEvent>,
    /// Milliseconds from a press to its first repeat.
    pub delay: u32,
    /// Milliseconds between repeats.
    pub gap: u32,
    /// Whether repeats are synthesized at all.
    pub enabled: bool,
}

/// What a timer expiry yields: the state after it, the event emitted if any,
/// and the duration the timer is set to next.
pub struct TimerStep {
    pub state: RepeatModel,
    pub emitted: Option<KeyEvent>,
    pub next_ms: u32,
}

impl RepeatModel {
    /// The state before any message: disabled, no key, zero cadence.
    pub open spec fn initial() -> RepeatModel {
        RepeatModel { key: None, delay: 0, gap: 0, enabled: false }
    }

    /// The state after one control message.
    pub open spec fn after_message(self, m: RepeatMessage) -> RepeatModel {
        match m {
            RepeatMessage::StopRepeat => RepeatModel { key: None, ..self },
            RepeatMessage::StartRepeat(e) => RepeatModel {
                key: Some(KeyEvent { time: advance_time(e.time, self.delay), ..e }),
                ..self
            },
            RepeatMessage::RepeatInfo(RepeatInfo::Repeat { rate, delay }) => RepeatModel {
                gap: gap_for_rate(rate),
                delay,
                enabled: true,
                ..self
            },
            RepeatMessage::RepeatInfo(RepeatInfo::Disable) => RepeatModel {
                key: None,
                enabled: false,
                ..self
            },
        }
    }

    /// The duration the timer is set to on a control message, if it is set:
    /// the delay (the new one, for a cadence update) on a press or a cadence
    /// update, and not at all otherwise.
    pub open spec fn rearm_on_message(self, m: RepeatMessage) -> Option<u32> {
        match m {
            RepeatMessage::StartRepeat(_) => Some(self.delay),
            RepeatMessage::RepeatInfo(RepeatInfo::Repeat { delay, .. }) => Some(delay),
            _ => None,
        }
    }

    /// Whether a timer expiry emits a repeat.
    pub open spec fn repeating(self) -> bool {
        self.enabled && self.key is Some
    }

    /// A timer expiry: when repeating, the latched key is emitted and then
    /// moved forward by the gap, and the timer is set to the gap; otherwise
    /// nothing changes and the timer is set to the delay.
    pub open spec fn after_timer(self) -> TimerStep {
        if self.repeating() {
            let k = self.key->Some_0;
            TimerStep {
                state: RepeatModel {
                    key: Some(KeyEvent { time: advance_time(k.time, self.gap), ..k }),
                    ..self
                },
                emitted: Some(k),
                next_ms: self.gap,
            }
        } else {
            TimerStep { state: self, emitted: None, next_ms: self.delay }
        }
    }

    /// The state after a batch of channel events, in order.
    pub open spec fn after_events(self, evs: Seq<ChannelEvent>) -> RepeatModel
        decreases evs.len(),
    {
        if evs.len() == 0 {
            self
        } else {
            let prev = self.after_events(evs.drop_last());
            match evs.last() {
                ChannelEvent::Msg(m) => prev.after_message(m),
                ChannelEvent::Closed => prev,
            }
        }
    }
}

/// Whether a batch of channel events says that the sending side is gone.
pub open spec fn closed_in(evs: Seq<ChannelEvent>) -> bool {
    exists|i: int| 0 <= i < evs.len() && evs[i] is Closed
}

/// The repeat state machine.
#[derive(Debug, PartialEq, Eq)]
pub struct RepeatState {
    gap: u32,
    delay: u32,
    disabled: bool,
    key: Option<KeyEvent>,
}

impl View for RepeatState {
    type V = RepeatModel;

    closed spec fn view(&self) -> RepeatModel {
        RepeatModel {
            key: self.key,
            delay: self.delay,
            gap: self.gap,
            enabled: !self.disabled,
        }
    }
}

/// What a timer expiry hands back: the repeat to emit, if any, and the
/// number of milliseconds after which the timer should fire again.
#[derive(Debug, PartialEq, Eq)]
pub struct TimerOutcome {
    pub emitted: Option<KeyEvent>,
    pub next_ms: u32,
}

impl RepeatState {
    /// A disabled machine with no latched key.
    pub fn new() -> (r: RepeatState)
        ensures
            r@ == RepeatModel::initial(),
    {
        RepeatState { gap: 0, delay: 0, disabled: true, key: None }
    }

    /// Applies one control message; returns the duration, in milliseconds,
    /// the timer must be set to, if it must be set.
    pub fn apply_message(&mut self, m: RepeatMessage) -> (rearm: Option<u32>)
        ensures
            final(self)@ == old(self)@.after_message(m),
            rearm == old(self)@.rearm_on_message(m),
    {
        match m {
            RepeatMessage::StopRepeat => {
                self.key = None;
                None
            },
            RepeatMessage::StartRepeat(e) => {
                self.key = Some(e.advanced_by(self.delay));
                Some(self.delay)
            },
            RepeatMessage::RepeatInfo(RepeatInfo::Repeat { rate, delay }) => {
                self.gap = rate / 1000;
                self.delay = delay;
                self.disabled = false;
                Some(self.delay)
            },
            RepeatMessage::RepeatInfo(RepeatInfo::Disable) => {
                self.key = None;
                self.disabled = true;
                None
            },
        }
    }

    /// Handles one timer expiry.
    pub fn on_timer(&mut self) -> (out: TimerOutcome)
        ensures
            final(self)@ == old(self)@.after_timer().state,
            out.emitted == old(self)@.after_timer().emitted,
            out.next_ms == old(self)@.after_timer().next_ms,
    {
        if self.disabled || self.key.is_none() {
            return TimerOutcome { emitted: None, next_ms: self.delay };
        }
        let k = self.key.take().unwrap();
        let emitted = k.duplicate();
        self.key = Some(k.advanced_by(self.gap));
        TimerOutcome { emitted: Some(emitted), next_ms: self.gap }
    }
}

} // verus!
