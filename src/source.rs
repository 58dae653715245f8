//! The key-repeat event source over a calloop channel and timer.

use vstd::prelude::*;

use calloop::channel::Channel;
use calloop::timer::Timer;

use crate::event::{ChannelEvent, RepeatMessage};
use crate::machine::{closed_in, RepeatModel, RepeatState};

verus! {

#[verifier::external_type_specification]
#[verifier::external_body]
#[verifier::reject_recursive_types(T)]
pub struct ExChannel<T>(calloop::channel::Channel<T>);

#[verifier::external_type_specification]
#[verifier::external_body]
pub struct ExTimer(calloop::timer::Timer);

/// Relies on calloop's `Timer::immediate`: a timer whose deadline is now.
pub assume_specification[ calloop::timer::Timer::immediate ]() -> calloop::timer::Timer;

/// Relies on calloop's `Timer::set_duration`: the deadline becomes now plus
/// `ms` milliseconds (it saturates to "never" rather than panic).
#[verifier::external_body]
fn set_timer_ms(timer: &mut Timer, ms: u32) {
    timer.set_duration(std::time::Duration::from_millis(ms as u64))
}

/// What the event loop should do with the source after a dispatch.
#[derive(Debug, Clone, Copy, PartialEq, Eq, Structural)]
pub enum Action {
    /// Keep polling the source.
    Continue,
    /// The sending side is gone: take the source out of the loop.
    Remove,
}

/// The key-repeat event source: the receiving end of the control channel,
/// the repeat timer, and the repeat state they drive.
pub struct KeyRepeatSource {
    pub channel: Channel<RepeatMessage>,
    pub timer: Timer,
    pub state: RepeatState,
}

impl KeyRepeatSource {
    /// A source reading from `channel`, disabled, with a timer that is due
    /// at once.
    pub fn new(channel: Channel<RepeatMessage>) -> (r: KeyRepeatSource)
        ensures
            r.state@ == RepeatModel::initial(),
    {
        KeyRepeatSource { channel, timer: Timer::immediate(), state: RepeatState::new() }
    }

    /// Applies a batch of channel events in order, setting the timer for
    /// each message that asks for it. The source is to be removed when the
    /// batch reports the channel closed, and kept otherwise.
    pub fn process_channel_events(&mut self, events: Vec<ChannelEvent>) -> (action: Action)
        ensures
            final(self).state@ == old(self).state@.after_events(events@),
            action == (if closed_in(events@) { Action::Remove } else { Action::Continue }),
    {
        let ghost start = self.state@;
        let mut removed = false;
        for ev in it: events.into_iter()
            invariant
                it.seq() == events@,
                self.state@ == start.after_events(events@.take(it.index() as int)),
                removed == closed_in(events@.take(it.index() as int)),
        {
            proof {
                let prefix = events@.take(it.index() as int + 1);
                assert(prefix.drop_last() == events@.take(it.index() as int));
            }
            match ev {
                ChannelEvent::Msg(m) => {
                    if let Some(ms) = self.state.apply_message(m) {
                        set_timer_ms(&mut self.timer, ms);
                    }
                },
                ChannelEvent::Closed => {
                    removed = true;
                },
            }
        }
        assert(events@.take(events@.len() as int) == events@);
        if removed {
            Action::Remove
        } else {
            Action::Continue
        }
    }
}

} // verus!
