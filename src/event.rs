//! Key events and the control messages of the repeat machinery.

use vstd::prelude::*;

verus! {

/// Largest value of a `u32` timestamp, plus one: timestamps wrap around at it.
pub open spec fn time_modulus() -> int {
    0x1_0000_0000
}

/// A timestamp moved forward by `d` milliseconds, wrapping around like the
/// input source's 32-bit millisecond clock.
pub open spec fn advance_time(t: u32, d: u32) -> u32 {
    ((t as int + d as int) % time_modulus()) as u32
}

/// One key occurrence, as re-emitted when the key repeats.
#[derive(Debug, Clone, PartialEq, Eq)]
pub struct KeyEvent {
    /// Timestamp in milliseconds, in the input source's time base.
    pub time: u32,
    /// Raw hardware key code.
    pub raw_code: u32,
    /// The symbol the key produces under the current layout.
    pub keysym: u32,
    /// The text the key produces, if any.
    pub utf8: Option<String>,
}

impl KeyEvent {
    /// An identical copy of the event.
    pub fn duplicate(&self) -> (r: KeyEvent)
        ensures
            r == *self,
    {
        let utf8 = match &self.utf8 {
            Some(s) => Some(s.clone()),
            None => None,
        };
        KeyEvent { time: self.time, raw_code: self.raw_code, keysym: self.keysym, utf8 }
    }

    /// The same event with its timestamp moved forward by `d` milliseconds.
    pub fn advanced_by(self, d: u32) -> (r: KeyEvent)
        ensures
            r == (KeyEvent { time: advance_time(self.time, d), ..self }),
    {
        let time = self.time.wrapping_add(d);
        KeyEvent { time, ..self }
    }
}

/// Cadence parameters advertised by the input source.
#[derive(Debug, Clone, Copy, PartialEq, Eq)]
pub enum RepeatInfo {
    /// Repeating is on. The first repeat comes `delay` milliseconds after
    /// the press; the next ones are `rate / 1000` milliseconds apart.
    Repeat { rate: u32, delay: u32 },
    /// The input source sends repeats itself: no repeats are synthesized.
    Disable,
}

/// A control message for the repeat machinery.
#[derive(Debug, Clone, PartialEq, Eq)]
pub enum RepeatMessage {
    /// The latched key was released.
    StopRepeat,
    /// A key was pressed; its timestamp is that of the press itself.
    StartRepeat(KeyEvent),
    /// New cadence parameters.
    RepeatInfo(RepeatInfo),
}

/// What the control channel delivers: a message, or word that the sending
/// side is gone.
#[derive(Debug, Clone, PartialEq, Eq)]
pub enum ChannelEvent {
    Msg(RepeatMessage),
    Closed,
}

} // verus!
