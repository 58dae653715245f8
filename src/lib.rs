//! Key-repeat synthesis: a state machine that turns start/stop/cadence
//! messages and timer expiries into synthetic repeated key events, and an
//! event source that couples it to a message channel and a countdown timer.

pub mod event;
pub mod laws;
pub mod machine;
pub mod source;
