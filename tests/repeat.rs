use calloop::channel::channel;
use key_repeat::event::{ChannelEvent, KeyEvent, RepeatInfo, RepeatMessage};
use key_repeat::machine::{RepeatState, TimerOutcome};
use key_repeat::source::{Action, KeyRepeatSource};

fn key(time: u32) -> KeyEvent {
    KeyEvent { time, raw_code: 30, keysym: 0x61, utf8: Some("a".to_string()) }
}

fn repeat(rate: u32, delay: u32) -> RepeatMessage {
    RepeatMessage::RepeatInfo(RepeatInfo::Repeat { rate, delay })
}

fn disable() -> RepeatMessage {
    RepeatMessage::RepeatInfo(RepeatInfo::Disable)
}

fn fresh_source() -> KeyRepeatSource {
    let (_sender, chan) = channel::<RepeatMessage>();
    KeyRepeatSource::new(chan)
}

#[test]
fn new_state_is_disabled_and_silent() {
    let mut st = RepeatState::new();
    assert_eq!(st.on_timer(), TimerOutcome { emitted: None, next_ms: 0 });
    // A press while disabled latches nothing that the timer would emit.
    assert_eq!(st.apply_message(RepeatMessage::StartRepeat(key(10))), Some(0));
    assert_eq!(st.on_timer().emitted, None);
}

#[test]
fn rearm_durations_per_message() {
    let mut st = RepeatState::new();
    assert_eq!(st.apply_message(repeat(25_000, 600)), Some(600));
    assert_eq!(st.apply_message(RepeatMessage::StartRepeat(key(0))), Some(600));
    assert_eq!(st.apply_message(RepeatMessage::StopRepeat), None);
    assert_eq!(st.apply_message(disable()), None);
}

#[test]
fn stop_cancels_repeating() {
    let mut st = RepeatState::new();
    st.apply_message(repeat(1000, 500));
    st.apply_message(RepeatMessage::StartRepeat(key(1000)));
    assert!(st.on_timer().emitted.is_some());
    st.apply_message(RepeatMessage::StopRepeat);
    st.apply_message(repeat(2000, 100));
    for _ in 0..5 {
        let out = st.on_timer();
        assert_eq!(out.emitted, None);
        assert_eq!(out.next_ms, 100);
    }
    st.apply_message(RepeatMessage::StartRepeat(key(7)));
    assert_eq!(st.on_timer().emitted, Some(key(107)));
}

#[test]
fn disable_cancels_repeating() {
    let mut st = RepeatState::new();
    st.apply_message(repeat(1000, 500));
    st.apply_message(RepeatMessage::StartRepeat(key(1000)));
    st.apply_message(disable());
    st.apply_message(RepeatMessage::StopRepeat);
    for _ in 0..5 {
        assert_eq!(st.on_timer(), TimerOutcome { emitted: None, next_ms: 500 });
    }
}

#[test]
fn start_then_stop_in_one_batch_emits_nothing() {
    let mut src = fresh_source();
    let batch = vec![
        ChannelEvent::Msg(repeat(1000, 500)),
        ChannelEvent::Msg(RepeatMessage::StartRepeat(key(1000))),
        ChannelEvent::Msg(RepeatMessage::StopRepeat),
    ];
    assert_eq!(src.process_channel_events(batch), Action::Continue);
    assert_eq!(src.state.on_timer().emitted, None);
}

#[test]
fn cadence_rate_2000_delay_300() {
    let mut st = RepeatState::new();
    st.apply_message(repeat(2000, 300));
    st.apply_message(RepeatMessage::StartRepeat(key(4000)));
    let first = st.on_timer();
    assert_eq!(first.emitted, Some(key(4300)));
    assert_eq!(first.next_ms, 2);
    assert_eq!(st.on_timer().emitted, Some(key(4302)));
    assert_eq!(st.on_timer().emitted, Some(key(4304)));
}

#[test]
fn cadence_rate_500_truncates_gap_to_zero() {
    let mut st = RepeatState::new();
    st.apply_message(repeat(500, 300));
    st.apply_message(RepeatMessage::StartRepeat(key(100)));
    for _ in 0..3 {
        let out = st.on_timer();
        assert_eq!(out.emitted, Some(key(400)));
        assert_eq!(out.next_ms, 0);
    }
}

#[test]
fn cadence_rate_1500000_gives_gap_1500() {
    let mut st = RepeatState::new();
    st.apply_message(repeat(1_500_000, 300));
    st.apply_message(RepeatMessage::StartRepeat(key(100)));
    assert_eq!(st.on_timer(), TimerOutcome { emitted: Some(key(400)), next_ms: 1500 });
    assert_eq!(st.on_timer(), TimerOutcome { emitted: Some(key(1900)), next_ms: 1500 });
    assert_eq!(st.on_timer(), TimerOutcome { emitted: Some(key(3400)), next_ms: 1500 });
}

#[test]
fn cadence_persists_across_stop() {
    let mut st = RepeatState::new();
    st.apply_message(repeat(3000, 200));
    st.apply_message(RepeatMessage::StartRepeat(key(0)));
    st.apply_message(RepeatMessage::StopRepeat);
    assert_eq!(st.apply_message(RepeatMessage::StartRepeat(key(50))), Some(200));
    assert_eq!(st.on_timer(), TimerOutcome { emitted: Some(key(250)), next_ms: 3 });
}

#[test]
fn timestamps_wrap_around() {
    let mut st = RepeatState::new();
    st.apply_message(repeat(5000, 10));
    st.apply_message(RepeatMessage::StartRepeat(key(u32::MAX - 3)));
    assert_eq!(st.on_timer().emitted, Some(key(6)));
    assert_eq!(st.on_timer().emitted, Some(key(11)));
    assert_eq!(key(u32::MAX).advanced_by(1), key(0));
}

#[test]
fn duplicate_is_equal() {
    let k = key(77);
    assert_eq!(k.duplicate(), k);
    let plain = KeyEvent { time: 1, raw_code: 2, keysym: 3, utf8: None };
    assert_eq!(plain.duplicate(), plain);
}

#[test]
fn disable_twice_same_as_once() {
    let mut once = RepeatState::new();
    let mut twice = RepeatState::new();
    for st in [&mut once, &mut twice] {
        st.apply_message(repeat(1000, 500));
        st.apply_message(RepeatMessage::StartRepeat(key(1000)));
    }
    assert_eq!(once.apply_message(disable()), None);
    assert_eq!(twice.apply_message(disable()), None);
    assert_eq!(twice.apply_message(disable()), None);
    assert_eq!(once, twice);
}

#[test]
fn closed_channel_removes_source() {
    let mut idle = fresh_source();
    assert_eq!(idle.process_channel_events(vec![ChannelEvent::Closed]), Action::Remove);

    let mut armed = fresh_source();
    let batch = vec![
        ChannelEvent::Msg(repeat(1000, 500)),
        ChannelEvent::Msg(RepeatMessage::StartRepeat(key(1000))),
        ChannelEvent::Closed,
    ];
    assert_eq!(armed.process_channel_events(batch), Action::Remove);

    let mut quiet = fresh_source();
    assert_eq!(quiet.process_channel_events(Vec::new()), Action::Continue);
}

#[test]
fn end_to_end_press_hold_release() {
    let mut src = fresh_source();
    let batch = vec![
        ChannelEvent::Msg(repeat(1000, 500)),
        ChannelEvent::Msg(RepeatMessage::StartRepeat(key(1000))),
    ];
    assert_eq!(src.process_channel_events(batch), Action::Continue);

    let first = src.state.on_timer();
    assert_eq!(first.emitted.map(|k| k.time), Some(1500));
    assert_eq!(first.next_ms, 1);

    let second = src.state.on_timer();
    assert_eq!(second.emitted.map(|k| k.time), Some(1501));

    let stop = vec![ChannelEvent::Msg(RepeatMessage::StopRepeat)];
    assert_eq!(src.process_channel_events(stop), Action::Continue);
    for _ in 0..4 {
        assert_eq!(src.state.on_timer().emitted, None);
    }
}
