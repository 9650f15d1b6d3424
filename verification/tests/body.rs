use frame_monitor::body::{observe, Polled};
use frame_monitor::signal::FrameSignal;

type Poll = Polled<Vec<u8>, String>;

fn frame(bytes: &[u8]) -> Poll {
    Polled::Frame(bytes.to_vec())
}

fn failed(why: &str) -> Poll {
    Polled::Failed(why.to_string())
}

#[test]
fn is_frame_tells_frames_from_the_rest() {
    assert!(frame(b"a").is_frame());
    assert!(!failed("reset by peer").is_frame());
    let pending: Poll = Polled::Pending;
    assert!(!pending.is_frame());
    let finished: Poll = Polled::Finished;
    assert!(!finished.is_frame());
}

#[test]
fn a_ready_poll_is_a_frame_a_failure_or_the_end() {
    assert_eq!(Poll::from_ready(Some(Ok(b"a".to_vec()))), frame(b"a"));
    assert_eq!(Poll::from_ready(Some(Err("reset by peer".to_string()))), failed("reset by peer"));
    assert_eq!(Poll::from_ready(None), Polled::Finished);
}

#[test]
fn a_poll_gives_back_what_it_was_made_of() {
    assert_eq!(frame(b"a").into_ready(), Some(Some(Ok(b"a".to_vec()))));
    assert_eq!(failed("reset by peer").into_ready(), Some(Some(Err("reset by peer".to_string()))));
    let finished: Poll = Polled::Finished;
    assert_eq!(finished.into_ready(), Some(None));
    let pending: Poll = Polled::Pending;
    assert_eq!(pending.into_ready(), None);
}

#[test]
fn a_ready_item_passes_through_a_tapped_poll_unchanged() {
    let signal = FrameSignal::new();
    let items: Vec<Option<Result<Vec<u8>, String>>> =
        vec![Some(Ok(b"first".to_vec())), Some(Err("stream error".to_string())), None];
    for item in items {
        let out = observe(&signal, Polled::from_ready(item.clone())).into_ready();
        assert_eq!(out, Some(item));
    }
    assert!(signal.is_signalled());
}

#[test]
fn an_empty_frame_is_a_frame() {
    let signal = FrameSignal::new();
    assert_eq!(observe(&signal, frame(b"")), frame(b""));
    assert!(signal.is_signalled());
}

#[test]
fn a_frame_raises_the_signal_and_passes() {
    let signal = FrameSignal::new();
    assert_eq!(observe(&signal, frame(b"hello")), frame(b"hello"));
    assert!(signal.is_signalled());
}

#[test]
fn a_failure_passes_and_leaves_the_signal_down() {
    let signal = FrameSignal::new();
    assert_eq!(observe(&signal, failed("reset by peer")), failed("reset by peer"));
    assert!(!signal.is_signalled());
}

#[test]
fn the_end_of_the_stream_passes_and_leaves_the_signal_down() {
    let signal = FrameSignal::new();
    let out: Poll = observe(&signal, Polled::Finished);
    assert_eq!(out, Polled::Finished);
    assert!(!signal.is_signalled());
}

#[test]
fn a_pending_poll_passes_and_leaves_the_signal_down() {
    let signal = FrameSignal::new();
    let out: Poll = observe(&signal, Polled::Pending);
    assert_eq!(out, Polled::Pending);
    assert!(!signal.is_signalled());
}

#[test]
fn frames_then_the_end_raise_the_signal() {
    let signal = FrameSignal::new();
    for n in 0..5u8 {
        observe(&signal, frame(&[n]));
    }
    let end: Poll = observe(&signal, Polled::Finished);
    assert_eq!(end, Polled::Finished);
    assert!(signal.is_signalled());
}

#[test]
fn one_frame_then_the_end_raises_the_signal() {
    let signal = FrameSignal::new();
    observe(&signal, frame(b"only"));
    let _end: Poll = observe(&signal, Polled::Finished);
    assert!(signal.is_signalled());
}

#[test]
fn no_frame_then_the_end_leaves_the_signal_down() {
    let signal = FrameSignal::new();
    let _end: Poll = observe(&signal, Polled::Finished);
    assert!(!signal.is_signalled());
}

#[test]
fn a_failure_as_first_event_leaves_the_signal_down() {
    let signal = FrameSignal::new();
    let _pending: Poll = observe(&signal, Polled::Pending);
    observe(&signal, failed("connection refused"));
    assert!(!signal.is_signalled());
}

#[test]
fn two_frames_then_a_failure_leave_the_signal_up() {
    let signal = FrameSignal::new();
    assert_eq!(observe(&signal, frame(b"A")), frame(b"A"));
    assert_eq!(observe(&signal, frame(b"B")), frame(b"B"));
    assert_eq!(observe(&signal, failed("stream error")), failed("stream error"));
    assert!(signal.is_signalled());
}

#[test]
fn a_later_failure_does_not_lower_the_signal() {
    let signal = FrameSignal::new();
    observe(&signal, frame(b"A"));
    observe(&signal, failed("stream error"));
    let _end: Poll = observe(&signal, Polled::Finished);
    let _pending: Poll = observe(&signal, Polled::Pending);
    assert!(signal.is_signalled());
}

fn a_stream() -> Vec<Poll> {
    vec![
        Polled::Pending,
        frame(b"first"),
        Polled::Pending,
        frame(b""),
        frame(b"third"),
        failed("stream error"),
        Polled::Finished,
    ]
}

#[test]
fn every_poll_comes_out_as_it_went_in_and_in_order() {
    let signal = FrameSignal::new();
    let mut outer: Vec<Poll> = Vec::new();
    for polled in a_stream() {
        outer.push(observe(&signal, polled));
    }
    assert_eq!(outer, a_stream());
}

#[test]
fn the_signal_goes_up_at_the_first_frame_and_not_before() {
    let signal = FrameSignal::new();
    let _pending: Poll = observe(&signal, Polled::Pending);
    assert!(!signal.is_signalled());
    observe(&signal, frame(b"first"));
    assert!(signal.is_signalled());
}

#[test]
fn after_a_reset_the_next_exchange_starts_down() {
    let signal = FrameSignal::new();
    observe(&signal, frame(b"old"));
    let _end: Poll = observe(&signal, Polled::Finished);
    assert!(signal.is_signalled());
    signal.reset();
    assert!(!signal.is_signalled());
    observe(&signal, failed("connection refused"));
    assert!(!signal.is_signalled());
}

#[test]
fn after_a_reset_the_next_exchange_can_raise_again() {
    let signal = FrameSignal::new();
    observe(&signal, failed("connection refused"));
    signal.reset();
    observe(&signal, frame(b"new"));
    assert!(signal.is_signalled());
    signal.reset();
    assert!(!signal.is_signalled());
}

#[test]
fn interleaved_bodies_on_separate_signals_do_not_mix() {
    let one = FrameSignal::new();
    let other = FrameSignal::new();
    let _p: Poll = observe(&one, Polled::Pending);
    observe(&other, frame(b"x"));
    observe(&one, failed("stream error"));
    let _e: Poll = observe(&other, Polled::Finished);
    assert!(!one.is_signalled());
    assert!(other.is_signalled());
    other.reset();
    observe(&one, frame(b"y"));
    assert!(one.is_signalled());
    assert!(!other.is_signalled());
}

#[test]
fn payloads_need_not_be_bytes() {
    let signal = FrameSignal::new();
    let polled: Polled<(u8, &str), ()> = Polled::Frame((1, "trailers"));
    assert_eq!(observe(&signal, polled), Polled::Frame((1, "trailers")));
    assert!(signal.is_signalled());
}
