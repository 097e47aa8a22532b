//! Reconnect-with-backoff on the consumer side.

use zss::stream::{Backoff, ImageStream, PollOutcome, StreamAction};

#[test]
fn backoff_doubles_and_clamps_at_thirty_seconds() {
    // five consecutive disconnects starting at 1 s sleep 1, 2, 4, 8 and
    // 16 s; the sixth clamps to 30 s, not 32
    let mut backoff = Backoff::new();
    let mut delays = Vec::new();
    for _ in 0..6 {
        delays.push(backoff.next_delay());
    }
    assert_eq!(delays, vec![1000, 2000, 4000, 8000, 16000, 30000]);
    // and it stays clamped
    assert_eq!(backoff.next_delay(), 30000);
}

#[test]
fn backoff_resets_to_one_second() {
    let mut backoff = Backoff::new();
    backoff.next_delay();
    backoff.next_delay();
    backoff.reset();
    assert_eq!(backoff.next_delay(), 1000);
}

#[test]
fn stream_reconnects_with_growing_delays() {
    let mut stream = ImageStream::new();
    assert_eq!(
        stream.on_poll(PollOutcome::Disconnected),
        StreamAction::Reconnect(1000)
    );
    assert_eq!(
        stream.on_poll(PollOutcome::Disconnected),
        StreamAction::Reconnect(2000)
    );
    assert_eq!(
        stream.on_poll(PollOutcome::Disconnected),
        StreamAction::Reconnect(4000)
    );
}

#[test]
fn an_empty_queue_is_not_a_failure() {
    let mut stream = ImageStream::new();
    assert_eq!(stream.on_poll(PollOutcome::Empty), StreamAction::NoImage);
    // the backoff streak is untouched
    assert_eq!(stream.backoff.timeout_ms, 1000);
}

#[test]
fn a_received_image_ends_the_backoff_streak() {
    let mut stream = ImageStream::new();
    stream.on_poll(PollOutcome::Disconnected);
    stream.on_poll(PollOutcome::Disconnected);
    assert_eq!(stream.on_poll(PollOutcome::Received), StreamAction::Deliver);
    // the next disconnect starts over at one second
    assert_eq!(
        stream.on_poll(PollOutcome::Disconnected),
        StreamAction::Reconnect(1000)
    );
}
