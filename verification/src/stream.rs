//! The consumer's side of the image pipeline: reconnect with backoff.
//!
//! The render thread receives images over a bounded queue. When the
//! producer dies the stream does not: it sleeps for the current backoff
//! delay, doubles the delay (capped), and has a fresh loader spawned. The
//! host owns the queue and the threads; what to do after each receive
//! attempt is decided — and verified — here.

use vstd::prelude::*;

verus! {

/// The backoff delay of the first reconnect attempt, one second.
pub const INITIAL_TIMEOUT_MS: u64 = 1000;

/// The longest backoff delay; doubling is clamped here, at thirty seconds.
pub const TIMEOUT_CAP_MS: u64 = 30000;

/// The reconnect backoff state: the delay to sleep before the next
/// attempt. It doubles on every disconnect, clamps at [`TIMEOUT_CAP_MS`],
/// and resets once an image arrives again.
#[derive(Clone, Copy, Debug, PartialEq, Eq, Structural)]
pub struct Backoff {
    pub timeout_ms: u64,
}

impl Backoff {
    pub open spec fn wf(self) -> bool {
        INITIAL_TIMEOUT_MS <= self.timeout_ms <= TIMEOUT_CAP_MS
    }

    pub fn new() -> (r: Backoff)
        ensures
            r.timeout_ms == INITIAL_TIMEOUT_MS,
            r.wf(),
    {
        Backoff { timeout_ms: INITIAL_TIMEOUT_MS }
    }

    /// The delay to sleep before the next reconnect attempt: the current
    /// timeout. The stored timeout doubles, clamped at the cap, so five
    /// consecutive disconnects from a fresh state sleep 1, 2, 4, 8 and 16
    /// seconds, and every later one sleeps exactly 30.
    pub fn next_delay(&mut self) -> (delay: u64)
        requires
            old(self).wf(),
        ensures
            final(self).wf(),
            delay == old(self).timeout_ms,
            final(self).timeout_ms == if 2 * old(self).timeout_ms <= TIMEOUT_CAP_MS {
                2 * old(self).timeout_ms
            } else {
                TIMEOUT_CAP_MS as int
            },
    {
        let delay = self.timeout_ms;
        if self.timeout_ms <= TIMEOUT_CAP_MS / 2 {
            self.timeout_ms = 2 * self.timeout_ms;
        } else {
            self.timeout_ms = TIMEOUT_CAP_MS;
        }
        delay
    }

    /// Back to the initial delay, after the pipeline has recovered.
    pub fn reset(&mut self)
        ensures
            final(self).timeout_ms == INITIAL_TIMEOUT_MS,
            final(self).wf(),
    {
        self.timeout_ms = INITIAL_TIMEOUT_MS;
    }
}

/// What one receive attempt on the queue observed.
#[derive(Clone, Copy, Debug, PartialEq, Eq, Structural)]
pub enum PollOutcome {
    /// An image arrived.
    Received,
    /// The queue is currently empty (non-blocking attempts only).
    Empty,
    /// The producer side is gone: the loader thread died.
    Disconnected,
}

/// What the host must do after a receive attempt.
#[derive(Clone, Copy, Debug, PartialEq, Eq, Structural)]
pub enum StreamAction {
    /// Hand the received image to the caller.
    Deliver,
    /// Report that no image is ready yet.
    NoImage,
    /// Sleep this many milliseconds, then spawn a fresh loader with a
    /// fresh catalog snapshot, abandoning the dead one.
    Reconnect(u64),
}

/// The stream's recovery state machine. The host calls `on_poll` with the
/// outcome of every receive attempt, blocking or not, and performs the
/// returned action; repeated calls from the single render thread are safe
/// because the state is nothing but the backoff delay.
pub struct ImageStream {
    pub backoff: Backoff,
}

impl ImageStream {
    pub open spec fn wf(self) -> bool {
        self.backoff.wf()
    }

    pub fn new() -> (r: ImageStream)
        ensures
            r.wf(),
            r.backoff.timeout_ms == INITIAL_TIMEOUT_MS,
    {
        ImageStream { backoff: Backoff::new() }
    }

    /// Decides what follows one receive attempt: a received image is
    /// delivered and ends the backoff streak; an empty queue is reported
    /// as such and changes nothing; a disconnect demands a reconnect
    /// after exactly the current backoff delay, which then doubles
    /// (capped). A non-blocking caller returns no image on a disconnect
    /// and succeeds on a later poll; a blocking caller retries after the
    /// reconnect.
    pub fn on_poll(&mut self, outcome: PollOutcome) -> (act: StreamAction)
        requires
            old(self).wf(),
        ensures
            final(self).wf(),
            outcome == PollOutcome::Received ==> act == StreamAction::Deliver
                && final(self).backoff.timeout_ms == INITIAL_TIMEOUT_MS,
            outcome == PollOutcome::Empty ==> act == StreamAction::NoImage
                && *final(self) == *old(self),
            outcome == PollOutcome::Disconnected ==> act == StreamAction::Reconnect(
                old(self).backoff.timeout_ms,
            ) && final(self).backoff.timeout_ms == if 2 * old(self).backoff.timeout_ms
                <= TIMEOUT_CAP_MS {
                2 * old(self).backoff.timeout_ms
            } else {
                TIMEOUT_CAP_MS as int
            },
    {
        match outcome {
            PollOutcome::Received => {
                self.backoff.reset();
                StreamAction::Deliver
            },
            PollOutcome::Empty => StreamAction::NoImage,
            PollOutcome::Disconnected => {
                let delay = self.backoff.next_delay();
                StreamAction::Reconnect(delay)
            },
        }
    }
}

} // verus!
