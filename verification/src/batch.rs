use vstd::prelude::*;

use crate::motion::{spec_queue, spec_take_events, PendingInput};
use crate::protocol::InputEvent;

verus! {

/// How many queued events the writer takes at once before it looks at the
/// clock.
pub const INPUT_BATCH_LIMIT: usize = 64;

/// Motion and wheel gathered since a moment, to be written together once
/// the flush interval has passed.
pub struct PendingBatch {
    pub pending: PendingInput,
    /// When the first event of the batch came, in milliseconds.
    pub since_ms: Option<u64>,
}

/// Milliseconds from `since` to `now`, zero when the clock went back.
pub open spec fn elapsed(since: u64, now: u64) -> u64 {
    if now >= since {
        (now - since) as u64
    } else {
        0
    }
}

impl PendingBatch {
    pub fn new() -> (r: PendingBatch)
        ensures
            r.pending == (PendingInput { delta: (0, 0), wheel: (0, 0) }),
            r.since_ms == None::<u64>,
    {
        PendingBatch { pending: PendingInput::new(), since_ms: None }
    }

    /// Adds a motion or wheel event; the batch starts now if it was empty.
    pub fn queue(&mut self, event: InputEvent, now_ms: u64)
        ensures
            final(self).pending == spec_queue(old(self).pending, event),
            final(self).since_ms == (match old(self).since_ms {
                Some(s) => Some(s),
                None => Some(now_ms),
            }),
    {
        if self.since_ms.is_none() {
            self.since_ms = Some(now_ms);
        }
        self.pending.queue(event);
    }

    /// The gathered events; the batch is empty again.
    pub fn flush(&mut self) -> (r: Vec<InputEvent>)
        ensures
            r@ == spec_take_events(old(self).pending),
            final(self).pending == (PendingInput { delta: (0, 0), wheel: (0, 0) }),
            final(self).since_ms == None::<u64>,
    {
        self.since_ms = None;
        self.pending.take_events()
    }

    /// Whether the batch has waited the flush interval.
    pub fn ready(&self, now_ms: u64, interval_ms: u64) -> (r: bool)
        ensures
            r == (self.since_ms matches Some(s) && elapsed(s, now_ms) >= interval_ms),
    {
        match self.since_ms {
            Some(s) => (if now_ms >= s {
                now_ms - s
            } else {
                0
            }) >= interval_ms,
            None => false,
        }
    }

    /// How long the writer may wait for the next event: the rest of the
    /// interval while a batch waits, without limit otherwise.
    pub fn wait_ms(&self, now_ms: u64, interval_ms: u64) -> (r: Option<u64>)
        ensures
            match self.since_ms {
                Some(s) => r == Some(if elapsed(s, now_ms) >= interval_ms {
                    0u64
                } else {
                    (interval_ms - elapsed(s, now_ms)) as u64
                }),
                None => r == None::<u64>,
            },
    {
        match self.since_ms {
            Some(s) => {
                let e: u64 = if now_ms >= s {
                    now_ms - s
                } else {
                    0
                };
                Some(if e >= interval_ms {
                    0
                } else {
                    interval_ms - e
                })
            },
            None => None,
        }
    }
}

} // verus!
