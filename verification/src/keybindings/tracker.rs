//! The keys pressed so far toward a binding, forgotten after a pause.
use vstd::prelude::*;

use std::time::{Duration, Instant};

use crate::keybindings::key_sequence::{normalize, normalize_stroke, KeyStroke};

verus! {

#[verifier::external_type_specification]
#[verifier::external_body]
pub struct ExInstant(Instant);

/// The current instant (`Instant::now`); nothing is known of it.
#[verifier::external_body]
fn instant_now() -> Instant {
    Instant::now()
}

/// The time from `earlier` to `later` (`Instant::duration_since`); what it
/// is depends on the clock.
#[verifier::external_body]
fn duration_since(later: &Instant, earlier: &Instant) -> Duration {
    later.duration_since(*earlier)
}

/// The length of a duration in nanoseconds (`Duration::as_nanos`); the
/// duration is opaque here, so nothing is said of the number.
#[verifier::external_body]
fn nanos(d: &Duration) -> u128 {
    d.as_nanos()
}

/// The keys pressed toward a binding, the instant of the last one, and the
/// pause (in milliseconds) after which they are forgotten.
#[derive(Debug)]
pub struct KeySequenceTracker {
    sequence: Vec<KeyStroke>,
    last_key_time: Instant,
    timeout_ms: u64,
}

impl KeySequenceTracker {
    /// The keys pressed so far, normalized.
    pub closed spec fn keys(self) -> Seq<KeyStroke> {
        self.sequence@
    }

    /// The pause, in milliseconds, after which the keys are forgotten.
    pub closed spec fn timeout(self) -> u64 {
        self.timeout_ms
    }

    /// No keys yet, forgotten after a pause of `timeout_ms` milliseconds.
    pub fn new(timeout_ms: u64) -> (res: Self)
        ensures
            res.keys() == Seq::<KeyStroke>::empty(),
            res.timeout() == timeout_ms,
    {
        KeySequenceTracker { sequence: Vec::new(), last_key_time: instant_now(), timeout_ms }
    }

    /// Forgets the keys pressed so far.
    pub fn reset(&mut self)
        ensures
            final(self).keys() == Seq::<KeyStroke>::empty(),
            final(self).timeout() == old(self).timeout(),
    {
        self.sequence.clear();
        self.last_key_time = instant_now();
    }

    /// Whether a pause of `elapsed_nanos` nanoseconds is longer than the
    /// timeout.
    pub fn timed_out(&self, elapsed_nanos: u128) -> (res: bool)
        ensures
            res == (elapsed_nanos > self.timeout() * 1_000_000),
    {
        elapsed_nanos > (self.timeout_ms as u128) * 1_000_000
    }

    /// Adds a key pressed at `now`: the keys so far are forgotten first when
    /// `expired` (the pause before it was too long); the key is kept
    /// normalized.
    pub fn add_key_after(&mut self, stroke: KeyStroke, expired: bool, now: Instant)
        ensures
            final(self).keys() == (if expired {
                Seq::<KeyStroke>::empty()
            } else {
                old(self).keys()
            }).push(normalize(stroke)),
            final(self).timeout() == old(self).timeout(),
    {
        if expired {
            self.reset();
        }
        self.sequence.push(normalize_stroke(stroke));
        self.last_key_time = now;
    }

    /// Adds a key pressed now; the keys so far are forgotten first when the
    /// pause since the last key is longer than the timeout. The clock
    /// decides which, so either may happen.
    pub fn add_key(&mut self, stroke: KeyStroke)
        ensures
            final(self).keys() == old(self).keys().push(normalize(stroke)) || final(self).keys() == seq![
                normalize(stroke),
            ],
            final(self).timeout() == old(self).timeout(),
    {
        let now = instant_now();
        let elapsed = duration_since(&now, &self.last_key_time);
        let expired = self.timed_out(nanos(&elapsed));
        self.add_key_after(stroke, expired, now);
        proof {
            assert(Seq::<KeyStroke>::empty().push(normalize(stroke)) =~= seq![normalize(stroke)]);
        }
    }

    /// The keys pressed so far.
    pub fn sequence(&self) -> (res: &[KeyStroke])
        ensures
            res@ == self.keys(),
    {
        self.sequence.as_slice()
    }
}

} // verus!
