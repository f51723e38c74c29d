//! Telling a connection that has gone quiet from one that is merely idle.
//!
//! The peer sends keepalives at its own pace. The watchdog learns that pace
//! from the gaps between them and declares the connection lost when the
//! silence since the last one has grown well beyond it. All times are
//! counted in nanoseconds and compared exactly; nothing is rounded.

use vstd::prelude::*;
use crate::average::{lemma_sum_bound, push_bounded, sum_of, RunningAverage};

verus! {

/// How many gaps between keepalives the watchdog remembers.
pub const PING_WINDOW: usize = 10;

/// How many gaps must be known before their mean is trusted.
pub const PING_SAMPLES_NEEDED: usize = 3;

/// The silence, in seconds, that is allowed while the mean is not trusted yet.
pub const START_PING_THRESHOLD_SECS: u64 = 60;

/// The allowed silence is the mean gap times this numerator ...
pub const PING_BUFFER_NUMERATOR: u64 = 5;

/// ... over this denominator: five quarters of the mean.
pub const PING_BUFFER_DENOMINATOR: u64 = 4;

/// How many nanoseconds make a second.
pub const NANOS_PER_SEC: u64 = 1_000_000_000;

/// A point in time: the nanoseconds that have passed since some fixed
/// origin. Time is never rounded here; gaps and silences are measured in
/// nanoseconds as well.
#[derive(Clone, Copy, Debug, PartialEq, Eq, Structural)]
pub struct Timestamp {
    pub nanos: u64,
}

impl Timestamp {
    /// The time that has passed from `earlier` to `self`, in nanoseconds;
    /// `None` if `self` is the earlier of the two.
    pub open spec fn elapsed_since(self, earlier: Timestamp) -> Option<u64> {
        if self.nanos >= earlier.nanos {
            Some((self.nanos - earlier.nanos) as u64)
        } else {
            None
        }
    }

    /// The time that has passed from `earlier` to `self`, in nanoseconds.
    pub fn nanos_since(&self, earlier: &Timestamp) -> (elapsed: Option<u64>)
        ensures
            elapsed == self.elapsed_since(*earlier),
    {
        if self.nanos >= earlier.nanos {
            Some(self.nanos - earlier.nanos)
        } else {
            None
        }
    }
}

/// Whether a silence of `elapsed` nanoseconds is more than a peer with the
/// gaps `samples`, in nanoseconds too, is allowed: more than five quarters
/// of their mean once there are three of them, more than sixty seconds
/// before that. The mean is taken exactly: `elapsed > 5/4 * sum / count` is
/// written as `4 * count * elapsed > 5 * sum`.
pub open spec fn silence_exceeds(samples: Seq<u64>, elapsed: u64) -> bool {
    if samples.len() >= PING_SAMPLES_NEEDED {
        PING_BUFFER_DENOMINATOR * samples.len() * elapsed > PING_BUFFER_NUMERATOR * sum_of(
            samples,
        )
    } else {
        elapsed > START_PING_THRESHOLD_SECS * NANOS_PER_SEC
    }
}

/// The gaps known after a keepalive at `now`, given those known before it,
/// the time of the keepalive before it and whether there was one: the first
/// keepalive adds no gap, and neither does one that the clock puts before
/// its predecessor. Any other adds the time since its predecessor.
pub open spec fn gaps_after_keepalive(
    samples: Seq<u64>,
    last: Timestamp,
    seen_one: bool,
    now: Timestamp,
) -> Seq<u64> {
    match now.elapsed_since(last) {
        Some(elapsed) if seen_one => push_bounded(samples, elapsed, PING_WINDOW as nat),
        _ => samples,
    }
}

/// The liveness state of one connection attempt.
#[derive(Debug)]
pub struct Watchdog {
    ping_avg: RunningAverage,
    last_ping_time: Timestamp,
    have_ignored_first_ping: bool,
}

impl Watchdog {
    #[verifier::type_invariant]
    spec fn well_formed(&self) -> bool {
        &&& self.ping_avg.capacity() == PING_WINDOW
        &&& self.ping_avg@.len() <= PING_WINDOW
    }

    /// The gaps between keepalives that are remembered, oldest first.
    pub closed spec fn samples(&self) -> Seq<u64> {
        self.ping_avg@
    }

    /// When the last keepalive came, or when the watch began if none has.
    pub closed spec fn last_keepalive(&self) -> Timestamp {
        self.last_ping_time
    }

    /// Whether a keepalive has come since the watch began.
    pub closed spec fn seen_keepalive(&self) -> bool {
        self.have_ignored_first_ping
    }

    /// Begins the watch at `now`, with no gap known.
    pub fn new(now: Timestamp) -> (watchdog: Watchdog)
        ensures
            watchdog.samples() == Seq::<u64>::empty(),
            watchdog.last_keepalive() == now,
            !watchdog.seen_keepalive(),
    {
        Watchdog {
            ping_avg: RunningAverage::new(PING_WINDOW),
            last_ping_time: now,
            have_ignored_first_ping: false,
        }
    }

    /// Takes note of a keepalive that came at `now`.
    pub fn keepalive(&mut self, now: Timestamp)
        ensures
            final(self).samples() == gaps_after_keepalive(
                old(self).samples(),
                old(self).last_keepalive(),
                old(self).seen_keepalive(),
                now,
            ),
            final(self).samples().len() <= PING_WINDOW,
            final(self).last_keepalive() == now,
            final(self).seen_keepalive(),
    {
        proof {
            use_type_invariant(&*self);
        }
        if self.have_ignored_first_ping {
            if let Some(elapsed) = now.nanos_since(&self.last_ping_time) {
                let mut window = RunningAverage::new(PING_WINDOW);
                std::mem::swap(&mut window, &mut self.ping_avg);
                window.add(elapsed);
                self.ping_avg = window;
            }
        } else {
            self.have_ignored_first_ping = true;
        }
        self.last_ping_time = now;
    }

    /// Whether the peer has been silent for too long at `now`. A clock that
    /// puts `now` before the last keepalive proves nothing.
    pub fn is_silent(&self, now: Timestamp) -> (silent: bool)
        ensures
            silent == match now.elapsed_since(self.last_keepalive()) {
                Some(elapsed) => silence_exceeds(self.samples(), elapsed),
                None => false,
            },
    {
        proof {
            use_type_invariant(self);
        }
        match now.nanos_since(&self.last_ping_time) {
            None => false,
            Some(elapsed) => {
                let count = self.ping_avg.len();
                if count >= PING_SAMPLES_NEEDED {
                    match self.ping_avg.average() {
                        Ok(mean) => {
                            proof {
                                lemma_sum_bound(self.ping_avg@);
                                assert(self.ping_avg@.len() * u64::MAX <= 10 * u64::MAX)
                                    by (nonlinear_arith)
                                    requires
                                        self.ping_avg@.len() <= 10,
                                ;
                                assert(PING_BUFFER_NUMERATOR * mean.sum <= 50 * u64::MAX);
                                assert(4 * mean.count * elapsed <= 40 * u64::MAX)
                                    by (nonlinear_arith)
                                    requires
                                        mean.count <= 10,
                                        elapsed <= u64::MAX,
                                ;
                            }
                            let silence: u128 = PING_BUFFER_DENOMINATOR as u128 * mean.count as u128
                                * elapsed as u128;
                            let allowed: u128 = PING_BUFFER_NUMERATOR as u128 * mean.sum;
                            silence > allowed
                        },
                        Err(_) => false,
                    }
                } else {
                    elapsed > START_PING_THRESHOLD_SECS * NANOS_PER_SEC
                }
            },
        }
    }
}

} // verus!
