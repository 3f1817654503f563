//! A single-use stopwatch on the monotonic clock.
//!
//! A timer reports into a histogram at most once. A second report is not an
//! error: it is ignored, and the call says so in its result.

use crate::clock::{duration_micros, instant_elapsed, instant_now};
use crate::metrics::{MetricHistogram, MetricsRegistry};
use std::time::Instant;
use vstd::prelude::*;

verus! {

/// The microseconds in a `u128`, held at `u64::MAX`.
pub open spec fn clamp_micros(micros: u128) -> u64 {
    if micros <= u64::MAX {
        micros as u64
    } else {
        u64::MAX
    }
}

/// `clamp_micros`, computed.
pub fn clamped(micros: u128) -> (held: u64)
    ensures
        held == clamp_micros(micros),
{
    if micros <= u64::MAX as u128 {
        micros as u64
    } else {
        u64::MAX
    }
}

/// A stopwatch started at a reading of the monotonic clock.
pub struct RequestTimer {
    started: Instant,
    observed: bool,
}

impl RequestTimer {
    /// Whether the timer has reported already.
    pub closed spec fn is_observed(&self) -> bool {
        self.observed
    }

    /// The reading the timer was started at.
    pub closed spec fn origin(&self) -> Instant {
        self.started
    }

    /// Starts a timer now.
    pub fn start() -> (timer: RequestTimer)
        ensures
            !timer.is_observed(),
    {
        RequestTimer { started: instant_now(), observed: false }
    }

    /// The microseconds since the start, held at `u64::MAX`. The value is
    /// the clock's: nothing is promised of it.
    pub fn elapsed(&self) -> (micros: u64) {
        let gone = instant_elapsed(&self.started);
        clamped(duration_micros(&gone))
    }

    /// Whether the timer has reported already.
    pub fn observed(&self) -> (done: bool)
        ensures
            done == self.is_observed(),
    {
        self.observed
    }

    /// Reports `elapsed` into `histogram`, unless the timer has reported
    /// before. Says whether it reported.
    pub fn record_into(&mut self, histogram: &mut MetricHistogram, elapsed: u64) -> (recorded:
        bool)
        ensures
            recorded == !old(self).is_observed(),
            final(self).is_observed(),
            final(self).origin() == old(self).origin(),
            final(histogram)@ == (if recorded {
                old(histogram)@.observe(elapsed)
            } else {
                old(histogram)@
            }),
    {
        if self.observed {
            false
        } else {
            histogram.observe(elapsed);
            self.observed = true;
            true
        }
    }

    /// Reports the time since the start into `histogram`, unless the timer
    /// has reported before. Returns what it reported.
    pub fn observe_into(&mut self, histogram: &mut MetricHistogram) -> (recorded: Option<u64>)
        ensures
            recorded is Some <==> !old(self).is_observed(),
            final(self).is_observed(),
            final(self).origin() == old(self).origin(),
            final(histogram)@ == (match recorded {
                Some(elapsed) => old(histogram)@.observe(elapsed),
                None => old(histogram)@,
            }),
    {
        let elapsed: u64 = self.elapsed();
        if self.record_into(histogram, elapsed) {
            Some(elapsed)
        } else {
            None
        }
    }

    /// Reports `elapsed` into the histogram `name` of `registry`, unless the
    /// timer has reported before. Says whether it reported.
    pub fn record_in(&mut self, registry: &mut MetricsRegistry, name: &str, elapsed: u64) -> (recorded:
        bool)
        ensures
            recorded == !old(self).is_observed(),
            final(self).is_observed(),
            final(self).origin() == old(self).origin(),
            final(registry)@ == (if recorded {
                old(registry)@.observe(name@, elapsed)
            } else {
                old(registry)@
            }),
            old(registry)@.wf() ==> final(registry)@.wf(),
    {
        if self.observed {
            false
        } else {
            registry.observe(name, elapsed);
            self.observed = true;
            true
        }
    }

    /// Reports the time since the start into the histogram `name` of
    /// `registry`, unless the timer has reported before. Returns what it
    /// reported.
    pub fn observe_in(&mut self, registry: &mut MetricsRegistry, name: &str) -> (recorded: Option<
        u64,
    >)
        ensures
            recorded is Some <==> !old(self).is_observed(),
            final(self).is_observed(),
            final(self).origin() == old(self).origin(),
            final(registry)@ == (match recorded {
                Some(elapsed) => old(registry)@.observe(name@, elapsed),
                None => old(registry)@,
            }),
            old(registry)@.wf() ==> final(registry)@.wf(),
    {
        let elapsed: u64 = self.elapsed();
        if self.record_in(registry, name, elapsed) {
            Some(elapsed)
        } else {
            None
        }
    }
}

} // verus!
