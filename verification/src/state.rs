//! The shared view of the primary backend: how much of its capacity is in use
//! and whether the last poll of its metrics succeeded.

use crate::metrics::{lossy_text, parse_metrics_body, sample_of, MetricsSample};
use vstd::prelude::*;

verus! {

/// A share of a capacity: `used` units out of `capacity`, kept as the two
/// counters so that it is exact. Nothing bounds `used` by `capacity`.
///
/// A capacity of zero admits no quotient. Such a ratio counts as saturated: it
/// reaches every threshold (see `reaches`).
#[derive(Clone, Copy, Debug, PartialEq, Eq)]
pub struct Ratio {
    pub used: u64,
    pub capacity: u64,
}

impl Ratio {
    /// The ratio is at least `num / den`. With a capacity of zero it is so
    /// whatever the threshold.
    pub open spec fn reaches(self, num: u64, den: u64) -> bool {
        self.capacity == 0 || self.used * den >= self.capacity * num
    }

    /// Compares the ratio with the threshold `num / den`, exactly.
    pub fn at_least(&self, num: u64, den: u64) -> (b: bool)
        ensures
            b == self.reaches(num, den),
    {
        if self.capacity == 0 {
            return true;
        }
        let used: u128 = self.used as u128;
        let capacity: u128 = self.capacity as u128;
        assert(used * den <= 0xFFFF_FFFF_FFFF_FFFF * 0xFFFF_FFFF_FFFF_FFFF) by (nonlinear_arith)
            requires
                0 <= used <= 0xFFFF_FFFF_FFFF_FFFF,
                0 <= den <= 0xFFFF_FFFF_FFFF_FFFF,
        ;
        assert(capacity * num <= 0xFFFF_FFFF_FFFF_FFFF * 0xFFFF_FFFF_FFFF_FFFF)
            by (nonlinear_arith)
            requires
                0 <= capacity <= 0xFFFF_FFFF_FFFF_FFFF,
                0 <= num <= 0xFFFF_FFFF_FFFF_FFFF,
        ;
        used * (den as u128) >= capacity * (num as u128)
    }
}

impl MetricsSample {
    /// The ratio that the sample gives: used by maximum, where it holds both
    /// counters.
    pub open spec fn reading(self) -> Option<Ratio> {
        match (self.used_units, self.max_units) {
            (Some(used), Some(max)) => Some(Ratio { used, capacity: max }),
            _ => None,
        }
    }

    /// Computes the ratio of the sample. `None` says that the sample lacks a
    /// counter and gives no ratio.
    pub fn ratio(&self) -> (reading: Option<Ratio>)
        ensures
            reading == self.reading(),
    {
        match (self.used_units, self.max_units) {
            (Some(used), Some(max)) => Some(Ratio { used, capacity: max }),
            _ => None,
        }
    }
}

/// What is known of the primary backend. The two fields change together, by
/// one of the functions below, which hand out a whole new state.
#[derive(Clone, Copy, Debug, PartialEq, Eq)]
pub struct MetricsState {
    /// The ratio that the last successful poll gave.
    pub utilization_ratio: Ratio,
    /// Whether the last poll succeeded.
    pub primary_online: bool,
}

/// How one fetch of the metrics document ended.
#[derive(Debug, PartialEq, Eq)]
pub enum PollOutcome {
    /// No response came, or its body could not be read.
    Failed,
    /// The body of the response.
    Body(Vec<u8>),
}

impl PollOutcome {
    /// The ratio that the outcome gives, if any: that of the sample read from
    /// the body.
    pub open spec fn reading(self) -> Option<Ratio> {
        match self {
            PollOutcome::Failed => None,
            PollOutcome::Body(body) => sample_of(lossy_text(body@)).reading(),
        }
    }
}

impl MetricsState {
    /// The state before the first poll: nothing in use, and the primary taken
    /// to be online.
    pub open spec fn initial() -> MetricsState {
        MetricsState { utilization_ratio: Ratio { used: 0, capacity: 1 }, primary_online: true }
    }

    /// The state after a poll that gave `reading`. A poll that gave a ratio
    /// sets it and marks the primary online; one that gave none marks the
    /// primary offline and keeps the ratio of before.
    pub open spec fn after(self, reading: Option<Ratio>) -> MetricsState {
        match reading {
            Some(ratio) => MetricsState { utilization_ratio: ratio, primary_online: true },
            None => MetricsState {
                utilization_ratio: self.utilization_ratio,
                primary_online: false,
            },
        }
    }

    /// Makes the state that holds before the first poll.
    pub fn new() -> (state: MetricsState)
        ensures
            state == MetricsState::initial(),
    {
        MetricsState { utilization_ratio: Ratio { used: 0, capacity: 1 }, primary_online: true }
    }

    /// Takes in what a poll gave.
    pub fn record(self, reading: Option<Ratio>) -> (next: MetricsState)
        ensures
            next == self.after(reading),
    {
        match reading {
            Some(ratio) => MetricsState { utilization_ratio: ratio, primary_online: true },
            None => MetricsState {
                utilization_ratio: self.utilization_ratio,
                primary_online: false,
            },
        }
    }

    /// Takes in the outcome of one fetch of the metrics document: a failed
    /// fetch gives no ratio, and a body gives the ratio of its sample.
    pub fn after_poll(self, outcome: &PollOutcome) -> (next: MetricsState)
        ensures
            next == self.after(outcome.reading()),
    {
        match outcome {
            PollOutcome::Failed => self.record(None),
            PollOutcome::Body(body) => {
                let sample = parse_metrics_body(body.as_slice());
                self.record(sample.ratio())
            },
        }
    }
}

} // verus!
