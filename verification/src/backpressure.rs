//! Watermark-based flow control.
//!
//! When downstream services saturate, ingest is throttled or rejected so that
//! memory and queues do not overflow. Throttling has hysteresis: it starts
//! when the in-flight count reaches the high watermark and stops only once
//! the count has fallen to the low watermark or below (never, without a low
//! watermark).
//!
//! The watermarks are in-flight counts. A watermark given as a fraction `w`
//! of `max_inflight` corresponds to the least count `n` whose fraction
//! `n / max_inflight` reaches `w` (high) or to the greatest count whose
//! fraction stays at or below `w` (low, absent when no count does); the
//! conversion lives with the program that reads such fractions.
use vstd::prelude::*;

verus! {

/// Flow control decision.
#[derive(Debug, Clone, Copy, PartialEq, Eq, Structural)]
pub enum FlowAction {
    /// Process normally.
    Allow,
    /// Slow down processing.
    Throttle,
    /// Do not accept new requests.
    Reject,
}

/// Backpressure limits.
#[derive(Debug, Clone, Copy)]
pub struct BackpressureConfig {
    /// Maximum number of requests in flight.
    pub max_inflight: u64,
    /// In-flight count at or above which throttling starts.
    pub high_watermark: u64,
    /// In-flight count at or below which throttling stops; `None`: it never
    /// stops once started.
    pub low_watermark: Option<u64>,
    /// Maximum queue length; reaching it rejects.
    pub max_queue_len: u64,
}

impl Default for BackpressureConfig {
    /// The default limits: 10 000 in flight, throttling from 80 % (8 000) down
    /// to 50 % (5 000), and a queue of 50 000.
    fn default() -> (c: Self)
        ensures
            c.max_inflight == 10_000,
            c.high_watermark == 8_000,
            c.low_watermark == Some(5_000u64),
            c.max_queue_len == 50_000,
    {
        BackpressureConfig {
            max_inflight: 10_000,
            high_watermark: 8_000,
            low_watermark: Some(5_000),
            max_queue_len: 50_000,
        }
    }
}

/// Observable state of a controller.
pub struct BackpressureView {
    pub config: BackpressureConfig,
    pub inflight: u64,
    pub queue_len: u64,
    pub throttling: bool,
    pub rejected_count: u64,
    pub throttled_count: u64,
}

/// Whether the limits reject outright in state `s`.
pub open spec fn rejects(s: BackpressureView) -> bool {
    s.queue_len >= s.config.max_queue_len || s.inflight >= s.config.max_inflight
}

/// Whether the in-flight count is at or below the low watermark.
pub open spec fn at_or_below_low(s: BackpressureView) -> bool {
    match s.config.low_watermark {
        Some(low) => s.inflight <= low,
        None => false,
    }
}

/// The throttling flag after one evaluation that did not reject.
pub open spec fn next_throttling(s: BackpressureView) -> bool {
    if s.inflight >= s.config.high_watermark {
        true
    } else if at_or_below_low(s) {
        false
    } else {
        s.throttling
    }
}

/// Backpressure controller.
#[derive(Debug)]
pub struct BackpressureController {
    config: BackpressureConfig,
    inflight: u64,
    queue_len: u64,
    throttling: bool,
    rejected_count: u64,
    throttled_count: u64,
}

impl View for BackpressureController {
    type V = BackpressureView;

    closed spec fn view(&self) -> BackpressureView {
        BackpressureView {
            config: self.config,
            inflight: self.inflight,
            queue_len: self.queue_len,
            throttling: self.throttling,
            rejected_count: self.rejected_count,
            throttled_count: self.throttled_count,
        }
    }
}

impl BackpressureController {
    /// A controller with nothing in flight, an empty queue, not throttling.
    pub fn new(config: BackpressureConfig) -> (c: Self)
        ensures
            c@.config == config,
            c@.inflight == 0,
            c@.queue_len == 0,
            !c@.throttling,
            c@.rejected_count == 0,
            c@.throttled_count == 0,
    {
        BackpressureController {
            config,
            inflight: 0,
            queue_len: 0,
            throttling: false,
            rejected_count: 0,
            throttled_count: 0,
        }
    }

    /// A controller with the default limits.
    pub fn with_defaults() -> (c: Self)
        ensures
            c@.config.max_inflight == 10_000,
            c@.config.high_watermark == 8_000,
            c@.config.low_watermark == Some(5_000u64),
            c@.config.max_queue_len == 50_000,
            c@.inflight == 0,
            c@.queue_len == 0,
            !c@.throttling,
            c@.rejected_count == 0,
            c@.throttled_count == 0,
    {
        Self::new(BackpressureConfig::default())
    }

    /// Evaluate the current state. A full queue or a full in-flight count
    /// rejects (and counts the rejection) without touching the throttling
    /// flag; otherwise the flag follows the watermarks with hysteresis and the
    /// result is `Throttle` (counted) while it is set, `Allow` when it is not.
    pub fn evaluate(&mut self) -> (a: FlowAction)
        requires
            old(self)@.rejected_count < u64::MAX,
            old(self)@.throttled_count < u64::MAX,
        ensures
            final(self)@.config == old(self)@.config,
            final(self)@.inflight == old(self)@.inflight,
            final(self)@.queue_len == old(self)@.queue_len,
            (a == FlowAction::Reject) <==> (old(self)@.queue_len >= old(self)@.config.max_queue_len
                || old(self)@.inflight >= old(self)@.config.max_inflight),
            old(self)@.queue_len < old(self)@.config.max_queue_len && old(self)@.inflight
                < old(self)@.config.max_inflight && old(self)@.inflight
                < old(self)@.config.high_watermark && !old(self)@.throttling ==> a
                == FlowAction::Allow,
            rejects(old(self)@) ==> {
                &&& a == FlowAction::Reject
                &&& final(self)@.throttling == old(self)@.throttling
                &&& final(self)@.rejected_count == old(self)@.rejected_count + 1
                &&& final(self)@.throttled_count == old(self)@.throttled_count
            },
            !rejects(old(self)@) ==> {
                &&& final(self)@.throttling == next_throttling(old(self)@)
                &&& final(self)@.rejected_count == old(self)@.rejected_count
                &&& a == if final(self)@.throttling {
                    FlowAction::Throttle
                } else {
                    FlowAction::Allow
                }
                &&& final(self)@.throttling ==> final(self)@.throttled_count
                    == old(self)@.throttled_count + 1
                &&& !final(self)@.throttling ==> final(self)@.throttled_count
                    == old(self)@.throttled_count
            },
    {
        if self.queue_len >= self.config.max_queue_len {
            self.rejected_count = self.rejected_count + 1;
            return FlowAction::Reject;
        }
        if self.inflight >= self.config.max_inflight {
            self.rejected_count = self.rejected_count + 1;
            return FlowAction::Reject;
        }
        let below_low = match self.config.low_watermark {
            Some(low) => self.inflight <= low,
            None => false,
        };
        if self.inflight >= self.config.high_watermark {
            self.throttling = true;
        } else if below_low {
            self.throttling = false;
        }
        if self.throttling {
            self.throttled_count = self.throttled_count + 1;
            FlowAction::Throttle
        } else {
            FlowAction::Allow
        }
    }

    /// Record the start of a request.
    pub fn on_request_start(&mut self)
        requires
            old(self)@.inflight < u64::MAX,
        ensures
            final(self)@ == (BackpressureView { inflight: (old(self)@.inflight + 1) as u64, ..old(self)@ }),
    {
        self.inflight = self.inflight + 1;
    }

    /// Record the completion of a request; the count never goes below zero.
    pub fn on_request_complete(&mut self)
        ensures
            final(self)@ == (BackpressureView {
                inflight: if old(self)@.inflight == 0 {
                    0
                } else {
                    (old(self)@.inflight - 1) as u64
                },
                ..old(self)@
            }),
    {
        self.inflight = self.inflight.saturating_sub(1);
    }

    /// Set the current queue length.
    pub fn update_queue_len(&mut self, len: u64)
        ensures
            final(self)@ == (BackpressureView { queue_len: len, ..old(self)@ }),
    {
        self.queue_len = len;
    }

    /// Current in-flight count.
    pub fn inflight(&self) -> (n: u64)
        ensures
            n == self@.inflight,
    {
        self.inflight
    }

    /// Whether the controller is throttling.
    pub fn is_throttling(&self) -> (b: bool)
        ensures
            b == self@.throttling,
    {
        self.throttling
    }

    /// Number of rejected evaluations.
    pub fn rejected_count(&self) -> (n: u64)
        ensures
            n == self@.rejected_count,
    {
        self.rejected_count
    }

    /// Number of throttled evaluations.
    pub fn throttled_count(&self) -> (n: u64)
        ensures
            n == self@.throttled_count,
    {
        self.throttled_count
    }
}

/// Hysteresis: strictly between the watermarks (above the low one, if any)
/// an evaluation keeps the throttling flag as it was, whatever it was.
pub proof fn lemma_hysteresis_band_keeps_state(s: BackpressureView)
    requires
        !at_or_below_low(s),
        s.inflight < s.config.high_watermark,
    ensures
        next_throttling(s) == s.throttling,
{
}

/// An evaluation that does not reject throttles exactly when the in-flight
/// count is at or above the high watermark, or is above the low watermark
/// (if there is one) while throttling was already on.
pub proof fn lemma_throttle_iff(s: BackpressureView)
    ensures
        next_throttling(s) <==> (s.inflight >= s.config.high_watermark || (s.throttling
            && !at_or_below_low(s))),
{
}

/// Starting a request and then completing it leaves the controller as it was.
pub proof fn lemma_start_then_complete(s: BackpressureView)
    requires
        s.inflight < u64::MAX,
    ensures
        ({
            let started = BackpressureView { inflight: (s.inflight + 1) as u64, ..s };
            let completed = BackpressureView {
                inflight: if started.inflight == 0 {
                    0
                } else {
                    (started.inflight - 1) as u64
                },
                ..started
            };
            completed == s
        }),
{
}

/// The limits reject exactly when the queue has reached `max_queue_len` or the
/// in-flight count has reached `max_inflight`; below both, with the in-flight
/// count under the high watermark and throttling off, the evaluation leaves
/// throttling off (so it allows), whatever the queue length.
pub proof fn lemma_reject_iff_limits(s: BackpressureView)
    ensures
        rejects(s) <==> (s.queue_len >= s.config.max_queue_len || s.inflight
            >= s.config.max_inflight),
        s.queue_len < s.config.max_queue_len && s.inflight < s.config.max_inflight && s.inflight
            < s.config.high_watermark && !s.throttling ==> !rejects(s) && !next_throttling(s),
{
}

} // verus!
