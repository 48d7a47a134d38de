//! Circuit breaker: fail fast while a downstream service is failing.
//!
//! Consecutive failures open the circuit; once the recovery timeout has
//! elapsed at most `half_open_max_requests` trial requests pass (half-open;
//! with a limit of zero none pass and the circuit stays open), and enough
//! successes close it again while a failure reopens it.
//!
//! The breaker here makes every decision; whether the recovery timeout has
//! elapsed since the circuit opened is a clock reading that the caller takes
//! and passes in. A caller that keeps the clock records the opening time
//! whenever a call moves the breaker into `Open` from another state.
use vstd::prelude::*;

verus! {

/// Circuit state.
#[derive(Debug, Clone, Copy, PartialEq, Eq, Structural)]
pub enum CircuitState {
    /// Normal operation.
    Closed,
    /// Failure detected: requests are refused at once.
    Open,
    /// Trial: a few requests pass to probe recovery.
    HalfOpen,
}

/// Circuit breaker limits.
#[derive(Debug, Clone, Copy)]
pub struct CircuitBreakerConfig {
    /// Consecutive failures that open the circuit.
    pub failure_threshold: u32,
    /// Requests let through while half-open.
    pub half_open_max_requests: u32,
}

impl Default for CircuitBreakerConfig {
    /// Five failures open the circuit; three trial requests while half-open.
    fn default() -> (c: Self)
        ensures
            c.failure_threshold == 5,
            c.half_open_max_requests == 3,
    {
        CircuitBreakerConfig { failure_threshold: 5, half_open_max_requests: 3 }
    }
}

/// Observable state of a breaker.
pub struct CircuitView {
    pub config: CircuitBreakerConfig,
    pub state: CircuitState,
    pub consecutive_failures: u32,
    pub half_open_requests: u32,
    pub half_open_successes: u32,
    pub transition_count: u64,
}

/// Move to `to`, counting the transition when the state actually changes.
pub open spec fn transition(s: CircuitView, to: CircuitState) -> CircuitView {
    if s.state == to {
        s
    } else {
        CircuitView { state: to, transition_count: (s.transition_count + 1) as u64, ..s }
    }
}

/// Effect of asking for a request: the new state and whether it may pass.
/// Once the recovery timeout has elapsed an open circuit turns half-open and
/// lets this request through as the first trial, unless no trial requests
/// are allowed at all, in which case it stays open and refuses.
pub open spec fn allow_step(s: CircuitView, recovery_elapsed: bool) -> (CircuitView, bool) {
    match s.state {
        CircuitState::Closed => (s, true),
        CircuitState::Open => {
            if recovery_elapsed && s.config.half_open_max_requests > 0 {
                (
                    CircuitView {
                        half_open_requests: 1,
                        half_open_successes: 0,
                        ..transition(s, CircuitState::HalfOpen)
                    },
                    true,
                )
            } else {
                (s, false)
            }
        },
        CircuitState::HalfOpen => {
            if s.half_open_requests < s.config.half_open_max_requests {
                (CircuitView { half_open_requests: (s.half_open_requests + 1) as u32, ..s }, true)
            } else {
                (s, false)
            }
        },
    }
}

/// Effect of a success.
pub open spec fn success_step(s: CircuitView) -> CircuitView {
    match s.state {
        CircuitState::Closed => CircuitView { consecutive_failures: 0, ..s },
        CircuitState::HalfOpen => {
            let t = CircuitView { half_open_successes: (s.half_open_successes + 1) as u32, ..s };
            if t.half_open_successes >= s.config.half_open_max_requests {
                CircuitView { consecutive_failures: 0, ..transition(t, CircuitState::Closed) }
            } else {
                t
            }
        },
        CircuitState::Open => s,
    }
}

/// Effect of a failure.
pub open spec fn failure_step(s: CircuitView) -> CircuitView {
    match s.state {
        CircuitState::Closed => {
            let t = CircuitView { consecutive_failures: (s.consecutive_failures + 1) as u32, ..s };
            if t.consecutive_failures >= s.config.failure_threshold {
                transition(t, CircuitState::Open)
            } else {
                t
            }
        },
        CircuitState::HalfOpen => transition(s, CircuitState::Open),
        CircuitState::Open => s,
    }
}

/// Effect of a manual reset.
pub open spec fn reset_step(s: CircuitView) -> CircuitView {
    CircuitView {
        consecutive_failures: 0,
        half_open_requests: 0,
        half_open_successes: 0,
        ..transition(s, CircuitState::Closed)
    }
}

/// Circuit breaker.
#[derive(Debug)]
pub struct CircuitBreaker {
    config: CircuitBreakerConfig,
    state: CircuitState,
    consecutive_failures: u32,
    half_open_requests: u32,
    half_open_successes: u32,
    transition_count: u64,
}

impl View for CircuitBreaker {
    type V = CircuitView;

    closed spec fn view(&self) -> CircuitView {
        CircuitView {
            config: self.config,
            state: self.state,
            consecutive_failures: self.consecutive_failures,
            half_open_requests: self.half_open_requests,
            half_open_successes: self.half_open_successes,
            transition_count: self.transition_count,
        }
    }
}

/// The counters stay within their bounds: while closed the failure count is
/// below the threshold (or zero); while half-open the success count is below
/// the limit (or zero) and between one and the limit trial requests have
/// passed.
pub open spec fn counters_bounded(s: CircuitView) -> bool {
    &&& s.state == CircuitState::Closed ==> (s.consecutive_failures == 0
        || s.consecutive_failures < s.config.failure_threshold)
    &&& s.state == CircuitState::HalfOpen ==> (s.half_open_successes == 0
        || s.half_open_successes < s.config.half_open_max_requests)
    &&& s.state == CircuitState::HalfOpen ==> 1 <= s.half_open_requests
        <= s.config.half_open_max_requests
}

impl CircuitBreaker {
    /// The breaker is well formed.
    pub open spec fn wf(&self) -> bool {
        counters_bounded(self@)
    }

    /// A closed breaker with all counters at zero.
    pub fn new(config: CircuitBreakerConfig) -> (cb: Self)
        ensures
            cb.wf(),
            cb@ == (CircuitView {
                config,
                state: CircuitState::Closed,
                consecutive_failures: 0,
                half_open_requests: 0,
                half_open_successes: 0,
                transition_count: 0,
            }),
    {
        CircuitBreaker {
            config,
            state: CircuitState::Closed,
            consecutive_failures: 0,
            half_open_requests: 0,
            half_open_successes: 0,
            transition_count: 0,
        }
    }

    /// A breaker with the default limits.
    pub fn with_defaults() -> (cb: Self)
        ensures
            cb.wf(),
            cb@ == (CircuitView {
                config: CircuitBreakerConfig { failure_threshold: 5, half_open_max_requests: 3 },
                state: CircuitState::Closed,
                consecutive_failures: 0,
                half_open_requests: 0,
                half_open_successes: 0,
                transition_count: 0,
            }),
    {
        Self::new(CircuitBreakerConfig::default())
    }

    /// Current state.
    pub fn state(&self) -> (st: CircuitState)
        ensures
            st == self@.state,
    {
        self.state
    }

    fn transition_to(&mut self, new_state: CircuitState)
        requires
            old(self).transition_count < u64::MAX,
        ensures
            final(self)@ == transition(old(self)@, new_state),
    {
        if self.state != new_state {
            self.state = new_state;
            self.transition_count = self.transition_count + 1;
        }
    }

    /// Whether a request may pass. `recovery_elapsed` says whether the
    /// recovery timeout has elapsed since the circuit opened; it matters only
    /// while open, where it moves the breaker to half-open and lets this first
    /// trial request through.
    pub fn allow_request(&mut self, recovery_elapsed: bool) -> (allowed: bool)
        requires
            old(self).wf(),
            old(self)@.transition_count < u64::MAX,
        ensures
            final(self).wf(),
            (final(self)@, allowed) == allow_step(old(self)@, recovery_elapsed),
            old(self)@.state == CircuitState::Closed ==> allowed && final(self)@ == old(self)@,
    {
        match self.state {
            CircuitState::Closed => true,
            CircuitState::Open => {
                if recovery_elapsed && self.config.half_open_max_requests > 0 {
                    self.transition_to(CircuitState::HalfOpen);
                    self.half_open_requests = 1;
                    self.half_open_successes = 0;
                    true
                } else {
                    false
                }
            },
            CircuitState::HalfOpen => {
                if self.half_open_requests < self.config.half_open_max_requests {
                    self.half_open_requests = self.half_open_requests + 1;
                    true
                } else {
                    false
                }
            },
        }
    }

    /// Record a success.
    pub fn record_success(&mut self)
        requires
            old(self).wf(),
            old(self)@.transition_count < u64::MAX,
        ensures
            final(self).wf(),
            final(self)@ == success_step(old(self)@),
            old(self)@.state == CircuitState::HalfOpen ==> ((final(self)@.state
                == CircuitState::Closed) <==> old(self)@.half_open_successes + 1
                >= old(self)@.config.half_open_max_requests),
            old(self)@.state == CircuitState::HalfOpen && old(self)@.half_open_successes + 1
                < old(self)@.config.half_open_max_requests ==> final(self)@.state
                == CircuitState::HalfOpen && final(self)@.half_open_successes
                == old(self)@.half_open_successes + 1,
    {
        match self.state {
            CircuitState::Closed => {
                self.consecutive_failures = 0;
            },
            CircuitState::HalfOpen => {
                self.half_open_successes = self.half_open_successes + 1;
                if self.half_open_successes >= self.config.half_open_max_requests {
                    self.transition_to(CircuitState::Closed);
                    self.consecutive_failures = 0;
                }
            },
            CircuitState::Open => {},
        }
    }

    /// Record a failure.
    pub fn record_failure(&mut self)
        requires
            old(self).wf(),
            old(self)@.transition_count < u64::MAX,
        ensures
            final(self).wf(),
            final(self)@ == failure_step(old(self)@),
    {
        match self.state {
            CircuitState::Closed => {
                self.consecutive_failures = self.consecutive_failures + 1;
                if self.consecutive_failures >= self.config.failure_threshold {
                    self.transition_to(CircuitState::Open);
                }
            },
            CircuitState::HalfOpen => {
                self.transition_to(CircuitState::Open);
            },
            CircuitState::Open => {},
        }
    }

    /// Number of consecutive failures.
    pub fn consecutive_failures(&self) -> (n: u32)
        ensures
            n == self@.consecutive_failures,
    {
        self.consecutive_failures
    }

    /// Number of state transitions so far.
    pub fn transition_count(&self) -> (n: u64)
        ensures
            n == self@.transition_count,
    {
        self.transition_count
    }

    /// Manual reset: back to closed with all counters cleared.
    pub fn reset(&mut self)
        requires
            old(self)@.transition_count < u64::MAX,
        ensures
            final(self).wf(),
            final(self)@ == reset_step(old(self)@),
    {
        self.transition_to(CircuitState::Closed);
        self.consecutive_failures = 0;
        self.half_open_requests = 0;
        self.half_open_successes = 0;
    }
}

/// `n` failures in a row.
pub open spec fn failures(s: CircuitView, n: nat) -> CircuitView
    decreases n,
{
    if n == 0 {
        s
    } else {
        failure_step(failures(s, (n - 1) as nat))
    }
}

/// From a closed breaker with no failures, `failure_threshold` consecutive
/// failures open the circuit, and fewer leave it closed.
pub proof fn lemma_threshold_failures_open(s: CircuitView, n: nat)
    requires
        s.state == CircuitState::Closed,
        s.consecutive_failures == 0,
        1 <= s.config.failure_threshold,
        s.transition_count < u64::MAX,
        n <= s.config.failure_threshold,
    ensures
        failures(s, n).config == s.config,
        n < s.config.failure_threshold ==> failures(s, n).state == CircuitState::Closed
            && failures(s, n).consecutive_failures == n,
        n == s.config.failure_threshold ==> failures(s, n).state == CircuitState::Open,
    decreases n,
{
    if n > 0 {
        lemma_threshold_failures_open(s, (n - 1) as nat);
        let prev = failures(s, (n - 1) as nat);
        assert(failures(s, n) == failure_step(prev));
    }
}

/// Every step counts a transition exactly when it changes the state, and
/// never touches the limits.
pub proof fn lemma_transitions_counted(s: CircuitView, recovery_elapsed: bool)
    requires
        s.transition_count < u64::MAX,
    ensures
        ({
            let a = allow_step(s, recovery_elapsed).0;
            &&& a.config == s.config
            &&& a.transition_count == s.transition_count + if a.state != s.state {
                1int
            } else {
                0int
            }
        }),
        ({
            let a = success_step(s);
            &&& a.config == s.config
            &&& a.transition_count == s.transition_count + if a.state != s.state {
                1int
            } else {
                0int
            }
        }),
        ({
            let a = failure_step(s);
            &&& a.config == s.config
            &&& a.transition_count == s.transition_count + if a.state != s.state {
                1int
            } else {
                0int
            }
        }),
        ({
            let a = reset_step(s);
            &&& a.config == s.config
            &&& a.transition_count == s.transition_count + if a.state != s.state {
                1int
            } else {
                0int
            }
        }),
{
}

/// While open and before the recovery timeout, requests are refused and
/// nothing changes; a failure while half-open reopens the circuit.
pub proof fn lemma_open_refuses_and_half_open_failure_reopens(s: CircuitView)
    requires
        s.transition_count < u64::MAX,
    ensures
        s.state == CircuitState::Open ==> allow_step(s, false) == (s, false),
        s.state == CircuitState::HalfOpen ==> failure_step(s).state == CircuitState::Open,
{
}

/// While half-open a request is let through exactly when fewer than
/// `half_open_max_requests` trial requests have passed, and the count of
/// passed trial requests never exceeds the limit.
pub proof fn lemma_half_open_limit(s: CircuitView, recovery_elapsed: bool)
    requires
        s.state == CircuitState::HalfOpen,
    ensures
        allow_step(s, recovery_elapsed).1 <==> s.half_open_requests
            < s.config.half_open_max_requests,
        s.half_open_requests <= s.config.half_open_max_requests ==> allow_step(
            s,
            recovery_elapsed,
        ).0.half_open_requests <= s.config.half_open_max_requests,
{
}

/// Enough successes while half-open close the circuit with no failures
/// recorded; a reset always leaves it closed with no failures.
pub proof fn lemma_success_closes_and_reset_closes(s: CircuitView)
    requires
        counters_bounded(s),
        s.transition_count < u64::MAX,
    ensures
        s.state == CircuitState::HalfOpen && s.half_open_successes + 1
            >= s.config.half_open_max_requests ==> success_step(s).state == CircuitState::Closed
            && success_step(s).consecutive_failures == 0,
        reset_step(s).state == CircuitState::Closed,
        reset_step(s).consecutive_failures == 0,
{
}

/// An event the breaker reacts to.
pub enum CircuitEvent {
    /// A request asks to pass; whether the recovery timeout has elapsed.
    Request(bool),
    Success,
    Failure,
    Reset,
}

/// Effect of one event: the new state and whether a request passed.
pub open spec fn event_step(s: CircuitView, e: CircuitEvent) -> (CircuitView, bool) {
    match e {
        CircuitEvent::Request(elapsed) => allow_step(s, elapsed),
        CircuitEvent::Success => (success_step(s), false),
        CircuitEvent::Failure => (failure_step(s), false),
        CircuitEvent::Reset => (reset_step(s), false),
    }
}

/// The state after a sequence of events, and how many requests passed.
pub open spec fn run_events(s: CircuitView, events: Seq<CircuitEvent>) -> (CircuitView, nat)
    decreases events.len(),
{
    if events.len() == 0 {
        (s, 0)
    } else {
        let (t, n) = run_events(s, events.drop_last());
        let (u, passed) = event_step(t, events.last());
        (u, if passed {
            n + 1
        } else {
            n
        })
    }
}

/// After each of the events the breaker is half-open.
pub open spec fn half_open_throughout(s: CircuitView, events: Seq<CircuitEvent>) -> bool
    decreases events.len(),
{
    if events.len() == 0 {
        true
    } else {
        half_open_throughout(s, events.drop_last()) && run_events(s, events).0.state
            == CircuitState::HalfOpen
    }
}

/// One half-open episode admits at most `half_open_max_requests` requests:
/// from an open breaker, over any events after each of which the breaker is
/// half-open (the first one turning it half-open), the number of requests let
/// through equals the trial count and never exceeds the limit.
pub proof fn lemma_half_open_episode_limit(s: CircuitView, events: Seq<CircuitEvent>)
    requires
        s.state == CircuitState::Open,
        half_open_throughout(s, events),
    ensures
        run_events(s, events).0.config == s.config,
        events.len() > 0 ==> run_events(s, events).1 == run_events(s, events).0.half_open_requests,
        run_events(s, events).1 <= s.config.half_open_max_requests,
    decreases events.len(),
{
    if events.len() > 0 {
        let prev = events.drop_last();
        assert(half_open_throughout(s, prev));
        lemma_half_open_episode_limit(s, prev);
        if prev.len() == 0 {
            assert(run_events(s, prev) == (s, 0nat));
        } else {
            assert(half_open_throughout(s, prev) ==> run_events(s, prev).0.state
                == CircuitState::HalfOpen);
        }
    }
}

/// A success while half-open with `k` successes already recorded closes the
/// circuit exactly when `k + 1` reaches `half_open_max_requests`; otherwise the
/// breaker stays half-open with `k + 1` successes and the same number of trial
/// requests passed.
pub proof fn lemma_half_open_success_count(s: CircuitView)
    requires
        s.state == CircuitState::HalfOpen,
        s.half_open_successes < u32::MAX,
        s.transition_count < u64::MAX,
    ensures
        (success_step(s).state == CircuitState::Closed) <==> s.half_open_successes + 1
            >= s.config.half_open_max_requests,
        success_step(s).state != CircuitState::Closed ==> success_step(s).state
            == CircuitState::HalfOpen && success_step(s).half_open_successes
            == s.half_open_successes + 1 && success_step(s).half_open_requests
            == s.half_open_requests,
{
}

/// Asking for a request while closed lets it through and changes nothing,
/// whatever the clock says.
pub proof fn lemma_closed_admits_unchanged(s: CircuitView, recovery_elapsed: bool)
    requires
        s.state == CircuitState::Closed,
    ensures
        allow_step(s, recovery_elapsed) == (s, true),
{
}

/// Number of failures among the events.
pub open spec fn failure_count(events: Seq<CircuitEvent>) -> nat
    decreases events.len(),
{
    if events.len() == 0 {
        0
    } else {
        failure_count(events.drop_last()) + if events.last() is Failure {
            1nat
        } else {
            0nat
        }
    }
}

/// Requests do not clear the failure count: from a closed breaker with no
/// failures, over any requests and failures (no success, no reset), while
/// fewer than `failure_threshold` failures have been recorded the breaker stays
/// closed, counts every failure and lets every request through; the failure
/// that reaches `failure_threshold` opens the circuit.
pub proof fn lemma_failures_between_requests_open(s: CircuitView, events: Seq<CircuitEvent>)
    requires
        s.state == CircuitState::Closed,
        s.consecutive_failures == 0,
        1 <= s.config.failure_threshold,
        s.transition_count < u64::MAX,
        forall|i: int| 0 <= i < events.len() ==> (#[trigger] events[i] is Request || events[i] is Failure),
    ensures
        failure_count(events) < s.config.failure_threshold ==> {
            &&& run_events(s, events).0.state == CircuitState::Closed
            &&& run_events(s, events).0.consecutive_failures == failure_count(events)
            &&& run_events(s, events).0.config == s.config
            &&& run_events(s, events).0.transition_count == s.transition_count
            &&& run_events(s, events).1 == events.len() - failure_count(events)
        },
        failure_count(events) == s.config.failure_threshold && events.len() > 0
            && events.last() is Failure ==> run_events(s, events).0.state == CircuitState::Open,
    decreases events.len(),
{
    if events.len() > 0 {
        let prev = events.drop_last();
        assert forall|i: int| 0 <= i < prev.len() implies (#[trigger] prev[i] is Request
            || prev[i] is Failure) by {
            assert(prev[i] == events[i]);
        }
        lemma_failures_between_requests_open(s, prev);
        assert(events[events.len() - 1] == events.last());
    }
}

} // verus!
