//! The circuit breaker core: a state machine over Closed, Open and HalfOpen
//! that records operation outcomes, keeps sliding windows of recent results,
//! and transitions under precise rules. Time enters only as explicit
//! millisecond arguments, so every decision here is a function of the
//! breaker's state and its inputs; the caller supplies a monotonic clock,
//! runs the gated operations, and delivers notifications to observers.

use std::collections::VecDeque;

use vstd::prelude::*;

verus! {

/// Represents the state of the circuit breaker.
#[derive(Debug, Clone, Copy, PartialEq, Eq, Hash, Structural)]
pub enum CircuitState {
    /// The circuit is closed, operations are allowed.
    Closed,
    /// The circuit is open, operations are rejected immediately.
    Open,
    /// The circuit is partially open, allowing a limited number of test
    /// operations.
    HalfOpen,
}

/// Type of operation outcome.
#[derive(Debug, Clone, Copy, PartialEq, Eq, Hash, Structural)]
pub enum CircuitOperationType {
    Success,
    Failure,
    /// Rejected by the circuit breaker, when Open or at the HalfOpen limit.
    Rejected,
    /// The operation itself timed out.
    Timeout,
}

/// Represents an event of state transition.
#[derive(Debug, Clone)]
pub struct CircuitTransitionEvent {
    pub from_state: CircuitState,
    pub to_state: CircuitState,
    /// Wall-clock milliseconds of the transition, as supplied by the caller.
    pub timestamp_ms: u64,
    pub reason: String,
}

/// An exact rate over a window: `count` occurrences out of `window_len`
/// entries. `window_len` is never 0 in a rate the breaker reports.
#[derive(Debug, Clone, Copy, PartialEq, Eq, Structural)]
pub struct WindowRate {
    pub count: u64,
    pub window_len: u64,
}

/// Metrics collected by the circuit breaker.
#[derive(Debug, Clone, Copy)]
pub struct CircuitMetrics {
    pub state: CircuitState,
    pub total_requests: u64,
    pub successful_requests: u64,
    pub failed_requests: u64,
    pub rejected_requests: u64,
    pub timeout_requests: u64,
    pub consecutive_failures: u64,
    pub consecutive_successes: u64,
    pub last_error_timestamp_ms: Option<u64>,
    pub last_transition_timestamp_ms: Option<u64>,
    /// Failures out of window length, absent while the window is empty.
    pub failure_rate_in_window: Option<WindowRate>,
    /// Slow calls out of window length, absent while the window is empty.
    pub slow_call_rate_in_window: Option<WindowRate>,
}

impl CircuitMetrics {
    /// The metrics of a freshly created breaker: Closed, all counters zero,
    /// no timestamps, no rates.
    pub open spec fn initial() -> CircuitMetrics {
        CircuitMetrics {
            state: CircuitState::Closed,
            total_requests: 0,
            successful_requests: 0,
            failed_requests: 0,
            rejected_requests: 0,
            timeout_requests: 0,
            consecutive_failures: 0,
            consecutive_successes: 0,
            last_error_timestamp_ms: None,
            last_transition_timestamp_ms: None,
            failure_rate_in_window: None,
            slow_call_rate_in_window: None,
        }
    }
}

impl Default for CircuitMetrics {
    /// The initial metrics record.
    fn default() -> (r: Self)
        ensures
            r == CircuitMetrics::initial(),
    {
        CircuitMetrics {
            state: CircuitState::Closed,
            total_requests: 0,
            successful_requests: 0,
            failed_requests: 0,
            rejected_requests: 0,
            timeout_requests: 0,
            consecutive_failures: 0,
            consecutive_successes: 0,
            last_error_timestamp_ms: None,
            last_transition_timestamp_ms: None,
            failure_rate_in_window: None,
            slow_call_rate_in_window: None,
        }
    }
}

/// Configuration for the circuit breaker. Rate thresholds are given in
/// hundredths, so 50 stands for one half; durations are milliseconds.
#[derive(Debug, Clone, Copy, PartialEq, Eq, Structural)]
pub struct CircuitBreakerConfig {
    /// The number of consecutive failures after which the circuit opens.
    pub failure_threshold: u64,
    /// The failure rate within the sliding window, in hundredths (0 to
    /// 100), at which the circuit opens.
    pub failure_rate_threshold_hundredths: u64,
    /// The minimum number of entries in the sliding window before the
    /// failure rate is considered.
    pub minimum_request_threshold_for_rate: usize,
    /// The number of consecutive successes required in HalfOpen to
    /// transition to Closed.
    pub success_threshold_to_close: u64,
    /// How long the circuit stays Open before a call may move it to
    /// HalfOpen, in milliseconds.
    pub reset_timeout_ms: u64,
    /// The maximum number of operations allowed to run concurrently in
    /// HalfOpen.
    pub half_open_max_concurrent_operations: usize,
    /// Optional budget for individual operations, in milliseconds.
    pub operation_timeout_ms: Option<u64>,
    /// The size of the sliding windows used for rate calculations.
    pub sliding_window_size: usize,
    /// The size of the history window for detailed metrics.
    pub metrics_history_size: usize,
    /// Whether to track detailed metrics.
    pub track_metrics: bool,
    /// Threshold for an operation to count as a slow call, in milliseconds.
    pub slow_call_duration_threshold_ms: Option<u64>,
    /// Rate of slow calls in the window, in hundredths, at which the
    /// circuit opens; absent to disable the rule.
    pub slow_call_rate_threshold_hundredths: Option<u64>,
}

impl CircuitBreakerConfig {
    /// A usable configuration: the windows hold at least one entry and the
    /// rate thresholds denote fractions of one.
    pub open spec fn wf(&self) -> bool {
        &&& self.sliding_window_size >= 1
        &&& self.failure_rate_threshold_hundredths <= 100
        &&& (self.slow_call_rate_threshold_hundredths matches Some(t) ==> t <= 100)
    }

    /// The default configuration.
    pub open spec fn spec_default() -> CircuitBreakerConfig {
        CircuitBreakerConfig {
            failure_threshold: 5,
            failure_rate_threshold_hundredths: 50,
            minimum_request_threshold_for_rate: 10,
            success_threshold_to_close: 3,
            reset_timeout_ms: 30000,
            half_open_max_concurrent_operations: 1,
            operation_timeout_ms: Some(5000),
            sliding_window_size: 100,
            metrics_history_size: 100,
            track_metrics: true,
            slow_call_duration_threshold_ms: None,
            slow_call_rate_threshold_hundredths: None,
        }
    }
}

impl Default for CircuitBreakerConfig {
    /// The default configuration, which is well-formed.
    fn default() -> (r: Self)
        ensures
            r == CircuitBreakerConfig::spec_default(),
            r.wf(),
    {
        CircuitBreakerConfig {
            failure_threshold: 5,
            failure_rate_threshold_hundredths: 50,
            minimum_request_threshold_for_rate: 10,
            success_threshold_to_close: 3,
            reset_timeout_ms: 30000,
            half_open_max_concurrent_operations: 1,
            operation_timeout_ms: Some(5000),
            sliding_window_size: 100,
            metrics_history_size: 100,
            track_metrics: true,
            slow_call_duration_threshold_ms: None,
            slow_call_rate_threshold_hundredths: None,
        }
    }
}

/// How many entries of the window are `false` (recorded failures).
pub open spec fn count_false(s: Seq<bool>) -> nat
    decreases s.len(),
{
    if s.len() == 0 {
        0
    } else {
        count_false(s.drop_last()) + if !s.last() {
            1nat
        } else {
            0nat
        }
    }
}

/// How many entries of the window are `true` (recorded slow calls).
pub open spec fn count_true(s: Seq<bool>) -> nat
    decreases s.len(),
{
    if s.len() == 0 {
        0
    } else {
        count_true(s.drop_last()) + if s.last() {
            1nat
        } else {
            0nat
        }
    }
}

/// A count over a window never exceeds its length.
pub proof fn lemma_counts_le_len(s: Seq<bool>)
    ensures
        count_false(s) <= s.len(),
        count_true(s) <= s.len(),
    decreases s.len(),
{
    if s.len() > 0 {
        lemma_counts_le_len(s.drop_last());
    }
}

/// The sliding-window step: append the new entry, evicting the oldest one
/// when the window is at capacity.
pub open spec fn window_push(s: Seq<bool>, cap: nat, b: bool) -> Seq<bool> {
    if s.len() >= cap {
        s.drop_first().push(b)
    } else {
        s.push(b)
    }
}

/// The failure rate the metrics report for a results window: absent while
/// the window is empty, else the exact count of failures over the length.
pub open spec fn spec_failure_rate(results: Seq<bool>) -> Option<WindowRate> {
    if results.len() == 0 {
        None
    } else {
        Some(WindowRate { count: count_false(results) as u64, window_len: results.len() as u64 })
    }
}

/// The slow-call rate the metrics report for a slow-call window: absent
/// while the window is empty, else the exact count of slow calls over the
/// length.
pub open spec fn spec_slow_rate(slow: Seq<bool>) -> Option<WindowRate> {
    if slow.len() == 0 {
        None
    } else {
        Some(WindowRate { count: count_true(slow) as u64, window_len: slow.len() as u64 })
    }
}

/// Whether a call of the given duration counts as slow under the
/// configuration: only when a slow-call threshold is configured and the
/// duration reaches it.
pub open spec fn spec_was_slow(config: CircuitBreakerConfig, duration_ms: u64) -> bool {
    match config.slow_call_duration_threshold_ms {
        Some(t) => duration_ms >= t,
        None => false,
    }
}

/// The rule for opening the circuit, evaluated after a recorded outcome:
/// the consecutive-failure threshold is reached, or the window holds enough
/// entries and its failure rate reaches the threshold, or a slow-call rate
/// threshold is configured and the non-empty slow window reaches it. The
/// rate comparisons are exact: `count / len >= t / 100` as
/// `count * 100 >= t * len`.
pub open spec fn spec_should_open(
    config: CircuitBreakerConfig,
    consecutive_failures: u64,
    results: Seq<bool>,
    slow: Seq<bool>,
) -> bool {
    ||| consecutive_failures >= config.failure_threshold
    ||| (results.len() >= config.minimum_request_threshold_for_rate && count_false(results) * 100
        >= config.failure_rate_threshold_hundredths * results.len())
    ||| (config.slow_call_rate_threshold_hundredths matches Some(t) && slow.len() > 0 && count_true(
        slow,
    ) * 100 >= t * slow.len())
}

/// Count the `false` entries of a window.
fn count_false_in(w: &VecDeque<bool>) -> (c: usize)
    ensures
        c == count_false(w@),
{
    let n = w.len();
    let mut c: usize = 0;
    let mut i: usize = 0;
    proof {
        assert(w@.subrange(0, 0).len() == 0);
    }
    while i < n
        invariant
            n == w@.len(),
            i <= n,
            c == count_false(w@.subrange(0, i as int)),
        decreases n - i,
    {
        proof {
            lemma_counts_le_len(w@.subrange(0, i as int));
            assert(w@.subrange(0, i + 1).drop_last() =~= w@.subrange(0, i as int));
            assert(w@.subrange(0, i + 1).last() == w@[i as int]);
        }
        if !w[i] {
            c = c + 1;
        }
        i = i + 1;
    }
    proof {
        assert(w@.subrange(0, n as int) =~= w@);
    }
    c
}

/// Count the `true` entries of a window.
fn count_true_in(w: &VecDeque<bool>) -> (c: usize)
    ensures
        c == count_true(w@),
{
    let n = w.len();
    let mut c: usize = 0;
    let mut i: usize = 0;
    proof {
        assert(w@.subrange(0, 0).len() == 0);
    }
    while i < n
        invariant
            n == w@.len(),
            i <= n,
            c == count_true(w@.subrange(0, i as int)),
        decreases n - i,
    {
        proof {
            lemma_counts_le_len(w@.subrange(0, i as int));
            assert(w@.subrange(0, i + 1).drop_last() =~= w@.subrange(0, i as int));
            assert(w@.subrange(0, i + 1).last() == w@[i as int]);
        }
        if w[i] {
            c = c + 1;
        }
        i = i + 1;
    }
    proof {
        assert(w@.subrange(0, n as int) =~= w@);
    }
    c
}

/// The decision at admission: run the operation now, or wait and retry.
#[derive(Debug, Clone, Copy, PartialEq, Eq, Structural)]
pub enum AdmissionDecision {
    /// The breaker was Closed; run the operation and record its outcome.
    AdmittedClosed,
    /// The breaker was (or just became) HalfOpen and a probe slot was
    /// taken; run the operation, record its outcome, and release the slot
    /// with [`CircuitBreaker::release_half_open_probe`].
    AdmittedHalfOpen,
    /// The operation is rejected; the caller should retry no sooner than
    /// `retry_after_ms` milliseconds from now. The rejection has already
    /// been recorded in the metrics.
    Rejected { retry_after_ms: u64 },
}

/// A circuit breaker: the verified, sequential state machine. A concurrent
/// wrapper owns one of these behind a lock, reads its clock before each
/// call, and forwards the returned transition events to observers after
/// releasing the lock.
#[derive(Debug)]
pub struct CircuitBreaker {
    pub name: String,
    pub config: CircuitBreakerConfig,
    pub state: CircuitState,
    /// Set exactly while the state is Open: when it entered Open.
    pub opened_at_ms: Option<u64>,
    /// Set exactly while the state is HalfOpen: when it entered HalfOpen.
    pub half_open_entered_at_ms: Option<u64>,
    pub consecutive_failures: u64,
    pub consecutive_successes: u64,
    /// How many admitted HalfOpen probes have not been released yet.
    pub half_open_concurrency_count: usize,
    /// Recent outcomes, `true` for success, oldest first.
    pub results_window: VecDeque<bool>,
    /// Recent slow-call flags, parallel to the results window.
    pub slow_call_window: VecDeque<bool>,
    pub metrics: CircuitMetrics,
}

impl CircuitBreaker {
    /// The breaker's invariant, established by `new` and preserved by
    /// every operation: the windows fit the configured size, at most one
    /// consecutive counter is positive, each entry timestamp is present
    /// exactly in its state, the probe count respects its bound, and the
    /// metrics agree with the state, the counters and the windows, with
    /// the request total equal to the sum of its four parts.
    pub open spec fn wf(&self) -> bool {
        &&& self.config.wf()
        &&& self.results_window@.len() <= self.config.sliding_window_size
        &&& self.slow_call_window@.len() <= self.config.sliding_window_size
        &&& (self.consecutive_failures == 0 || self.consecutive_successes == 0)
        &&& (self.state is Open <==> self.opened_at_ms is Some)
        &&& (self.state is HalfOpen <==> self.half_open_entered_at_ms is Some)
        &&& self.half_open_concurrency_count <= self.config.half_open_max_concurrent_operations
        &&& self.metrics.state == self.state
        &&& self.metrics.consecutive_failures == self.consecutive_failures
        &&& self.metrics.consecutive_successes == self.consecutive_successes
        &&& self.metrics.total_requests as int == self.metrics.successful_requests as int
            + self.metrics.failed_requests as int + self.metrics.rejected_requests as int
            + self.metrics.timeout_requests as int
        &&& self.metrics.failure_rate_in_window == spec_failure_rate(self.results_window@)
        &&& self.metrics.slow_call_rate_in_window == spec_slow_rate(self.slow_call_window@)
    }

    /// Elapsed milliseconds from `since` to `now_ms`, clamped at zero.
    pub open spec fn spec_elapsed(since: u64, now_ms: u64) -> int {
        if now_ms >= since {
            now_ms - since
        } else {
            0
        }
    }
}

/// How `trip` changes the breaker: forced Open at `now_ms` with the failure
/// counter pinned to the threshold, everything else untouched, and an event
/// that records the forced transition.
pub open spec fn trip_rel(
    pre: CircuitBreaker,
    post: CircuitBreaker,
    now_ms: u64,
    event: CircuitTransitionEvent,
) -> bool {
    &&& post.name == pre.name
    &&& post.config == pre.config
    &&& post.state is Open
    &&& post.opened_at_ms == Some(now_ms)
    &&& post.half_open_entered_at_ms is None
    &&& post.consecutive_failures == pre.config.failure_threshold
    &&& post.consecutive_successes == 0
    &&& post.half_open_concurrency_count == pre.half_open_concurrency_count
    &&& post.results_window@ == pre.results_window@
    &&& post.slow_call_window@ == pre.slow_call_window@
    &&& post.metrics == (CircuitMetrics {
        state: CircuitState::Open,
        consecutive_failures: pre.config.failure_threshold,
        consecutive_successes: 0,
        last_transition_timestamp_ms: Some(now_ms),
        ..pre.metrics
    })
    &&& event.from_state == pre.state
    &&& event.to_state is Open
    &&& event.timestamp_ms == now_ms
    &&& event.reason@ == "Manual trip"@
}

/// How `reset` changes the breaker: forced Closed with both windows
/// cleared, all counters and the probe count zeroed, rates absent, request
/// totals kept, and an event that records the forced transition.
pub open spec fn reset_rel(
    pre: CircuitBreaker,
    post: CircuitBreaker,
    now_ms: u64,
    event: CircuitTransitionEvent,
) -> bool {
    &&& post.name == pre.name
    &&& post.config == pre.config
    &&& post.state is Closed
    &&& post.opened_at_ms is None
    &&& post.half_open_entered_at_ms is None
    &&& post.consecutive_failures == 0
    &&& post.consecutive_successes == 0
    &&& post.half_open_concurrency_count == 0
    &&& post.results_window@.len() == 0
    &&& post.slow_call_window@.len() == 0
    &&& post.metrics == (CircuitMetrics {
        state: CircuitState::Closed,
        consecutive_failures: 0,
        consecutive_successes: 0,
        last_transition_timestamp_ms: Some(now_ms),
        failure_rate_in_window: None,
        slow_call_rate_in_window: None,
        ..pre.metrics
    })
    &&& event.from_state == pre.state
    &&& event.to_state is Closed
    &&& event.timestamp_ms == now_ms
    &&& event.reason@ == "Manual reset"@
}

/// The bookkeeping every recorded outcome shares: the outcome and its
/// slow-call flag enter the sliding windows, the request total grows by
/// one, and the reported rates follow the new windows.
pub open spec fn recorded_windows(
    pre: CircuitBreaker,
    post: CircuitBreaker,
    outcome: bool,
    duration_ms: u64,
) -> bool {
    &&& post.results_window@ == window_push(
        pre.results_window@,
        pre.config.sliding_window_size as nat,
        outcome,
    )
    &&& post.slow_call_window@ == window_push(
        pre.slow_call_window@,
        pre.config.sliding_window_size as nat,
        spec_was_slow(pre.config, duration_ms),
    )
    &&& post.metrics.failure_rate_in_window == spec_failure_rate(post.results_window@)
    &&& post.metrics.slow_call_rate_in_window == spec_slow_rate(post.slow_call_window@)
    &&& post.metrics.total_requests == pre.metrics.total_requests + 1
}

/// How `record_success` changes the breaker: the success enters the
/// windows and totals, the success streak grows while the failure streak
/// clears, and a HalfOpen breaker whose streak reaches the closing
/// threshold transitions to Closed, with the event reporting it.
pub open spec fn success_rel(
    pre: CircuitBreaker,
    post: CircuitBreaker,
    duration_ms: u64,
    now_ms: u64,
    event: Option<CircuitTransitionEvent>,
) -> bool {
    let closes = pre.state is HalfOpen && pre.consecutive_successes + 1
        >= pre.config.success_threshold_to_close;
    &&& post.name == pre.name
    &&& post.config == pre.config
    &&& recorded_windows(pre, post, true, duration_ms)
    &&& post.consecutive_successes == pre.consecutive_successes + 1
    &&& post.consecutive_failures == 0
    &&& post.half_open_concurrency_count == pre.half_open_concurrency_count
    &&& post.metrics.successful_requests == pre.metrics.successful_requests + 1
    &&& post.metrics.failed_requests == pre.metrics.failed_requests
    &&& post.metrics.rejected_requests == pre.metrics.rejected_requests
    &&& post.metrics.timeout_requests == pre.metrics.timeout_requests
    &&& post.metrics.consecutive_successes == post.consecutive_successes
    &&& post.metrics.consecutive_failures == 0
    &&& post.metrics.last_error_timestamp_ms == pre.metrics.last_error_timestamp_ms
    &&& if closes {
        &&& post.state is Closed
        &&& post.opened_at_ms is None
        &&& post.half_open_entered_at_ms is None
        &&& post.metrics.state is Closed
        &&& post.metrics.last_transition_timestamp_ms == Some(now_ms)
        &&& (event matches Some(ev) && ev.from_state == pre.state && ev.to_state is Closed
            && ev.timestamp_ms == now_ms && ev.reason@ == "Success threshold reached"@)
    } else {
        &&& post.state == pre.state
        &&& post.opened_at_ms == pre.opened_at_ms
        &&& post.half_open_entered_at_ms == pre.half_open_entered_at_ms
        &&& post.metrics.state == pre.metrics.state
        &&& post.metrics.last_transition_timestamp_ms == pre.metrics.last_transition_timestamp_ms
        &&& event is None
    }
}

/// The common part of recording a counted failure or a timeout: the
/// failure enters the windows, the failure streak grows while the success
/// streak clears, the error timestamp is taken, and the breaker opens when
/// HalfOpen (any counted failure is decisive there) or when Closed and the
/// opening rule fires on the updated counters and windows.
pub open spec fn failure_like_rel(
    pre: CircuitBreaker,
    post: CircuitBreaker,
    duration_ms: u64,
    now_ms: u64,
    event: Option<CircuitTransitionEvent>,
) -> bool {
    let opens_half_open = pre.state is HalfOpen;
    let opens_closed = pre.state is Closed && spec_should_open(
        pre.config,
        (pre.consecutive_failures + 1) as u64,
        window_push(pre.results_window@, pre.config.sliding_window_size as nat, false),
        window_push(
            pre.slow_call_window@,
            pre.config.sliding_window_size as nat,
            spec_was_slow(pre.config, duration_ms),
        ),
    );
    &&& post.name == pre.name
    &&& post.config == pre.config
    &&& recorded_windows(pre, post, false, duration_ms)
    &&& post.consecutive_failures == pre.consecutive_failures + 1
    &&& post.consecutive_successes == 0
    &&& post.half_open_concurrency_count == pre.half_open_concurrency_count
    &&& post.metrics.successful_requests == pre.metrics.successful_requests
    &&& post.metrics.rejected_requests == pre.metrics.rejected_requests
    &&& post.metrics.consecutive_failures == post.consecutive_failures
    &&& post.metrics.consecutive_successes == 0
    &&& post.metrics.last_error_timestamp_ms == Some(now_ms)
    &&& if opens_half_open || opens_closed {
        &&& post.state is Open
        &&& post.opened_at_ms == Some(now_ms)
        &&& post.half_open_entered_at_ms is None
        &&& post.metrics.state is Open
        &&& post.metrics.last_transition_timestamp_ms == Some(now_ms)
        &&& (event matches Some(ev) && ev.from_state == pre.state && ev.to_state is Open
            && ev.timestamp_ms == now_ms && (if opens_half_open {
            ev.reason@ == "Failure in half-open state"@
        } else {
            ev.reason@ == "Failure threshold reached"@
        }))
    } else {
        &&& post.state == pre.state
        &&& post.opened_at_ms == pre.opened_at_ms
        &&& post.half_open_entered_at_ms == pre.half_open_entered_at_ms
        &&& post.metrics.state == pre.metrics.state
        &&& post.metrics.last_transition_timestamp_ms == pre.metrics.last_transition_timestamp_ms
        &&& event is None
    }
}

/// How `record_failure` changes the breaker: a counted failure, which also
/// grows the failed-request total.
pub open spec fn failure_rel(
    pre: CircuitBreaker,
    post: CircuitBreaker,
    duration_ms: u64,
    now_ms: u64,
    event: Option<CircuitTransitionEvent>,
) -> bool {
    &&& failure_like_rel(pre, post, duration_ms, now_ms, event)
    &&& post.metrics.failed_requests == pre.metrics.failed_requests + 1
    &&& post.metrics.timeout_requests == pre.metrics.timeout_requests
}

/// How `record_timeout` changes the breaker: recorded as a failure, except
/// that the timeout total grows instead of the failed total.
pub open spec fn timeout_rel(
    pre: CircuitBreaker,
    post: CircuitBreaker,
    duration_ms: u64,
    now_ms: u64,
    event: Option<CircuitTransitionEvent>,
) -> bool {
    &&& failure_like_rel(pre, post, duration_ms, now_ms, event)
    &&& post.metrics.timeout_requests == pre.metrics.timeout_requests + 1
    &&& post.metrics.failed_requests == pre.metrics.failed_requests
}

/// How `record_rejected` changes the breaker: only the request totals
/// grow; windows, counters and state are untouched.
pub open spec fn rejected_rel(pre: CircuitBreaker, post: CircuitBreaker) -> bool {
    &&& post == (CircuitBreaker { metrics: post.metrics, ..pre })
    &&& post.metrics == (CircuitMetrics {
        total_requests: (pre.metrics.total_requests + 1) as u64,
        rejected_requests: (pre.metrics.rejected_requests + 1) as u64,
        ..pre.metrics
    })
}

/// How `try_admit` decides and changes the breaker. Closed admits with
/// nothing recorded. HalfOpen admits while a probe slot is free, taking
/// one; otherwise it rejects with the fixed probe back-off of 100
/// milliseconds. Open rejects with the remaining reset time until
/// `reset_timeout_ms` has elapsed since `opened_at_ms`; then it transitions
/// to HalfOpen ("Reset timeout elapsed") and goes through the probe gate.
/// Every rejection is recorded in the totals.
pub open spec fn admit_rel(
    pre: CircuitBreaker,
    post: CircuitBreaker,
    now_ms: u64,
    decision: AdmissionDecision,
    event: Option<CircuitTransitionEvent>,
) -> bool {
    match pre.state {
        CircuitState::Closed => {
            &&& post == pre
            &&& decision is AdmittedClosed
            &&& event is None
        },
        CircuitState::HalfOpen => {
            &&& event is None
            &&& if pre.half_open_concurrency_count
                < pre.config.half_open_max_concurrent_operations {
                &&& decision is AdmittedHalfOpen
                &&& post == (CircuitBreaker {
                    half_open_concurrency_count: (pre.half_open_concurrency_count + 1) as usize,
                    ..pre
                })
            } else {
                &&& decision == (AdmissionDecision::Rejected { retry_after_ms: 100 })
                &&& rejected_rel(pre, post)
            }
        },
        CircuitState::Open => {
            let opened = pre.opened_at_ms->0;
            let elapsed = CircuitBreaker::spec_elapsed(opened, now_ms);
            if elapsed >= pre.config.reset_timeout_ms {
                // The breaker moves to HalfOpen and the probe gate runs
                // with a fresh probe count of zero.
                let admitted = pre.config.half_open_max_concurrent_operations > 0;
                &&& (event matches Some(ev) && ev.from_state is Open && ev.to_state is HalfOpen
                    && ev.timestamp_ms == now_ms && ev.reason@ == "Reset timeout elapsed"@)
                &&& post.name == pre.name
                &&& post.config == pre.config
                &&& post.state is HalfOpen
                &&& post.opened_at_ms is None
                &&& post.half_open_entered_at_ms == Some(now_ms)
                &&& post.consecutive_failures == pre.consecutive_failures
                &&& post.consecutive_successes == 0
                &&& post.results_window@ == pre.results_window@
                &&& post.slow_call_window@ == pre.slow_call_window@
                &&& if admitted {
                    &&& decision is AdmittedHalfOpen
                    &&& post.half_open_concurrency_count == 1
                    &&& post.metrics == (CircuitMetrics {
                        state: CircuitState::HalfOpen,
                        consecutive_successes: 0,
                        last_transition_timestamp_ms: Some(now_ms),
                        ..pre.metrics
                    })
                } else {
                    &&& decision == (AdmissionDecision::Rejected { retry_after_ms: 100 })
                    &&& post.half_open_concurrency_count == 0
                    &&& post.metrics == (CircuitMetrics {
                        state: CircuitState::HalfOpen,
                        consecutive_successes: 0,
                        last_transition_timestamp_ms: Some(now_ms),
                        total_requests: (pre.metrics.total_requests + 1) as u64,
                        rejected_requests: (pre.metrics.rejected_requests + 1) as u64,
                        ..pre.metrics
                    })
                }
            } else {
                &&& decision == (AdmissionDecision::Rejected {
                    retry_after_ms: (pre.config.reset_timeout_ms - elapsed) as u64,
                })
                &&& rejected_rel(pre, post)
                &&& event is None
            }
        },
    }
}

impl CircuitBreaker {
    /// Creates a new circuit breaker, Closed, with empty windows and
    /// zeroed counters.
    pub fn new(name: String, config: CircuitBreakerConfig) -> (r: Self)
        requires
            config.wf(),
        ensures
            r.wf(),
            r.name == name,
            r.config == config,
            r.state is Closed,
            r.opened_at_ms is None,
            r.half_open_entered_at_ms is None,
            r.consecutive_failures == 0,
            r.consecutive_successes == 0,
            r.half_open_concurrency_count == 0,
            r.results_window@.len() == 0,
            r.slow_call_window@.len() == 0,
            r.metrics == CircuitMetrics::initial(),
    {
        CircuitBreaker {
            name,
            config,
            state: CircuitState::Closed,
            opened_at_ms: None,
            half_open_entered_at_ms: None,
            consecutive_failures: 0,
            consecutive_successes: 0,
            half_open_concurrency_count: 0,
            results_window: VecDeque::new(),
            slow_call_window: VecDeque::new(),
            metrics: CircuitMetrics::default(),
        }
    }

    /// Get the current state of the circuit breaker.
    pub fn state(&self) -> (r: CircuitState)
        ensures
            r == self.state,
    {
        self.state
    }

    /// Get a by-value copy of the current metrics.
    pub fn metrics(&self) -> (r: CircuitMetrics)
        ensures
            r == self.metrics,
    {
        self.metrics
    }

    /// Trip the circuit breaker manually: forced Open, with the failure
    /// counter pinned to the threshold. The caller forwards the returned
    /// event to its observers.
    pub fn trip(&mut self, now_ms: u64) -> (event: CircuitTransitionEvent)
        requires
            old(self).wf(),
        ensures
            final(self).wf(),
            trip_rel(*old(self), *final(self), now_ms, event),
    {
        let prev_state = self.state;
        self.state = CircuitState::Open;
        self.opened_at_ms = Some(now_ms);
        self.half_open_entered_at_ms = None;
        self.consecutive_failures = self.config.failure_threshold;
        self.consecutive_successes = 0;
        self.metrics.state = CircuitState::Open;
        self.metrics.consecutive_failures = self.consecutive_failures;
        self.metrics.consecutive_successes = 0;
        self.metrics.last_transition_timestamp_ms = Some(now_ms);
        CircuitTransitionEvent {
            from_state: prev_state,
            to_state: CircuitState::Open,
            timestamp_ms: now_ms,
            reason: "Manual trip".to_owned(),
        }
    }

    /// Reset the circuit breaker to Closed: windows cleared, counters and
    /// the probe count zeroed. The caller forwards the returned event to
    /// its observers and then notifies them of the reset.
    pub fn reset(&mut self, now_ms: u64) -> (event: CircuitTransitionEvent)
        requires
            old(self).wf(),
        ensures
            final(self).wf(),
            reset_rel(*old(self), *final(self), now_ms, event),
    {
        let prev_state = self.state;
        self.state = CircuitState::Closed;
        self.opened_at_ms = None;
        self.half_open_entered_at_ms = None;
        self.consecutive_failures = 0;
        self.consecutive_successes = 0;
        self.half_open_concurrency_count = 0;
        self.metrics.state = CircuitState::Closed;
        self.metrics.consecutive_failures = 0;
        self.metrics.consecutive_successes = 0;
        self.metrics.last_transition_timestamp_ms = Some(now_ms);
        self.metrics.failure_rate_in_window = None;
        self.metrics.slow_call_rate_in_window = None;
        self.results_window.clear();
        self.slow_call_window.clear();
        CircuitTransitionEvent {
            from_state: prev_state,
            to_state: CircuitState::Closed,
            timestamp_ms: now_ms,
            reason: "Manual reset".to_owned(),
        }
    }

    /// Append an outcome and its slow-call flag to the sliding windows,
    /// evicting the oldest entries at capacity, and refresh the reported
    /// rates.
    fn push_windows_and_rates(&mut self, outcome: bool, was_slow: bool)
        requires
            old(self).config.wf(),
            old(self).results_window@.len() <= old(self).config.sliding_window_size,
            old(self).slow_call_window@.len() <= old(self).config.sliding_window_size,
        ensures
            final(self).results_window@ == window_push(
                old(self).results_window@,
                old(self).config.sliding_window_size as nat,
                outcome,
            ),
            final(self).slow_call_window@ == window_push(
                old(self).slow_call_window@,
                old(self).config.sliding_window_size as nat,
                was_slow,
            ),
            final(self).results_window@.len() <= old(self).config.sliding_window_size,
            final(self).slow_call_window@.len() <= old(self).config.sliding_window_size,
            final(self).metrics == (CircuitMetrics {
                failure_rate_in_window: spec_failure_rate(final(self).results_window@),
                slow_call_rate_in_window: spec_slow_rate(final(self).slow_call_window@),
                ..old(self).metrics
            }),
            *final(self) == (CircuitBreaker {
                results_window: final(self).results_window,
                slow_call_window: final(self).slow_call_window,
                metrics: final(self).metrics,
                ..*old(self)
            }),
    {
        if self.results_window.len() >= self.config.sliding_window_size {
            self.results_window.pop_front();
        }
        self.results_window.push_back(outcome);
        if self.slow_call_window.len() >= self.config.sliding_window_size {
            self.slow_call_window.pop_front();
        }
        self.slow_call_window.push_back(was_slow);
        proof {
            lemma_counts_le_len(self.results_window@);
            lemma_counts_le_len(self.slow_call_window@);
        }
        let fc = count_false_in(&self.results_window);
        let rlen = self.results_window.len();
        if rlen == 0 {
            self.metrics.failure_rate_in_window = None;
        } else {
            self.metrics.failure_rate_in_window = Some(
                WindowRate { count: fc as u64, window_len: rlen as u64 },
            );
        }
        let sc = count_true_in(&self.slow_call_window);
        let slen = self.slow_call_window.len();
        if slen == 0 {
            self.metrics.slow_call_rate_in_window = None;
        } else {
            self.metrics.slow_call_rate_in_window = Some(
                WindowRate { count: sc as u64, window_len: slen as u64 },
            );
        }
    }

    /// Whether a call of this duration counts as slow under the
    /// configuration.
    fn was_slow(&self, duration_ms: u64) -> (r: bool)
        ensures
            r == spec_was_slow(self.config, duration_ms),
    {
        match self.config.slow_call_duration_threshold_ms {
            Some(t) => duration_ms >= t,
            None => false,
        }
    }

    /// Whether the opening rule fires on the current counters and windows.
    fn should_open_circuit(&self) -> (r: bool)
        requires
            self.config.wf(),
        ensures
            r == spec_should_open(
                self.config,
                self.consecutive_failures,
                self.results_window@,
                self.slow_call_window@,
            ),
    {
        if self.consecutive_failures >= self.config.failure_threshold {
            return true;
        }
        let rlen = self.results_window.len();
        if rlen >= self.config.minimum_request_threshold_for_rate {
            let fc = count_false_in(&self.results_window);
            proof {
                assert((self.config.failure_rate_threshold_hundredths as u128) * (rlen as u128)
                    <= 100u128 * (rlen as u128)) by (nonlinear_arith)
                    requires
                        self.config.failure_rate_threshold_hundredths <= 100,
                ;
            }
            if (fc as u128) * 100 >= (self.config.failure_rate_threshold_hundredths as u128) * (
            rlen as u128) {
                return true;
            }
        }
        match self.config.slow_call_rate_threshold_hundredths {
            Some(t) => {
                let slen = self.slow_call_window.len();
                if slen > 0 {
                    let sc = count_true_in(&self.slow_call_window);
                    proof {
                        assert((t as u128) * (slen as u128) <= 100u128 * (slen as u128))
                            by (nonlinear_arith)
                            requires
                                t <= 100,
                        ;
                    }
                    (sc as u128) * 100 >= (t as u128) * (slen as u128)
                } else {
                    false
                }
            },
            None => false,
        }
    }

    /// Move to Open at `now_ms` for the given reason, clearing the success
    /// streak.
    fn transition_to_open(&mut self, now_ms: u64, reason: &str) -> (event: CircuitTransitionEvent)
        ensures
            *final(self) == (CircuitBreaker {
                state: CircuitState::Open,
                opened_at_ms: Some(now_ms),
                half_open_entered_at_ms: None,
                consecutive_successes: 0,
                metrics: final(self).metrics,
                ..*old(self)
            }),
            final(self).metrics == (CircuitMetrics {
                state: CircuitState::Open,
                consecutive_successes: 0,
                last_transition_timestamp_ms: Some(now_ms),
                ..old(self).metrics
            }),
            event.from_state == old(self).state,
            event.to_state is Open,
            event.timestamp_ms == now_ms,
            event.reason@ == reason@,
    {
        let prev_state = self.state;
        self.state = CircuitState::Open;
        self.opened_at_ms = Some(now_ms);
        self.half_open_entered_at_ms = None;
        self.consecutive_successes = 0;
        self.metrics.state = CircuitState::Open;
        self.metrics.consecutive_successes = 0;
        self.metrics.last_transition_timestamp_ms = Some(now_ms);
        CircuitTransitionEvent {
            from_state: prev_state,
            to_state: CircuitState::Open,
            timestamp_ms: now_ms,
            reason: reason.to_owned(),
        }
    }

    /// Move to HalfOpen at `now_ms` for the given reason, clearing the
    /// success streak and the probe count.
    fn transition_to_half_open(&mut self, now_ms: u64, reason: &str) -> (event:
        CircuitTransitionEvent)
        ensures
            *final(self) == (CircuitBreaker {
                state: CircuitState::HalfOpen,
                opened_at_ms: None,
                half_open_entered_at_ms: Some(now_ms),
                consecutive_successes: 0,
                half_open_concurrency_count: 0,
                metrics: final(self).metrics,
                ..*old(self)
            }),
            final(self).metrics == (CircuitMetrics {
                state: CircuitState::HalfOpen,
                consecutive_successes: 0,
                last_transition_timestamp_ms: Some(now_ms),
                ..old(self).metrics
            }),
            event.from_state == old(self).state,
            event.to_state is HalfOpen,
            event.timestamp_ms == now_ms,
            event.reason@ == reason@,
    {
        let prev_state = self.state;
        self.state = CircuitState::HalfOpen;
        self.opened_at_ms = None;
        self.half_open_entered_at_ms = Some(now_ms);
        self.consecutive_successes = 0;
        self.half_open_concurrency_count = 0;
        self.metrics.state = CircuitState::HalfOpen;
        self.metrics.consecutive_successes = 0;
        self.metrics.last_transition_timestamp_ms = Some(now_ms);
        CircuitTransitionEvent {
            from_state: prev_state,
            to_state: CircuitState::HalfOpen,
            timestamp_ms: now_ms,
            reason: reason.to_owned(),
        }
    }

    /// Move to Closed at `now_ms` for the given reason, clearing the
    /// failure streak and both entry timestamps.
    fn transition_to_closed(&mut self, now_ms: u64, reason: &str) -> (event:
        CircuitTransitionEvent)
        ensures
            *final(self) == (CircuitBreaker {
                state: CircuitState::Closed,
                opened_at_ms: None,
                half_open_entered_at_ms: None,
                consecutive_failures: 0,
                metrics: final(self).metrics,
                ..*old(self)
            }),
            final(self).metrics == (CircuitMetrics {
                state: CircuitState::Closed,
                consecutive_failures: 0,
                last_transition_timestamp_ms: Some(now_ms),
                ..old(self).metrics
            }),
            event.from_state == old(self).state,
            event.to_state is Closed,
            event.timestamp_ms == now_ms,
            event.reason@ == reason@,
    {
        let prev_state = self.state;
        self.state = CircuitState::Closed;
        self.opened_at_ms = None;
        self.half_open_entered_at_ms = None;
        self.consecutive_failures = 0;
        self.metrics.state = CircuitState::Closed;
        self.metrics.consecutive_failures = 0;
        self.metrics.last_transition_timestamp_ms = Some(now_ms);
        CircuitTransitionEvent {
            from_state: prev_state,
            to_state: CircuitState::Closed,
            timestamp_ms: now_ms,
            reason: reason.to_owned(),
        }
    }

    /// Record a rejected operation: only the request totals grow.
    pub fn record_rejected(&mut self)
        requires
            old(self).wf(),
            old(self).metrics.total_requests < u64::MAX,
        ensures
            final(self).wf(),
            rejected_rel(*old(self), *final(self)),
    {
        self.metrics.total_requests = self.metrics.total_requests + 1;
        self.metrics.rejected_requests = self.metrics.rejected_requests + 1;
    }

    /// Record a successful outcome that took `duration_ms`: the windows
    /// and totals take it, the success streak grows, and a HalfOpen
    /// breaker whose streak reaches the closing threshold transitions to
    /// Closed ("Success threshold reached"). An outcome whose error the
    /// failure predicate discounts is recorded here as well. The caller
    /// forwards the returned event, if any, to its observers.
    pub fn record_success(&mut self, duration_ms: u64, now_ms: u64) -> (event: Option<
        CircuitTransitionEvent,
    >)
        requires
            old(self).wf(),
            old(self).metrics.total_requests < u64::MAX,
            old(self).consecutive_successes < u64::MAX,
        ensures
            final(self).wf(),
            success_rel(*old(self), *final(self), duration_ms, now_ms, event),
    {
        self.consecutive_successes = self.consecutive_successes + 1;
        self.consecutive_failures = 0;
        let was_slow = self.was_slow(duration_ms);
        self.push_windows_and_rates(true, was_slow);
        self.metrics.total_requests = self.metrics.total_requests + 1;
        self.metrics.successful_requests = self.metrics.successful_requests + 1;
        self.metrics.consecutive_successes = self.consecutive_successes;
        self.metrics.consecutive_failures = 0;
        if self.state == CircuitState::HalfOpen && self.consecutive_successes
            >= self.config.success_threshold_to_close {
            Some(self.transition_to_closed(now_ms, "Success threshold reached"))
        } else {
            None
        }
    }

    /// Record a counted failure that took `duration_ms`: the windows and
    /// totals take it, the failure streak grows, and the breaker opens
    /// when HalfOpen ("Failure in half-open state") or when Closed and the
    /// opening rule fires ("Failure threshold reached"). The caller
    /// forwards the returned event, if any, to its observers.
    pub fn record_failure(&mut self, duration_ms: u64, now_ms: u64) -> (event: Option<
        CircuitTransitionEvent,
    >)
        requires
            old(self).wf(),
            old(self).metrics.total_requests < u64::MAX,
            old(self).consecutive_failures < u64::MAX,
        ensures
            final(self).wf(),
            failure_rel(*old(self), *final(self), duration_ms, now_ms, event),
    {
        self.consecutive_failures = self.consecutive_failures + 1;
        self.consecutive_successes = 0;
        let was_slow = self.was_slow(duration_ms);
        self.push_windows_and_rates(false, was_slow);
        self.metrics.total_requests = self.metrics.total_requests + 1;
        self.metrics.failed_requests = self.metrics.failed_requests + 1;
        self.metrics.consecutive_failures = self.consecutive_failures;
        self.metrics.consecutive_successes = 0;
        self.metrics.last_error_timestamp_ms = Some(now_ms);
        if self.state == CircuitState::HalfOpen {
            Some(self.transition_to_open(now_ms, "Failure in half-open state"))
        } else if self.state == CircuitState::Closed && self.should_open_circuit() {
            Some(self.transition_to_open(now_ms, "Failure threshold reached"))
        } else {
            None
        }
    }

    /// Record a timed-out operation whose budget was `duration_ms`:
    /// recorded as a failure, except that the timeout total grows instead
    /// of the failed total. The caller forwards the returned event, if
    /// any, to its observers.
    pub fn record_timeout(&mut self, duration_ms: u64, now_ms: u64) -> (event: Option<
        CircuitTransitionEvent,
    >)
        requires
            old(self).wf(),
            old(self).metrics.total_requests < u64::MAX,
            old(self).consecutive_failures < u64::MAX,
        ensures
            final(self).wf(),
            timeout_rel(*old(self), *final(self), duration_ms, now_ms, event),
    {
        self.consecutive_failures = self.consecutive_failures + 1;
        self.consecutive_successes = 0;
        let was_slow = self.was_slow(duration_ms);
        self.push_windows_and_rates(false, was_slow);
        self.metrics.total_requests = self.metrics.total_requests + 1;
        self.metrics.timeout_requests = self.metrics.timeout_requests + 1;
        self.metrics.consecutive_failures = self.consecutive_failures;
        self.metrics.consecutive_successes = 0;
        self.metrics.last_error_timestamp_ms = Some(now_ms);
        if self.state == CircuitState::HalfOpen {
            Some(self.transition_to_open(now_ms, "Failure in half-open state"))
        } else if self.state == CircuitState::Closed && self.should_open_circuit() {
            Some(self.transition_to_open(now_ms, "Failure threshold reached"))
        } else {
            None
        }
    }

    /// The admission gate of `execute`: decide whether an operation may
    /// run now, performing the Open-to-HalfOpen transition once the reset
    /// timeout has elapsed and taking a HalfOpen probe slot on admission.
    /// The caller forwards the returned event, if any, to its observers;
    /// on rejection it builds a `CircuitBreakerOpen` error carrying
    /// `retry_after_ms`.
    pub fn try_admit(&mut self, now_ms: u64) -> (r: (
        AdmissionDecision,
        Option<CircuitTransitionEvent>,
    ))
        requires
            old(self).wf(),
            old(self).metrics.total_requests < u64::MAX,
        ensures
            final(self).wf(),
            admit_rel(*old(self), *final(self), now_ms, r.0, r.1),
    {
        match self.state {
            CircuitState::Closed => (AdmissionDecision::AdmittedClosed, None),
            CircuitState::HalfOpen => {
                if self.half_open_concurrency_count
                    < self.config.half_open_max_concurrent_operations {
                    self.half_open_concurrency_count = self.half_open_concurrency_count + 1;
                    (AdmissionDecision::AdmittedHalfOpen, None)
                } else {
                    self.record_rejected();
                    (AdmissionDecision::Rejected { retry_after_ms: 100 }, None)
                }
            },
            CircuitState::Open => {
                let opened = match self.opened_at_ms {
                    Some(t) => t,
                    None => 0,  // unreachable under the invariant
                };
                let elapsed = if now_ms >= opened {
                    now_ms - opened
                } else {
                    0
                };
                if elapsed >= self.config.reset_timeout_ms {
                    let event = self.transition_to_half_open(now_ms, "Reset timeout elapsed");
                    if self.config.half_open_max_concurrent_operations > 0 {
                        self.half_open_concurrency_count = 1;
                        (AdmissionDecision::AdmittedHalfOpen, Some(event))
                    } else {
                        self.record_rejected();
                        (AdmissionDecision::Rejected { retry_after_ms: 100 }, Some(event))
                    }
                } else {
                    self.record_rejected();
                    (
                        AdmissionDecision::Rejected {
                            retry_after_ms: self.config.reset_timeout_ms - elapsed,
                        },
                        None,
                    )
                }
            },
        }
    }

    /// Release the probe slot taken by a HalfOpen admission, once the
    /// admitted operation has completed. The count never goes below zero.
    pub fn release_half_open_probe(&mut self)
        requires
            old(self).wf(),
        ensures
            final(self).wf(),
            *final(self) == (CircuitBreaker {
                half_open_concurrency_count: final(self).half_open_concurrency_count,
                ..*old(self)
            }),
            old(self).half_open_concurrency_count > 0 ==> final(self).half_open_concurrency_count
                == old(self).half_open_concurrency_count - 1,
            old(self).half_open_concurrency_count == 0 ==> final(self).half_open_concurrency_count
                == 0,
    {
        if self.half_open_concurrency_count > 0 {
            self.half_open_concurrency_count = self.half_open_concurrency_count - 1;
        }
    }
}

/// After any sequence of operations, exactly one of these holds of a
/// well-formed breaker: it is Open with `opened_at_ms` set, or HalfOpen
/// with `half_open_entered_at_ms` set, or Closed.
pub proof fn lemma_exactly_one_state_slot(b: CircuitBreaker)
    requires
        b.wf(),
    ensures
        (b.opened_at_ms is Some && b.state is Open) || (b.half_open_entered_at_ms is Some
            && b.state is HalfOpen) || (b.state is Closed),
        !((b.opened_at_ms is Some && b.state is Open) && (b.half_open_entered_at_ms is Some
            && b.state is HalfOpen)),
        !((b.opened_at_ms is Some && b.state is Open) && b.state is Closed),
        !((b.half_open_entered_at_ms is Some && b.state is HalfOpen) && b.state is Closed),
{
}

/// Neither sliding window of a well-formed breaker ever exceeds the
/// configured sliding-window size.
pub proof fn lemma_window_bounds(b: CircuitBreaker)
    requires
        b.wf(),
    ensures
        b.results_window@.len() <= b.config.sliding_window_size,
        b.slow_call_window@.len() <= b.config.sliding_window_size,
{
}

/// After any recorded outcome, at most one consecutive counter of a
/// well-formed breaker is positive.
pub proof fn lemma_consecutive_counters_exclusive(b: CircuitBreaker)
    requires
        b.wf(),
    ensures
        b.consecutive_failures == 0 || b.consecutive_successes == 0,
{
}

/// The request total of a well-formed breaker is exactly the sum of its
/// successful, failed, rejected and timed-out requests.
pub proof fn lemma_request_accounting(b: CircuitBreaker)
    requires
        b.wf(),
    ensures
        b.metrics.total_requests as int == b.metrics.successful_requests as int
            + b.metrics.failed_requests as int + b.metrics.rejected_requests as int
            + b.metrics.timeout_requests as int,
{
}

/// A Closed breaker one counted failure away from its consecutive-failure
/// threshold transitions to Open on that failure: fed `k` consecutive
/// failures from a fresh streak, it opens on the `k`-th.
pub proof fn lemma_closed_opens_at_failure_threshold(
    pre: CircuitBreaker,
    post: CircuitBreaker,
    duration_ms: u64,
    now_ms: u64,
    event: Option<CircuitTransitionEvent>,
)
    requires
        pre.wf(),
        pre.consecutive_failures < u64::MAX,
        failure_rel(pre, post, duration_ms, now_ms, event),
        pre.state is Closed,
        pre.consecutive_failures + 1 >= pre.config.failure_threshold,
    ensures
        post.state is Open,
        post.opened_at_ms == Some(now_ms),
        event is Some,
{
}

/// An Open breaker whose reset timeout has elapsed since `opened_at_ms`
/// transitions to HalfOpen on the next admission; with room for a probe
/// the operation is admitted.
pub proof fn lemma_open_reaches_half_open(
    pre: CircuitBreaker,
    post: CircuitBreaker,
    now_ms: u64,
    decision: AdmissionDecision,
    event: Option<CircuitTransitionEvent>,
)
    requires
        pre.wf(),
        admit_rel(pre, post, now_ms, decision, event),
        pre.state is Open,
        CircuitBreaker::spec_elapsed(pre.opened_at_ms->0, now_ms) >= pre.config.reset_timeout_ms,
    ensures
        post.state is HalfOpen,
        event is Some,
        pre.config.half_open_max_concurrent_operations > 0 ==> decision is AdmittedHalfOpen,
{
}

/// A HalfOpen breaker one success away from its closing threshold
/// transitions to Closed on that success: `m` consecutive successes
/// serialized through the admission gate close it on the `m`-th.
pub proof fn lemma_half_open_closes_at_success_threshold(
    pre: CircuitBreaker,
    post: CircuitBreaker,
    duration_ms: u64,
    now_ms: u64,
    event: Option<CircuitTransitionEvent>,
)
    requires
        pre.wf(),
        pre.consecutive_successes < u64::MAX,
        success_rel(pre, post, duration_ms, now_ms, event),
        pre.state is HalfOpen,
        pre.consecutive_successes + 1 >= pre.config.success_threshold_to_close,
    ensures
        post.state is Closed,
        post.opened_at_ms is None,
        post.half_open_entered_at_ms is None,
        event is Some,
{
}

/// Any counted failure while HalfOpen transitions the breaker to Open.
pub proof fn lemma_half_open_failure_opens(
    pre: CircuitBreaker,
    post: CircuitBreaker,
    duration_ms: u64,
    now_ms: u64,
    event: Option<CircuitTransitionEvent>,
)
    requires
        pre.wf(),
        failure_rel(pre, post, duration_ms, now_ms, event),
        pre.state is HalfOpen,
    ensures
        post.state is Open,
        post.opened_at_ms == Some(now_ms),
        event is Some,
{
}

/// `trip` followed immediately by `reset` leaves the breaker Closed with
/// both consecutive counters at zero and both windows empty.
pub proof fn lemma_trip_then_reset(
    b0: CircuitBreaker,
    b1: CircuitBreaker,
    b2: CircuitBreaker,
    t1: u64,
    t2: u64,
    e1: CircuitTransitionEvent,
    e2: CircuitTransitionEvent,
)
    requires
        b0.wf(),
        trip_rel(b0, b1, t1, e1),
        reset_rel(b1, b2, t2, e2),
    ensures
        b2.state is Closed,
        b2.consecutive_failures == 0,
        b2.consecutive_successes == 0,
        b2.results_window@.len() == 0,
        b2.slow_call_window@.len() == 0,
        b2.half_open_concurrency_count == 0,
{
}

} // verus!

