//! Error classification, user impact assessment, circuit breakers and the
//! bookkeeping of recovery attempts.

use crate::clock::unix_now_secs;
use vstd::string::*;
use vstd::prelude::*;

verus! {

/// Error classification.
#[derive(Debug, Clone, Copy, PartialEq, Eq, Hash)]
pub enum ErrorType {
    NetworkError,
    MemoryError,
    IOError,
    SecurityError,
    ConfigurationError,
    ServiceError,
    DatabaseError,
    VideoError,
    AudioError,
    ProtocolError,
    ResourceExhaustion,
    Unknown,
}

/// Error severity, from least to most severe.
#[derive(Debug, Clone, Copy, PartialEq, Eq, PartialOrd, Ord, Hash)]
pub enum ErrorSeverity {
    Low,
    Medium,
    High,
    Critical,
}

/// Rank of a severity in the order `Low < Medium < High < Critical`.
pub open spec fn severity_rank(s: ErrorSeverity) -> int {
    match s {
        ErrorSeverity::Low => 0,
        ErrorSeverity::Medium => 1,
        ErrorSeverity::High => 2,
        ErrorSeverity::Critical => 3,
    }
}

/// Rank of a severity in the order `Low < Medium < High < Critical`.
pub fn severity_level(s: ErrorSeverity) -> (r: u8)
    ensures
        r == severity_rank(s),
{
    match s {
        ErrorSeverity::Low => 0,
        ErrorSeverity::Medium => 1,
        ErrorSeverity::High => 2,
        ErrorSeverity::Critical => 3,
    }
}

/// Whether an error of this severity starts automatic recovery: `High` and
/// above.
pub fn triggers_recovery(s: ErrorSeverity) -> (b: bool)
    ensures
        b == (severity_rank(s) >= severity_rank(ErrorSeverity::High)),
{
    severity_level(s) >= 2
}

/// How badly users are affected.
#[derive(Debug, Clone, Copy, PartialEq, Eq)]
pub enum UserImpactLevel {
    /// Users are not affected.
    Unaffected,
    Minimal,
    Moderate,
    Severe,
    Complete,
}

/// Life cycle of an error correlation.
#[derive(Debug, Clone, Copy, PartialEq, Eq)]
pub enum CorrelationStatus {
    New,
    Recovering,
    Resolved,
    Failed,
    Closed,
}

/// Disk I/O counters of a system snapshot.
#[derive(Debug, Clone, Copy, PartialEq, Eq)]
pub struct DiskIOStats {
    pub read_bytes_per_sec: u64,
    pub write_bytes_per_sec: u64,
    pub read_ops_per_sec: u64,
    pub write_ops_per_sec: u64,
}

/// Whether the error concerns the media path users see and hear.
pub open spec fn is_media(t: ErrorType) -> bool {
    t == ErrorType::VideoError || t == ErrorType::AudioError
}

/// The impact table: critical errors take the service down; high-severity
/// media and network errors are severe, other high ones moderate; medium
/// media errors are moderate, other medium ones minimal; low ones none.
pub open spec fn impact_of(t: ErrorType, s: ErrorSeverity) -> UserImpactLevel {
    match s {
        ErrorSeverity::Critical => UserImpactLevel::Complete,
        ErrorSeverity::High => if is_media(t) || t == ErrorType::NetworkError {
            UserImpactLevel::Severe
        } else {
            UserImpactLevel::Moderate
        },
        ErrorSeverity::Medium => if is_media(t) {
            UserImpactLevel::Moderate
        } else {
            UserImpactLevel::Minimal
        },
        ErrorSeverity::Low => UserImpactLevel::Unaffected,
    }
}

/// Assesses the user impact of an error from its type and severity.
pub fn assess_user_impact(error_type: ErrorType, severity: ErrorSeverity) -> (r: UserImpactLevel)
    ensures
        r == impact_of(error_type, severity),
{
    match (error_type, severity) {
        (_, ErrorSeverity::Critical) => UserImpactLevel::Complete,
        (ErrorType::VideoError, ErrorSeverity::High) | (ErrorType::AudioError, ErrorSeverity::High) => {
            UserImpactLevel::Severe
        },
        (ErrorType::NetworkError, ErrorSeverity::High) => UserImpactLevel::Severe,
        (_, ErrorSeverity::High) => UserImpactLevel::Moderate,
        (ErrorType::VideoError, ErrorSeverity::Medium) | (ErrorType::AudioError, ErrorSeverity::Medium) => {
            UserImpactLevel::Moderate
        },
        (_, ErrorSeverity::Medium) => UserImpactLevel::Minimal,
        _ => UserImpactLevel::Unaffected,
    }
}

/// Rank of an impact level, `None` lowest.
pub open spec fn impact_rank(l: UserImpactLevel) -> int {
    match l {
        UserImpactLevel::Unaffected => 0,
        UserImpactLevel::Minimal => 1,
        UserImpactLevel::Moderate => 2,
        UserImpactLevel::Severe => 3,
        UserImpactLevel::Complete => 4,
    }
}

/// A more severe error never has a smaller user impact, whatever its type.
pub proof fn lemma_impact_monotone(t: ErrorType, a: ErrorSeverity, b: ErrorSeverity)
    requires
        severity_rank(a) <= severity_rank(b),
    ensures
        impact_rank(impact_of(t, a)) <= impact_rank(impact_of(t, b)),
{
}

/// State of a circuit breaker.
#[derive(Debug, Clone, Copy, PartialEq, Eq)]
pub enum CircuitBreakerState {
    /// Requests pass.
    Closed,
    /// Requests are rejected.
    Open,
    /// Requests pass while the service is being tested.
    HalfOpen,
}

/// Circuit breaker settings; durations in whole seconds.
#[derive(Debug, Clone, Copy, PartialEq, Eq)]
pub struct CircuitBreakerConfig {
    /// Failures that open a closed breaker.
    pub failure_threshold: usize,
    /// Seconds after the last failure before an open breaker tries again.
    pub recovery_timeout_secs: u64,
    /// Successes that close a half-open breaker.
    pub success_threshold: usize,
    /// Requests allowed at once while half open.
    pub half_open_max_requests: usize,
    /// Seconds a request may take.
    pub request_timeout_secs: u64,
}

impl CircuitBreakerConfig {
    /// Five failures open the breaker, thirty seconds of rest half-open it,
    /// three successes close it.
    pub fn default_config() -> (c: Self)
        ensures
            c == (CircuitBreakerConfig {
                failure_threshold: 5,
                recovery_timeout_secs: 30,
                success_threshold: 3,
                half_open_max_requests: 3,
                request_timeout_secs: 10,
            }),
    {
        CircuitBreakerConfig {
            failure_threshold: 5,
            recovery_timeout_secs: 30,
            success_threshold: 3,
            half_open_max_requests: 3,
            request_timeout_secs: 10,
        }
    }
}

impl Default for CircuitBreakerConfig {
    fn default() -> (c: Self)
        ensures
            c == (CircuitBreakerConfig {
                failure_threshold: 5,
                recovery_timeout_secs: 30,
                success_threshold: 3,
                half_open_max_requests: 3,
                request_timeout_secs: 10,
            }),
    {
        Self::default_config()
    }
}

/// Request counters of a circuit breaker.
#[derive(Debug, Clone, Copy, PartialEq, Eq)]
pub struct CircuitBreakerMetrics {
    pub total_requests: u64,
    pub successful_requests: u64,
    pub failed_requests: u64,
    pub rejected_requests: u64,
    pub state_transitions: u64,
    pub time_in_open_state: u64,
    pub recovery_attempts: u64,
}

/// A counter after one more event, wrapping after the largest value.
pub open spec fn bumped(x: u64) -> u64 {
    if x == u64::MAX {
        0
    } else {
        (x + 1) as u64
    }
}

/// `usize` counter after one more event, wrapping after the largest value.
pub open spec fn bumped_usize(x: usize) -> usize {
    if x == usize::MAX {
        0
    } else {
        (x + 1) as usize
    }
}

/// The decision state of a circuit breaker: its state, its failure and
/// success counts and the time of the last failure in seconds since 1970.
#[derive(Debug, Clone, Copy, PartialEq, Eq)]
pub struct BreakerCore {
    pub state: CircuitBreakerState,
    pub failure_count: usize,
    pub success_count: usize,
    pub last_failure: u64,
}

impl BreakerCore {
    /// A closed breaker with no history.
    pub open spec fn fresh() -> Self {
        BreakerCore {
            state: CircuitBreakerState::Closed,
            failure_count: 0,
            success_count: 0,
            last_failure: 0,
        }
    }

    /// Seconds from the last failure to `now`, zero if the clock reads
    /// earlier.
    pub open spec fn since_failure(self, now: u64) -> u64 {
        if now >= self.last_failure {
            (now - self.last_failure) as u64
        } else {
            0
        }
    }

    /// The state after a success at time `now`: a half-open breaker closes
    /// (and clears both counts) once the successes reach the threshold; an
    /// open breaker half-opens (with one success counted) once the recovery
    /// timeout has passed since the last failure; a closed one clears its
    /// failures.
    pub open spec fn after_success(self, config: CircuitBreakerConfig, now: u64) -> Self {
        let successes = bumped_usize(self.success_count);
        match self.state {
            CircuitBreakerState::HalfOpen => if successes >= config.success_threshold {
                BreakerCore {
                    state: CircuitBreakerState::Closed,
                    failure_count: 0,
                    success_count: 0,
                    ..self
                }
            } else {
                BreakerCore { success_count: successes, ..self }
            },
            CircuitBreakerState::Open => if self.since_failure(now)
                >= config.recovery_timeout_secs {
                BreakerCore { state: CircuitBreakerState::HalfOpen, success_count: 1, ..self }
            } else {
                BreakerCore { success_count: successes, ..self }
            },
            CircuitBreakerState::Closed => BreakerCore {
                failure_count: 0,
                success_count: successes,
                ..self
            },
        }
    }

    /// The state after a failure at time `now`: the failure is counted and
    /// stamped; a closed breaker opens once the failures reach the
    /// threshold; a half-open one opens at once and clears its successes.
    pub open spec fn after_failure(self, config: CircuitBreakerConfig, now: u64) -> Self {
        let failures = bumped_usize(self.failure_count);
        let counted = BreakerCore { failure_count: failures, last_failure: now, ..self };
        match self.state {
            CircuitBreakerState::Closed => if failures >= config.failure_threshold {
                BreakerCore { state: CircuitBreakerState::Open, ..counted }
            } else {
                counted
            },
            CircuitBreakerState::HalfOpen => BreakerCore {
                state: CircuitBreakerState::Open,
                success_count: 0,
                ..counted
            },
            CircuitBreakerState::Open => counted,
        }
    }
}

/// Automatic protection of a component: after repeated failures requests
/// are rejected for a while, then let through on trial.
pub struct CircuitBreaker {
    core: BreakerCore,
    config: CircuitBreakerConfig,
    metrics: CircuitBreakerMetrics,
}

impl CircuitBreaker {
    /// The decision state.
    pub closed spec fn spec_core(&self) -> BreakerCore {
        self.core
    }

    /// The settings.
    pub closed spec fn spec_config(&self) -> CircuitBreakerConfig {
        self.config
    }

    /// The counters.
    pub closed spec fn spec_metrics(&self) -> CircuitBreakerMetrics {
        self.metrics
    }

    /// A closed breaker with no history and zeroed counters.
    pub fn new(config: CircuitBreakerConfig) -> (b: Self)
        ensures
            b.spec_core() == BreakerCore::fresh(),
            b.spec_config() == config,
            b.spec_metrics() == (CircuitBreakerMetrics {
                total_requests: 0,
                successful_requests: 0,
                failed_requests: 0,
                rejected_requests: 0,
                state_transitions: 0,
                time_in_open_state: 0,
                recovery_attempts: 0,
            }),
    {
        CircuitBreaker {
            core: BreakerCore {
                state: CircuitBreakerState::Closed,
                failure_count: 0,
                success_count: 0,
                last_failure: 0,
            },
            config,
            metrics: CircuitBreakerMetrics {
                total_requests: 0,
                successful_requests: 0,
                failed_requests: 0,
                rejected_requests: 0,
                state_transitions: 0,
                time_in_open_state: 0,
                recovery_attempts: 0,
            },
        }
    }

    /// Records a successful operation at time `now` (seconds since 1970).
    pub fn record_success_at(&mut self, now: u64)
        ensures
            final(self).spec_core() == old(self).spec_core().after_success(
                old(self).spec_config(),
                now,
            ),
            final(self).spec_config() == old(self).spec_config(),
            final(self).spec_metrics() == (CircuitBreakerMetrics {
                total_requests: bumped(old(self).spec_metrics().total_requests),
                successful_requests: bumped(old(self).spec_metrics().successful_requests),
                state_transitions: if final(self).spec_core().state != old(self).spec_core().state {
                    bumped(old(self).spec_metrics().state_transitions)
                } else {
                    old(self).spec_metrics().state_transitions
                },
                ..old(self).spec_metrics()
            }),
    {
        self.metrics.total_requests = self.metrics.total_requests.wrapping_add(1);
        self.metrics.successful_requests = self.metrics.successful_requests.wrapping_add(1);
        let success_count = self.core.success_count.wrapping_add(1);
        self.core.success_count = success_count;
        match self.core.state {
            CircuitBreakerState::HalfOpen => {
                if success_count >= self.config.success_threshold {
                    self.core.state = CircuitBreakerState::Closed;
                    self.core.failure_count = 0;
                    self.core.success_count = 0;
                    self.metrics.state_transitions = self.metrics.state_transitions.wrapping_add(1);
                }
            },
            CircuitBreakerState::Open => {
                let last_failure = self.core.last_failure;
                let elapsed = if now >= last_failure {
                    now - last_failure
                } else {
                    0
                };
                if elapsed >= self.config.recovery_timeout_secs {
                    self.core.state = CircuitBreakerState::HalfOpen;
                    self.core.success_count = 1;
                    self.metrics.state_transitions = self.metrics.state_transitions.wrapping_add(1);
                }
            },
            CircuitBreakerState::Closed => {
                self.core.failure_count = 0;
            },
        }
    }

    /// Records a failed operation at time `now` (seconds since 1970).
    pub fn record_failure_at(&mut self, now: u64)
        ensures
            final(self).spec_core() == old(self).spec_core().after_failure(
                old(self).spec_config(),
                now,
            ),
            final(self).spec_config() == old(self).spec_config(),
            final(self).spec_metrics() == (CircuitBreakerMetrics {
                total_requests: bumped(old(self).spec_metrics().total_requests),
                failed_requests: bumped(old(self).spec_metrics().failed_requests),
                state_transitions: if final(self).spec_core().state != old(self).spec_core().state {
                    bumped(old(self).spec_metrics().state_transitions)
                } else {
                    old(self).spec_metrics().state_transitions
                },
                ..old(self).spec_metrics()
            }),
    {
        self.metrics.total_requests = self.metrics.total_requests.wrapping_add(1);
        self.metrics.failed_requests = self.metrics.failed_requests.wrapping_add(1);
        let failure_count = self.core.failure_count.wrapping_add(1);
        self.core.failure_count = failure_count;
        self.core.last_failure = now;
        match self.core.state {
            CircuitBreakerState::Closed => {
                if failure_count >= self.config.failure_threshold {
                    self.core.state = CircuitBreakerState::Open;
                    self.metrics.state_transitions = self.metrics.state_transitions.wrapping_add(1);
                }
            },
            CircuitBreakerState::HalfOpen => {
                self.core.state = CircuitBreakerState::Open;
                self.core.success_count = 0;
                self.metrics.state_transitions = self.metrics.state_transitions.wrapping_add(1);
            },
            CircuitBreakerState::Open => {},
        }
    }

    /// Records a successful operation now.
    pub fn record_success(&mut self)
        ensures
            exists|now: u64|
                final(self).spec_core() == #[trigger] old(self).spec_core().after_success(
                    old(self).spec_config(),
                    now,
                ),
            final(self).spec_config() == old(self).spec_config(),
    {
        let now = unix_now_secs();
        self.record_success_at(now);
    }

    /// Records a failed operation now.
    pub fn record_failure(&mut self)
        ensures
            exists|now: u64|
                final(self).spec_core() == #[trigger] old(self).spec_core().after_failure(
                    old(self).spec_config(),
                    now,
                ),
            final(self).spec_config() == old(self).spec_config(),
    {
        let now = unix_now_secs();
        self.record_failure_at(now);
    }

    /// Whether a request may pass: all but an open breaker let it through.
    pub fn is_request_allowed(&self) -> (b: bool)
        ensures
            b == (self.spec_core().state != CircuitBreakerState::Open),
    {
        match self.core.state {
            CircuitBreakerState::Closed => true,
            CircuitBreakerState::Open => false,
            CircuitBreakerState::HalfOpen => true,
        }
    }

    /// The current state.
    pub fn get_state(&self) -> (s: CircuitBreakerState)
        ensures
            s == self.spec_core().state,
    {
        self.core.state
    }

    /// The request counters.
    pub fn get_metrics(&self) -> (m: CircuitBreakerMetrics)
        ensures
            m == self.spec_metrics(),
    {
        self.metrics
    }
}

/// The tracing span an error was seen in: its trace and span ids, the
/// parent span's id where there is one, and the baggage carried along.
#[derive(Debug, Clone)]
pub struct SpanContext {
    pub trace_id: String,
    pub span_id: String,
    pub parent_span_id: Option<String>,
    pub baggage: std::collections::HashMap<String, String>,
}

/// What a recovery strategy reported, without its details.
#[derive(Debug, Clone, Copy, PartialEq, Eq)]
pub enum RecoveryOutcome {
    Success,
    RetryableFailure,
    PermanentFailure,
    InProgress,
}

/// Counters of recovery attempts.
#[derive(Debug, Clone, Copy, PartialEq, Eq)]
pub struct RecoveryCounters {
    pub recovery_attempts: u64,
    pub successful_recoveries: u64,
    pub failed_recoveries: u64,
}

/// Books one recovery attempt and its outcome, and says whether to stop
/// trying further strategies: a success or a permanent failure stops, a
/// retryable failure or a recovery in progress goes on to the next one.
/// Successes and both kinds of failure are counted.
pub fn record_recovery_outcome(counters: &mut RecoveryCounters, outcome: RecoveryOutcome) -> (stop: bool)
    ensures
        stop == (outcome == RecoveryOutcome::Success || outcome == RecoveryOutcome::PermanentFailure),
        final(counters).recovery_attempts == bumped(old(counters).recovery_attempts),
        final(counters).successful_recoveries == if outcome == RecoveryOutcome::Success {
            bumped(old(counters).successful_recoveries)
        } else {
            old(counters).successful_recoveries
        },
        final(counters).failed_recoveries == if outcome == RecoveryOutcome::RetryableFailure
            || outcome == RecoveryOutcome::PermanentFailure {
            bumped(old(counters).failed_recoveries)
        } else {
            old(counters).failed_recoveries
        },
{
    counters.recovery_attempts = counters.recovery_attempts.wrapping_add(1);
    match outcome {
        RecoveryOutcome::Success => {
            counters.successful_recoveries = counters.successful_recoveries.wrapping_add(1);
            true
        },
        RecoveryOutcome::PermanentFailure => {
            counters.failed_recoveries = counters.failed_recoveries.wrapping_add(1);
            true
        },
        RecoveryOutcome::RetryableFailure => {
            counters.failed_recoveries = counters.failed_recoveries.wrapping_add(1);
            false
        },
        RecoveryOutcome::InProgress => false,
    }
}

/// What the recovery loop knows of one registered strategy: whether it can
/// handle the error at hand, and its priority (higher is preferred).
#[derive(Debug, Clone, Copy, PartialEq, Eq)]
pub struct StrategyCandidate {
    pub can_handle: bool,
    pub priority: u32,
}

/// Whether `plan` lists, each once, exactly the positions of the candidates
/// that can handle the error, highest priority first, and candidates of
/// equal priority in their own order.
pub open spec fn is_recovery_plan(candidates: Seq<StrategyCandidate>, plan: Seq<usize>) -> bool {
    &&& plan.no_duplicates()
    &&& forall|k: int|
        0 <= k < plan.len() ==> #[trigger] plan[k] < candidates.len() && candidates[plan[k] as int].can_handle
    &&& forall|j: int|
        0 <= j < candidates.len() && #[trigger] candidates[j].can_handle ==> plan.contains(j as usize)
    &&& forall|a: int, b: int|
        0 <= a < b < plan.len() ==> candidates[#[trigger] plan[a] as int].priority
            >= candidates[#[trigger] plan[b] as int].priority
    &&& forall|a: int, b: int|
        0 <= a < b < plan.len() && candidates[#[trigger] plan[a] as int].priority
            == candidates[#[trigger] plan[b] as int].priority ==> plan[a] < plan[b]
}

/// The order in which recovery strategies are tried for an error: the
/// positions of the candidates that can handle it, by priority, highest
/// first; among equal priorities the earlier candidate comes first.
pub fn plan_recovery(candidates: &Vec<StrategyCandidate>) -> (plan: Vec<usize>)
    ensures
        is_recovery_plan(candidates@, plan@),
{
    let mut plan: Vec<usize> = Vec::new();
    let mut i: usize = 0;
    while i < candidates.len()
        invariant
            i <= candidates@.len(),
            plan@.no_duplicates(),
            forall|k: int|
                0 <= k < plan@.len() ==> #[trigger] plan@[k] < i && candidates@[plan@[k] as int].can_handle,
            forall|j: int| 0 <= j < i && #[trigger] candidates@[j].can_handle ==> plan@.contains(j as usize),
            forall|a: int, b: int|
                0 <= a < b < plan@.len() ==> candidates@[#[trigger] plan@[a] as int].priority
                    >= candidates@[#[trigger] plan@[b] as int].priority,
            forall|a: int, b: int|
                0 <= a < b < plan@.len() && candidates@[#[trigger] plan@[a] as int].priority
                    == candidates@[#[trigger] plan@[b] as int].priority ==> plan@[a] < plan@[b],
        decreases candidates@.len() - i,
    {
        let c = candidates[i];
        if c.can_handle {
            let mut p: usize = 0;
            while p < plan.len() && candidates[plan[p]].priority >= c.priority
                invariant
                    p <= plan@.len(),
                    i < candidates@.len(),
                    c == candidates@[i as int],
                    forall|k: int| 0 <= k < plan@.len() ==> #[trigger] plan@[k] < i,
                    forall|k: int| 0 <= k < p ==> candidates@[#[trigger] plan@[k] as int].priority >= c.priority,
                decreases plan@.len() - p,
            {
                p = p + 1;
            }
            let ghost before = plan@;
            plan.insert(p, i);
            proof {
                before.insert_ensures(p as int, i);
                assert(plan@ == before.insert(p as int, i));
                assert forall|k: int| 0 <= k < plan@.len() implies #[trigger] plan@[k] < i + 1
                    && candidates@[plan@[k] as int].can_handle by {
                    if k > p {
                        assert(plan@[k] == before[k - 1]);
                    }
                }
                assert forall|a: int, b: int| 0 <= a < b < plan@.len() implies #[trigger] plan@[a] != #[trigger] plan@[b] by {
                    if a < p && b > p {
                        assert(plan@[b] == before[b - 1]);
                    } else if a > p {
                        assert(plan@[a] == before[a - 1]);
                        assert(plan@[b] == before[b - 1]);
                    } else if a == p {
                        assert(plan@[b] == before[b - 1]);
                    }
                }
                assert forall|a: int, b: int| 0 <= a < b < plan@.len() implies candidates@[#[trigger] plan@[a] as int].priority
                    >= candidates@[#[trigger] plan@[b] as int].priority by {
                    if a < p && b > p {
                        assert(plan@[b] == before[b - 1]);
                        assert(before[a] == plan@[a]);
                    } else if a > p {
                        assert(plan@[a] == before[a - 1]);
                        assert(plan@[b] == before[b - 1]);
                    } else if a == p {
                        assert(plan@[b] == before[b - 1]);
                        assert(p < before.len());
                        assert(candidates@[before[p as int] as int].priority < c.priority);
                        if b - 1 > p {
                            assert(candidates@[before[p as int] as int].priority >= candidates@[before[b - 1] as int].priority);
                        }
                    }
                }
                assert forall|a: int, b: int|
                    0 <= a < b < plan@.len() && candidates@[#[trigger] plan@[a] as int].priority
                        == candidates@[#[trigger] plan@[b] as int].priority implies plan@[a] < plan@[b] by {
                    if a < p && b > p {
                        assert(plan@[b] == before[b - 1]);
                        assert(before[a] == plan@[a]);
                    } else if a > p {
                        assert(plan@[a] == before[a - 1]);
                        assert(plan@[b] == before[b - 1]);
                    } else if a == p {
                        assert(plan@[b] == before[b - 1]);
                        assert(candidates@[before[p as int] as int].priority < c.priority);
                        if b - 1 > p {
                            assert(candidates@[before[p as int] as int].priority >= candidates@[before[b - 1] as int].priority);
                        }
                    } else {
                        assert(plan@[a] == before[a]);
                        if b > p {
                            assert(plan@[b] == before[b - 1]);
                        }
                    }
                }
                assert forall|j: int| 0 <= j < i + 1 && #[trigger] candidates@[j].can_handle implies plan@.contains(j as usize) by {
                    if j == i {
                        assert(plan@[p as int] == i);
                    } else {
                        assert(before.contains(j as usize));
                        let q = choose|q: int| 0 <= q < before.len() && before[q] == j as usize;
                        if q < p {
                            assert(plan@[q] == before[q]);
                        } else {
                            assert(plan@[q + 1] == before[q]);
                        }
                    }
                }
            }
        }
        i = i + 1;
    }
    plan
}

/// The breaker after `n` failures at time `now`.
pub open spec fn failures(core: BreakerCore, config: CircuitBreakerConfig, now: u64, n: nat) -> BreakerCore
    decreases n,
{
    if n == 0 {
        core
    } else {
        failures(core, config, now, (n - 1) as nat).after_failure(config, now)
    }
}

/// A fresh breaker is open after `failure_threshold` failures in a row (and
/// after any larger number), and stays closed before.
pub proof fn lemma_failures_open_breaker(config: CircuitBreakerConfig, now: u64, n: nat)
    requires
        n <= usize::MAX,
    ensures
        failures(BreakerCore::fresh(), config, now, n).failure_count == n,
        (failures(BreakerCore::fresh(), config, now, n).state == CircuitBreakerState::Open) <==> (
        n >= 1 && n >= config.failure_threshold),
    decreases n,
{
    if n > 0 {
        lemma_failures_open_breaker(config, now, (n - 1) as nat);
    }
}

/// An open breaker that has rested for the recovery timeout since its last
/// failure half-opens on a success, with that one success counted.
pub proof fn lemma_rested_breaker_half_opens(core: BreakerCore, config: CircuitBreakerConfig, now: u64)
    requires
        core.state == CircuitBreakerState::Open,
        now >= core.last_failure,
        now - core.last_failure >= config.recovery_timeout_secs,
    ensures
        core.after_success(config, now).state == CircuitBreakerState::HalfOpen,
        core.after_success(config, now).success_count == 1,
        core.after_success(config, now).failure_count == core.failure_count,
{
}

/// A closed breaker with no failures counted opens on its
/// `failure_threshold`-th failure in a row and stays closed before.
proof fn lemma_failures_from_clear(core: BreakerCore, config: CircuitBreakerConfig, now: u64, n: nat)
    requires
        core.state == CircuitBreakerState::Closed,
        core.failure_count == 0,
        n <= usize::MAX,
    ensures
        failures(core, config, now, n).failure_count == n,
        (failures(core, config, now, n).state == CircuitBreakerState::Open) <==> (n >= 1 && n
            >= config.failure_threshold),
    decreases n,
{
    if n > 0 {
        lemma_failures_from_clear(core, config, now, (n - 1) as nat);
    }
}

/// A success on a closed breaker forgets the failures before it: the
/// breaker stays closed with no failure counted, and it then takes
/// `failure_threshold` failures in a row (at any later time) to open it,
/// however many failures came before the success.
pub proof fn lemma_success_clears_failures(
    core: BreakerCore,
    config: CircuitBreakerConfig,
    now: u64,
    later: u64,
    n: nat,
)
    requires
        core.state == CircuitBreakerState::Closed,
        n <= usize::MAX,
    ensures
        core.after_success(config, now).state == CircuitBreakerState::Closed,
        core.after_success(config, now).failure_count == 0,
        (failures(core.after_success(config, now), config, later, n).state == CircuitBreakerState::Open)
            <==> (n >= 1 && n >= config.failure_threshold),
{
    lemma_failures_from_clear(core.after_success(config, now), config, later, n);
}

/// An open breaker that has not rested for the recovery timeout stays open
/// on a success, and every failure leaves an open breaker open.
pub proof fn lemma_open_until_timeout(core: BreakerCore, config: CircuitBreakerConfig, now: u64)
    requires
        core.state == CircuitBreakerState::Open,
    ensures
        core.since_failure(now) < config.recovery_timeout_secs ==> core.after_success(
            config,
            now,
        ).state == CircuitBreakerState::Open,
        core.after_failure(config, now).state == CircuitBreakerState::Open,
{
}

/// A failure while half open reopens the breaker; enough successes while
/// half open close it with clean counts.
pub proof fn lemma_half_open_transitions(core: BreakerCore, config: CircuitBreakerConfig, now: u64)
    requires
        core.state == CircuitBreakerState::HalfOpen,
        core.success_count < usize::MAX,
    ensures
        core.after_failure(config, now).state == CircuitBreakerState::Open,
        core.success_count + 1 >= config.success_threshold ==> core.after_success(config, now)
            == (BreakerCore {
            state: CircuitBreakerState::Closed,
            failure_count: 0,
            success_count: 0,
            last_failure: core.last_failure,
        }),
{
}

/// The step of a breaker after a success or a failure at time `now`.
pub open spec fn breaker_step(core: BreakerCore, config: CircuitBreakerConfig, success: bool, now: u64) -> BreakerCore {
    if success {
        core.after_success(config, now)
    } else {
        core.after_failure(config, now)
    }
}

/// The breaker settings configured for `component`, if any; the first
/// entry under that name counts.
pub open spec fn configured_breaker(configs: Seq<(String, CircuitBreakerConfig)>, component: Seq<char>) -> Option<CircuitBreakerConfig>
    decreases configs.len(),
{
    if configs.len() == 0 {
        None
    } else if configs[0].0@ == component {
        Some(configs[0].1)
    } else {
        configured_breaker(configs.drop_first(), component)
    }
}

/// The breaker settings used for `component`: its own, else the defaults.
pub open spec fn breaker_config_for(configs: Seq<(String, CircuitBreakerConfig)>, component: Seq<char>) -> CircuitBreakerConfig {
    match configured_breaker(configs, component) {
        Some(c) => c,
        None => CircuitBreakerConfig {
            failure_threshold: 5,
            recovery_timeout_secs: 30,
            success_threshold: 3,
            half_open_max_requests: 3,
            request_timeout_secs: 10,
        },
    }
}

/// Whether `after` is `before` with the breaker of `component` stepped by
/// a success or failure at `now`; a component without a breaker gets a
/// fresh one with `config` first.
pub open spec fn breaker_updated(
    before: Seq<(String, CircuitBreaker)>,
    after: Seq<(String, CircuitBreaker)>,
    component: Seq<char>,
    config: CircuitBreakerConfig,
    success: bool,
    now: u64,
) -> bool {
    if exists|i: int| 0 <= i < before.len() && #[trigger] before[i].0@ == component {
        exists|i: int|
            0 <= i < before.len() && #[trigger] before[i].0@ == component && {
                &&& after.len() == before.len()
                &&& after[i].0 == before[i].0
                &&& after[i].1.spec_config() == before[i].1.spec_config()
                &&& after[i].1.spec_core() == breaker_step(
                    before[i].1.spec_core(),
                    before[i].1.spec_config(),
                    success,
                    now,
                )
                &&& forall|j: int| 0 <= j < before.len() && j != i ==> after[j] == before[j]
            }
    } else {
        &&& after.len() == before.len() + 1
        &&& after.take(before.len() as int) == before
        &&& after.last().0@ == component
        &&& after.last().1.spec_config() == config
        &&& after.last().1.spec_core() == breaker_step(BreakerCore::fresh(), config, success, now)
    }
}

/// An error correlation, as the first error filed under its id set it up.
#[derive(Debug)]
pub struct ErrorCorrelation {
    pub correlation_id: String,
    pub affected_components: Vec<String>,
    pub user_impact: UserImpactLevel,
    /// Seconds since 1970.
    pub created_at: u64,
    /// Seconds since 1970.
    pub last_updated: u64,
    pub severity: ErrorSeverity,
    pub status: CorrelationStatus,
}

/// Settings of error recovery; durations in seconds.
#[derive(Debug, Clone)]
pub struct ErrorRecoveryConfig {
    pub max_correlations: usize,
    pub correlation_cleanup_interval_secs: u64,
    /// How long a finished correlation is kept.
    pub correlation_retention_secs: u64,
    pub max_recovery_attempts: usize,
    /// Breaker settings by component.
    pub circuit_breaker_configs: Vec<(String, CircuitBreakerConfig)>,
    pub enable_distributed_notifications: bool,
}

impl Default for ErrorRecoveryConfig {
    /// A thousand correlations, cleaned every five minutes and kept an hour
    /// after they finish; three recovery attempts; default breakers;
    /// notifications on.
    fn default() -> (c: Self)
        ensures
            c.max_correlations == 1000,
            c.correlation_cleanup_interval_secs == 300,
            c.correlation_retention_secs == 3600,
            c.max_recovery_attempts == 3,
            c.circuit_breaker_configs@.len() == 0,
            c.enable_distributed_notifications,
    {
        ErrorRecoveryConfig {
            max_correlations: 1000,
            correlation_cleanup_interval_secs: 300,
            correlation_retention_secs: 3600,
            max_recovery_attempts: 3,
            circuit_breaker_configs: Vec::new(),
            enable_distributed_notifications: true,
        }
    }
}

/// Counts of the recovery system.
#[derive(Debug, Clone, Copy, PartialEq, Eq)]
pub struct ErrorRecoveryStats {
    pub total_errors: u64,
    pub recovery_attempts: u64,
    pub successful_recoveries: u64,
    pub failed_recoveries: u64,
    pub active_correlations: usize,
    pub total_correlations: u64,
}

/// Whether a finished correlation has outlived the retention time: only
/// resolved, failed and closed correlations expire.
pub open spec fn expired(status: CorrelationStatus, last_updated: u64, retention_secs: u64, now: u64) -> bool {
    &&& (status == CorrelationStatus::Resolved || status == CorrelationStatus::Failed || status
        == CorrelationStatus::Closed)
    &&& (if now >= last_updated {
        now - last_updated
    } else {
        0
    }) >= retention_secs
}

/// Whether a correlation is let go at `now`.
pub fn correlation_expired(status: CorrelationStatus, last_updated: u64, retention_secs: u64, now: u64) -> (b: bool)
    ensures
        b == expired(status, last_updated, retention_secs, now),
{
    let age = if now >= last_updated {
        now - last_updated
    } else {
        0
    };
    match status {
        CorrelationStatus::Resolved | CorrelationStatus::Failed | CorrelationStatus::Closed => age
            >= retention_secs,
        _ => false,
    }
}

/// `uuid::Uuid::new_v4` in its hyphenated text form. It is random: nothing
/// is claimed of the value.
#[verifier::external_body]
fn random_uuid_text() -> String {
    uuid::Uuid::new_v4().to_string()
}

/// The ids of correlations.
pub open spec fn correlation_ids(c: Seq<ErrorCorrelation>) -> Seq<Seq<char>> {
    c.map_values(|x: ErrorCorrelation| x.correlation_id@)
}

/// No two correlations share an id, and no two breakers a component.
pub open spec fn tables_unique(c: Seq<ErrorCorrelation>, b: Seq<(String, CircuitBreaker)>) -> bool {
    &&& forall|i: int, j: int|
        0 <= i < j < c.len() ==> #[trigger] c[i].correlation_id@ != #[trigger] c[j].correlation_id@
    &&& forall|i: int, j: int| 0 <= i < j < b.len() ==> #[trigger] b[i].0@ != #[trigger] b[j].0@
}

/// Correlation of errors across components, circuit breakers per
/// component, and the counts of both.
pub struct ErrorRecoverySystem {
    correlations: Vec<ErrorCorrelation>,
    circuit_breakers: Vec<(String, CircuitBreaker)>,
    config: ErrorRecoveryConfig,
    total_errors: u64,
    correlation_count: u64,
    recovery: RecoveryCounters,
}

impl ErrorRecoverySystem {
    /// The correlations, in the order they were opened.
    pub closed spec fn spec_correlations(&self) -> Seq<ErrorCorrelation> {
        self.correlations@
    }

    /// The breakers, by component.
    pub closed spec fn spec_breakers(&self) -> Seq<(String, CircuitBreaker)> {
        self.circuit_breakers@
    }

    pub closed spec fn spec_config(&self) -> ErrorRecoveryConfig {
        self.config
    }

    pub closed spec fn spec_stats(&self) -> ErrorRecoveryStats {
        ErrorRecoveryStats {
            total_errors: self.total_errors,
            recovery_attempts: self.recovery.recovery_attempts,
            successful_recoveries: self.recovery.successful_recoveries,
            failed_recoveries: self.recovery.failed_recoveries,
            active_correlations: self.correlations@.len() as usize,
            total_correlations: self.correlation_count,
        }
    }

    /// Ids and components are unique.
    pub closed spec fn wf(&self) -> bool {
        tables_unique(self.correlations@, self.circuit_breakers@)
    }

    /// A system with no correlations, no breakers and zeroed counts.
    pub fn new(config: ErrorRecoveryConfig) -> (s: Self)
        ensures
            s.wf(),
            s.spec_correlations().len() == 0,
            s.spec_breakers().len() == 0,
            s.spec_config() == config,
            s.spec_stats() == (ErrorRecoveryStats {
                total_errors: 0,
                recovery_attempts: 0,
                successful_recoveries: 0,
                failed_recoveries: 0,
                active_correlations: 0,
                total_correlations: 0,
            }),
    {
        ErrorRecoverySystem {
            correlations: Vec::new(),
            circuit_breakers: Vec::new(),
            config,
            total_errors: 0,
            correlation_count: 0,
            recovery: RecoveryCounters {
                recovery_attempts: 0,
                successful_recoveries: 0,
                failed_recoveries: 0,
            },
        }
    }

    fn breaker_config(&self, component: &str) -> (c: CircuitBreakerConfig)
        ensures
            c == breaker_config_for(self.config.circuit_breaker_configs@, component@),
    {
        let key = String::from_str(component);
        let configs = &self.config.circuit_breaker_configs;
        let mut i: usize = 0;
        assert(configs@.skip(0) =~= configs@);
        while i < configs.len()
            invariant
                i <= configs@.len(),
                key@ == component@,
                configs@ == self.config.circuit_breaker_configs@,
                configured_breaker(configs@, component@) == configured_breaker(
                    configs@.skip(i as int),
                    component@,
                ),
            decreases configs@.len() - i,
        {
            assert(configs@.skip(i as int).drop_first() =~= configs@.skip(i + 1));
            if configs[i].0 == key {
                assert(configs@.skip(i as int)[0] == configs@[i as int]);
                assert(configs@.skip(i as int).len() > 0);
                assert(configs@.skip(i as int)[0].0@ == component@);
                assert(configured_breaker(configs@.skip(i as int), component@) == Some(
                    configs@[i as int].1,
                ));
                assert(configured_breaker(configs@, component@) == Some(configs@[i as int].1));
                return configs[i].1;
            }
            i = i + 1;
        }
        CircuitBreakerConfig::default_config()
    }

    /// Books a success or failure of `component` at time `now` on its
    /// breaker, opening one with the component's settings first if it has
    /// none.
    pub fn update_circuit_breaker_at(&mut self, component: &str, success: bool, now: u64)
        requires
            old(self).wf(),
        ensures
            final(self).wf(),
            breaker_updated(
                old(self).spec_breakers(),
                final(self).spec_breakers(),
                component@,
                breaker_config_for(old(self).spec_config().circuit_breaker_configs@, component@),
                success,
                now,
            ),
            final(self).spec_correlations() == old(self).spec_correlations(),
            final(self).spec_config() == old(self).spec_config(),
            final(self).spec_stats() == old(self).spec_stats(),
    {
        let key = String::from_str(component);
        let mut i: usize = 0;
        while i < self.circuit_breakers.len()
            invariant
                i <= self.circuit_breakers@.len(),
                key@ == component@,
                self.circuit_breakers@ == old(self).circuit_breakers@,
                self.correlations@ == old(self).correlations@,
                self.config == old(self).config,
                self.total_errors == old(self).total_errors,
                self.correlation_count == old(self).correlation_count,
                self.recovery == old(self).recovery,
                tables_unique(self.correlations@, self.circuit_breakers@),
                forall|j: int| 0 <= j < i ==> #[trigger] self.circuit_breakers@[j].0@ != component@,
            decreases self.circuit_breakers@.len() - i,
        {
            if self.circuit_breakers[i].0 == key {
                let ghost before = self.circuit_breakers@;
                let (name, mut breaker) = self.circuit_breakers.remove(i);
                if success {
                    breaker.record_success_at(now);
                } else {
                    breaker.record_failure_at(now);
                }
                self.circuit_breakers.insert(i, (name, breaker));
                proof {
                    assert(self.circuit_breakers@ =~= before.update(i as int, (name, breaker)));
                    assert(before[i as int].0@ == component@);
                    assert forall|a: int, b: int|
                        0 <= a < b < self.circuit_breakers@.len() implies #[trigger] self.circuit_breakers@[a].0@
                        != #[trigger] self.circuit_breakers@[b].0@ by {
                        assert(self.circuit_breakers@[a].0@ == before[a].0@);
                        assert(self.circuit_breakers@[b].0@ == before[b].0@);
                    }
                }
                return;
            }
            i = i + 1;
        }
        let config = self.breaker_config(component);
        let mut breaker = CircuitBreaker::new(config);
        if success {
            breaker.record_success_at(now);
        } else {
            breaker.record_failure_at(now);
        }
        self.circuit_breakers.push((key, breaker));
        proof {
            assert forall|a: int, b: int|
                0 <= a < b < self.circuit_breakers@.len() implies #[trigger] self.circuit_breakers@[a].0@
                != #[trigger] self.circuit_breakers@[b].0@ by {
                if b == self.circuit_breakers@.len() - 1 {
                    assert(old(self).circuit_breakers@[a].0@ != component@);
                } else {
                    assert(self.circuit_breakers@[a] == old(self).circuit_breakers@[a]);
                    assert(self.circuit_breakers@[b] == old(self).circuit_breakers@[b]);
                }
            }
            assert(self.circuit_breakers@.take(old(self).circuit_breakers@.len() as int) =~= old(self).circuit_breakers@);
        }
    }

    /// Index of the correlation `id`, if it is open.
    fn find_correlation(&self, id: &String) -> (r: Option<usize>)
        ensures
            match r {
                Some(i) => i < self.correlations@.len() && self.correlations@[i as int].correlation_id@
                    == id@,
                None => !correlation_ids(self.correlations@).contains(id@),
            },
    {
        let mut i: usize = 0;
        while i < self.correlations.len()
            invariant
                i <= self.correlations@.len(),
                forall|j: int|
                    0 <= j < i ==> #[trigger] self.correlations@[j].correlation_id@ != id@,
            decreases self.correlations@.len() - i,
        {
            if self.correlations[i].correlation_id == *id {
                return Some(i);
            }
            i = i + 1;
        }
        proof {
            if correlation_ids(self.correlations@).contains(id@) {
                let k = choose|k: int|
                    0 <= k < correlation_ids(self.correlations@).len() && correlation_ids(
                        self.correlations@,
                    )[k] == id@;
                assert(self.correlations@[k].correlation_id@ == id@);
            }
        }
        None
    }

    /// Files an error of `error_type` and `severity` from `component` at
    /// time `now` under `correlation_id` (a fresh `corr_` id when it is
    /// empty): the error is counted; a new id opens a correlation that the
    /// error describes, while an open one is left as it is; the component's
    /// breaker books a failure. Returns the id and whether the correlation
    /// is severe enough (high or critical) for automatic recovery.
    pub fn register_error_at(
        &mut self,
        correlation_id: String,
        error_type: ErrorType,
        severity: ErrorSeverity,
        component: String,
        now: u64,
    ) -> (r: (String, bool))
        requires
            old(self).wf(),
        ensures
            final(self).wf(),
            correlation_id@.len() > 0 ==> r.0@ == correlation_id@,
            correlation_id@.len() == 0 ==> r.0@.len() >= 5 && r.0@.take(5) == "corr_"@,
            final(self).spec_stats().total_errors == bumped(old(self).spec_stats().total_errors),
            correlation_ids(old(self).spec_correlations()).contains(r.0@) ==> {
                &&& final(self).spec_correlations() == old(self).spec_correlations()
                &&& final(self).spec_stats().total_correlations == old(self).spec_stats().total_correlations
            },
            !correlation_ids(old(self).spec_correlations()).contains(r.0@) ==> {
                &&& final(self).spec_correlations().len() > 0
                &&& final(self).spec_correlations().drop_last() == old(self).spec_correlations()
                &&& final(self).spec_correlations().last().correlation_id@ == r.0@
                &&& final(self).spec_correlations().last().affected_components@.map_values(
                    |c: String| c@,
                ) == seq![component@]
                &&& final(self).spec_correlations().last().user_impact == impact_of(
                    error_type,
                    severity,
                )
                &&& final(self).spec_correlations().last().created_at == now
                &&& final(self).spec_correlations().last().last_updated == now
                &&& final(self).spec_correlations().last().severity == severity
                &&& final(self).spec_correlations().last().status == CorrelationStatus::New
                &&& final(self).spec_stats().total_correlations == bumped(
                    old(self).spec_stats().total_correlations,
                )
            },
            exists|k: int|
                0 <= k < final(self).spec_correlations().len() && #[trigger] final(self).spec_correlations()[k].correlation_id@ == r.0@ && r.1 == (severity_rank(
                    final(self).spec_correlations()[k].severity,
                ) >= severity_rank(ErrorSeverity::High)),
            breaker_updated(
                old(self).spec_breakers(),
                final(self).spec_breakers(),
                component@,
                breaker_config_for(old(self).spec_config().circuit_breaker_configs@, component@),
                false,
                now,
            ),
            final(self).spec_config() == old(self).spec_config(),
            final(self).spec_stats().recovery_attempts == old(self).spec_stats().recovery_attempts,
            final(self).spec_stats().successful_recoveries == old(self).spec_stats().successful_recoveries,
            final(self).spec_stats().failed_recoveries == old(self).spec_stats().failed_recoveries,
    {
        let id = if correlation_id.as_str().unicode_len() == 0 {
            let mut fresh = String::from_str("corr_");
            let tail = random_uuid_text();
            fresh.append(tail.as_str());
            proof {
                reveal_strlit("corr_");
                assert(fresh@.take(5) =~= "corr_"@);
            }
            fresh
        } else {
            correlation_id
        };
        self.total_errors = self.total_errors.wrapping_add(1);
        let severe: bool;
        match self.find_correlation(&id) {
            Some(k) => {
                severe = severity_level(self.correlations[k].severity) >= 2;
                assert(correlation_ids(self.correlations@)[k as int] == id@);
            },
            None => {
                let ghost before = self.correlations@;
                let correlation = ErrorCorrelation {
                    correlation_id: id.clone(),
                    affected_components: vec![component.clone()],
                    user_impact: assess_user_impact(error_type, severity),
                    created_at: now,
                    last_updated: now,
                    severity,
                    status: CorrelationStatus::New,
                };
                assert(correlation.affected_components@.map_values(|c: String| c@) =~= seq![
                    component@,
                ]);
                self.correlations.push(correlation);
                self.correlation_count = self.correlation_count.wrapping_add(1);
                severe = severity_level(severity) >= 2;
                proof {
                    assert(before == old(self).correlations@);
                    assert(self.correlations@.drop_last() =~= before);
                    assert forall|a: int, b: int|
                        0 <= a < b < self.correlations@.len() implies #[trigger] self.correlations@[a].correlation_id@
                        != #[trigger] self.correlations@[b].correlation_id@ by {
                        if b == self.correlations@.len() - 1 {
                            assert(correlation_ids(before)[a] == before[a].correlation_id@);
                        } else {
                            assert(self.correlations@[a] == before[a]);
                            assert(self.correlations@[b] == before[b]);
                        }
                    }
                    let k = self.correlations@.len() - 1;
                    assert(self.correlations@[k].correlation_id@ == id@);
                }
            },
        }
        self.update_circuit_breaker_at(component.as_str(), false, now);
        (id, severe)
    }

    /// Files an error now, as `register_error_at` does at the present
    /// time.
    pub fn register_error(
        &mut self,
        correlation_id: String,
        error_type: ErrorType,
        severity: ErrorSeverity,
        component: String,
    ) -> (r: (String, bool))
        requires
            old(self).wf(),
        ensures
            final(self).wf(),
            correlation_id@.len() > 0 ==> r.0@ == correlation_id@,
            correlation_id@.len() == 0 ==> r.0@.len() >= 5 && r.0@.take(5) == "corr_"@,
            final(self).spec_stats().total_errors == bumped(old(self).spec_stats().total_errors),
            correlation_ids(old(self).spec_correlations()).contains(r.0@) ==> final(self).spec_correlations()
                == old(self).spec_correlations(),
            !correlation_ids(old(self).spec_correlations()).contains(r.0@) ==> {
                &&& final(self).spec_correlations().len() > 0
                &&& final(self).spec_correlations().drop_last() == old(self).spec_correlations()
                &&& final(self).spec_correlations().last().correlation_id@ == r.0@
                &&& final(self).spec_correlations().last().user_impact == impact_of(
                    error_type,
                    severity,
                )
                &&& final(self).spec_correlations().last().severity == severity
                &&& final(self).spec_correlations().last().status == CorrelationStatus::New
            },
            exists|now: u64|
                breaker_updated(
                    old(self).spec_breakers(),
                    #[trigger] final(self).spec_breakers(),
                    component@,
                    breaker_config_for(old(self).spec_config().circuit_breaker_configs@, component@),
                    false,
                    now,
                ),
            final(self).spec_config() == old(self).spec_config(),
    {
        let now = unix_now_secs();
        self.register_error_at(correlation_id, error_type, severity, component, now)
    }

    /// Lets go of finished correlations older than the retention time at
    /// `now`, keeping the others in order; returns how many went.
    pub fn cleanup_correlations_at(&mut self, now: u64) -> (removed: usize)
        requires
            old(self).wf(),
        ensures
            final(self).wf(),
            final(self).spec_correlations() == old(self).spec_correlations().filter(
                |c: ErrorCorrelation|
                    !expired(c.status, c.last_updated, old(self).spec_config().correlation_retention_secs, now),
            ),
            removed == old(self).spec_correlations().len() - final(self).spec_correlations().len(),
            final(self).spec_breakers() == old(self).spec_breakers(),
            final(self).spec_config() == old(self).spec_config(),
            final(self).spec_stats().total_errors == old(self).spec_stats().total_errors,
            final(self).spec_stats().total_correlations == old(self).spec_stats().total_correlations,
    {
        let retention = self.config.correlation_retention_secs;
        let ghost keep = |c: ErrorCorrelation| !expired(c.status, c.last_updated, retention, now);
        let mut kept: Vec<ErrorCorrelation> = Vec::new();
        let mut rest: Vec<ErrorCorrelation> = Vec::new();
        std::mem::swap(&mut rest, &mut self.correlations);
        let ghost all = rest@;
        let total = rest.len();
        let mut dropped: usize = 0;
        let mut i: usize = 0;
        while rest.len() > 0
            invariant
                i + rest@.len() == all.len(),
                all == old(self).correlations@,
                rest@ == all.skip(i as int),
                kept@ == all.take(i as int).filter(keep),
                dropped == i - kept@.len(),
                kept@.len() <= i,
                total == all.len(),
                retention == old(self).config.correlation_retention_secs,
                keep == (|c: ErrorCorrelation| !expired(c.status, c.last_updated, retention, now)),
            decreases rest@.len(),
        {
            let c = rest.remove(0);
            proof {
                reveal(Seq::filter);
                assert(all.take(i + 1).drop_last() =~= all.take(i as int));
                assert(all.take(i + 1).last() == c);
                assert(rest@ =~= all.skip(i + 1));
            }
            if correlation_expired(c.status, c.last_updated, retention, now) {
                dropped = dropped + 1;
                proof {
                    assert(all.take(i + 1).filter(keep) =~= all.take(i as int).filter(keep));
                }
            } else {
                kept.push(c);
                proof {
                    assert(all.take(i + 1).filter(keep) =~= all.take(i as int).filter(keep).push(c));
                }
            }
            i = i + 1;
        }
        proof {
            assert(all.take(i as int) =~= all);
            all.lemma_filter_len(keep);
        }
        self.correlations = kept;
        proof {
            assert forall|a: int, b: int|
                0 <= a < b < self.correlations@.len() implies #[trigger] self.correlations@[a].correlation_id@
                != #[trigger] self.correlations@[b].correlation_id@ by {
                lemma_filter_keeps_distinct(all, keep, a, b);
            }
        }
        dropped
    }

    /// Books the outcome of one recovery attempt; says whether to stop
    /// trying further strategies, as `record_recovery_outcome` does.
    pub fn record_recovery(&mut self, outcome: RecoveryOutcome) -> (stop: bool)
        ensures
            stop == (outcome == RecoveryOutcome::Success || outcome == RecoveryOutcome::PermanentFailure),
            final(self).spec_correlations() == old(self).spec_correlations(),
            final(self).spec_breakers() == old(self).spec_breakers(),
            final(self).spec_config() == old(self).spec_config(),
            final(self).wf() == old(self).wf(),
            final(self).spec_stats() == (ErrorRecoveryStats {
                recovery_attempts: bumped(old(self).spec_stats().recovery_attempts),
                successful_recoveries: if outcome == RecoveryOutcome::Success {
                    bumped(old(self).spec_stats().successful_recoveries)
                } else {
                    old(self).spec_stats().successful_recoveries
                },
                failed_recoveries: if outcome == RecoveryOutcome::RetryableFailure || outcome
                    == RecoveryOutcome::PermanentFailure {
                    bumped(old(self).spec_stats().failed_recoveries)
                } else {
                    old(self).spec_stats().failed_recoveries
                },
                ..old(self).spec_stats()
            }),
    {
        record_recovery_outcome(&mut self.recovery, outcome)
    }

    /// One step of the recovery loop: the strategy at position `tried` of
    /// `plan` reported `outcome`. The attempt is booked as `record_recovery`
    /// does, and the position of the next strategy to try comes back; there
    /// is none after a success or a permanent failure, or at the end of the
    /// plan.
    pub fn recovery_step(&mut self, plan: &Vec<usize>, tried: usize, outcome: RecoveryOutcome) -> (next: Option<usize>)
        requires
            tried < plan@.len(),
        ensures
            next == (if outcome == RecoveryOutcome::Success || outcome == RecoveryOutcome::PermanentFailure
                || tried + 1 == plan@.len() {
                None
            } else {
                Some((tried + 1) as usize)
            }),
            final(self).spec_correlations() == old(self).spec_correlations(),
            final(self).spec_breakers() == old(self).spec_breakers(),
            final(self).spec_config() == old(self).spec_config(),
            final(self).wf() == old(self).wf(),
            final(self).spec_stats() == (ErrorRecoveryStats {
                recovery_attempts: bumped(old(self).spec_stats().recovery_attempts),
                successful_recoveries: if outcome == RecoveryOutcome::Success {
                    bumped(old(self).spec_stats().successful_recoveries)
                } else {
                    old(self).spec_stats().successful_recoveries
                },
                failed_recoveries: if outcome == RecoveryOutcome::RetryableFailure || outcome
                    == RecoveryOutcome::PermanentFailure {
                    bumped(old(self).spec_stats().failed_recoveries)
                } else {
                    old(self).spec_stats().failed_recoveries
                },
                ..old(self).spec_stats()
            }),
    {
        let stop = self.record_recovery(outcome);
        let n = plan.len();
        if stop || tried + 1 == n {
            None
        } else {
            Some(tried + 1)
        }
    }

    /// The counts.
    pub fn get_statistics(&self) -> (s: ErrorRecoveryStats)
        ensures
            s == self.spec_stats(),
    {
        ErrorRecoveryStats {
            total_errors: self.total_errors,
            recovery_attempts: self.recovery.recovery_attempts,
            successful_recoveries: self.recovery.successful_recoveries,
            failed_recoveries: self.recovery.failed_recoveries,
            active_correlations: self.correlations.len(),
            total_correlations: self.correlation_count,
        }
    }

    /// The state of `component`'s breaker, if it has one.
    pub fn breaker_state(&self, component: &str) -> (r: Option<CircuitBreakerState>)
        requires
            self.wf(),
        ensures
            match r {
                Some(st) => exists|i: int|
                    0 <= i < self.spec_breakers().len() && #[trigger] self.spec_breakers()[i].0@
                        == component@ && self.spec_breakers()[i].1.spec_core().state == st,
                None => forall|i: int|
                    0 <= i < self.spec_breakers().len() ==> #[trigger] self.spec_breakers()[i].0@
                        != component@,
            },
    {
        let key = String::from_str(component);
        let mut i: usize = 0;
        while i < self.circuit_breakers.len()
            invariant
                i <= self.circuit_breakers@.len(),
                key@ == component@,
                forall|j: int| 0 <= j < i ==> #[trigger] self.circuit_breakers@[j].0@ != component@,
            decreases self.circuit_breakers@.len() - i,
        {
            if self.circuit_breakers[i].0 == key {
                let st = self.circuit_breakers[i].1.get_state();
                assert(self.spec_breakers()[i as int].0@ == component@);
                return Some(st);
            }
            i = i + 1;
        }
        None
    }
}

/// Filtering keeps distinct ids distinct.
proof fn lemma_filter_keeps_distinct(
    s: Seq<ErrorCorrelation>,
    keep: spec_fn(ErrorCorrelation) -> bool,
    a: int,
    b: int,
)
    requires
        forall|i: int, j: int|
            0 <= i < j < s.len() ==> #[trigger] s[i].correlation_id@ != #[trigger] s[j].correlation_id@,
        0 <= a < b < s.filter(keep).len(),
    ensures
        s.filter(keep)[a].correlation_id@ != s.filter(keep)[b].correlation_id@,
    decreases s.len(),
{
    reveal(Seq::filter);
    let rest = s.drop_last();
    let f = rest.filter(keep);
    rest.lemma_filter_len(keep);
    if keep(s.last()) && b == f.len() {
        let x = f[a];
        assert(f.contains(x));
        rest.lemma_filter_contains_rev(keep, x);
        let k = choose|k: int| 0 <= k < rest.len() && rest[k] == x;
        assert(s[k] == x);
        assert(s.filter(keep)[b] == s[s.len() - 1]);
    } else {
        assert forall|i: int, j: int|
            0 <= i < j < rest.len() implies #[trigger] rest[i].correlation_id@
            != #[trigger] rest[j].correlation_id@ by {
            assert(rest[i] == s[i]);
            assert(rest[j] == s[j]);
        }
        lemma_filter_keeps_distinct(rest, keep, a, b);
    }
}

} // verus!
