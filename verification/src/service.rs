//! The admission-controlled compute service.
//!
//! A request carries a single integer `n`. The service validates it,
//! consumes one unit of a shared daily budget, computes the `n`-th
//! Fibonacci number, and records observability signals along the way. A
//! scheduler resets the budget at each day boundary. All of that is
//! modelled here as transitions on [`ServerModel`], a mathematical view of
//! the server's shared state; the executable [`ServerState`] methods are
//! proved to follow those transitions exactly. The surrounding process
//! serializes access to the state (one guard shared by request handlers
//! and the scheduler), so the sequential model describes every interleaving
//! of admissions and resets.

use vstd::prelude::*;

use crate::digits::dec_str;
use crate::digits::lemma_dec_str_len_u64;
use crate::digits::render_u64;
use crate::fib::fib;
use crate::fib::fibonacci_u64;
use crate::fib::lemma_fib_fits_u64;
use crate::fib::lemma_fib_monotonic;

verus! {

/// Why a request was refused.
#[derive(Clone, Copy, Debug, PartialEq, Eq, Structural)]
pub enum AdmissionError {
    /// The input was zero or above the configured maximum.
    InvalidInput,
    /// The daily request budget was already exhausted.
    RateLimitExceeded,
}

/// The observability instruments, as executable counters.
///
/// Counters only ever grow; the two gauges (`active_requests`,
/// `latest_input`) move both ways. Histograms are recorded as observation
/// counts, and the response-size histogram also as the running sum of the
/// observed byte lengths.
pub struct MetricSet {
    /// Completed successful computations.
    pub requests_total: u64,
    /// Requests refused because the budget was exhausted.
    pub limit_reached_total: u64,
    /// Outcomes by status code.
    pub status_200: u64,
    /// Outcomes by status code.
    pub status_400: u64,
    /// Outcomes by status code.
    pub status_429: u64,
    /// Outcomes by status code.
    pub status_500: u64,
    /// Requests admitted and not yet completed.
    pub active_requests: u64,
    /// The most recently requested input, valid or budget-refused alike.
    pub latest_input: u32,
    /// Observations in the input-distribution histogram.
    pub input_count: u64,
    /// Observations in the request-duration histogram.
    pub duration_count: u64,
    /// Observations in the response-size histogram.
    pub response_size_count: u64,
    /// Sum of the observed response sizes, in bytes.
    pub response_size_sum: u64,
}

/// The mathematical view of [`MetricSet`].
pub struct MetricsModel {
    pub requests_total: nat,
    pub limit_reached_total: nat,
    pub status_200: nat,
    pub status_400: nat,
    pub status_429: nat,
    pub status_500: nat,
    pub active_requests: nat,
    pub latest_input: nat,
    pub input_count: nat,
    pub duration_count: nat,
    pub response_size_count: nat,
    pub response_size_sum: nat,
}

impl View for MetricSet {
    type V = MetricsModel;

    open spec fn view(&self) -> MetricsModel {
        MetricsModel {
            requests_total: self.requests_total as nat,
            limit_reached_total: self.limit_reached_total as nat,
            status_200: self.status_200 as nat,
            status_400: self.status_400 as nat,
            status_429: self.status_429 as nat,
            status_500: self.status_500 as nat,
            active_requests: self.active_requests as nat,
            latest_input: self.latest_input as nat,
            input_count: self.input_count as nat,
            duration_count: self.duration_count as nat,
            response_size_count: self.response_size_count as nat,
            response_size_sum: self.response_size_sum as nat,
        }
    }
}

impl MetricsModel {
    /// The counters an admission may bump can take one more step.
    pub open spec fn admission_headroom(self) -> bool {
        &&& self.status_400 < u64::MAX
        &&& self.status_429 < u64::MAX
        &&& self.limit_reached_total < u64::MAX
        &&& self.input_count < u64::MAX
        &&& self.active_requests < u64::MAX
    }

    /// The counters a completion bumps can take one more step.
    pub open spec fn completion_headroom(self) -> bool {
        &&& self.requests_total < u64::MAX
        &&& self.status_200 < u64::MAX
        &&& self.duration_count < u64::MAX
        &&& self.response_size_count < u64::MAX
        &&& self.response_size_sum <= u64::MAX - 20
    }

    /// Every counter can take one more step.
    pub open spec fn has_headroom(self) -> bool {
        self.admission_headroom() && self.completion_headroom()
    }
}

/// The shared server state: the daily budget, its configuration, and the
/// metric instruments.
pub struct ServerState {
    /// Requests admitted since the last scheduled reset.
    pub budget: u32,
    /// How many requests a day the service admits.
    pub max_daily: u32,
    /// The largest admissible input, bounding computation cost.
    pub max_input: u32,
    /// The observability instruments.
    pub metrics: MetricSet,
}

/// The mathematical view of [`ServerState`].
pub struct ServerModel {
    pub budget: nat,
    pub max_daily: nat,
    pub max_input: nat,
    pub metrics: MetricsModel,
}

impl View for ServerState {
    type V = ServerModel;

    open spec fn view(&self) -> ServerModel {
        ServerModel {
            budget: self.budget as nat,
            max_daily: self.max_daily as nat,
            max_input: self.max_input as nat,
            metrics: self.metrics@,
        }
    }
}

impl ServerModel {
    /// The configured maximum keeps every admitted computation inside
    /// 64-bit arithmetic.
    pub open spec fn wf(self) -> bool {
        fib(self.max_input) <= u64::MAX
    }
}

/// A freshly started server: budget zero, every instrument zero.
pub open spec fn init_model(max_daily: nat, max_input: nat) -> ServerModel {
    ServerModel {
        budget: 0,
        max_daily: max_daily,
        max_input: max_input,
        metrics: MetricsModel {
            requests_total: 0,
            limit_reached_total: 0,
            status_200: 0,
            status_400: 0,
            status_429: 0,
            status_500: 0,
            active_requests: 0,
            latest_input: 0,
            input_count: 0,
            duration_count: 0,
            response_size_count: 0,
            response_size_sum: 0,
        },
    }
}

/// An input is admissible when it is at least one and at most the
/// configured maximum.
pub open spec fn valid_input(s: ServerModel, n: nat) -> bool {
    1 <= n <= s.max_input
}

/// The pre-admission observation: the input-distribution histogram and the
/// latest-input gauge record `n`, whether or not the budget then admits it.
pub open spec fn observe_input(m: MetricsModel, n: nat) -> MetricsModel {
    MetricsModel { latest_input: n, input_count: m.input_count + 1, ..m }
}

/// The metric effect of refusing an invalid input.
pub open spec fn reject_invalid(m: MetricsModel) -> MetricsModel {
    MetricsModel { status_400: m.status_400 + 1, ..m }
}

/// The metric effect of refusing a request over an exhausted budget.
pub open spec fn reject_limited(m: MetricsModel) -> MetricsModel {
    MetricsModel {
        limit_reached_total: m.limit_reached_total + 1,
        status_429: m.status_429 + 1,
        ..m
    }
}

/// What admission decides: validation first, then the budget.
pub open spec fn admit_result(s: ServerModel, n: nat) -> Result<(), AdmissionError> {
    if !valid_input(s, n) {
        Err(AdmissionError::InvalidInput)
    } else if s.budget >= s.max_daily {
        Err(AdmissionError::RateLimitExceeded)
    } else {
        Ok(())
    }
}

/// How admission changes the state: an invalid input is refused before
/// anything is observed; a valid one is observed unconditionally, and then
/// either refused over the budget or charged to it and marked in flight.
pub open spec fn admit_state(s: ServerModel, n: nat) -> ServerModel {
    if !valid_input(s, n) {
        ServerModel { metrics: reject_invalid(s.metrics), ..s }
    } else if s.budget >= s.max_daily {
        ServerModel { metrics: reject_limited(observe_input(s.metrics, n)), ..s }
    } else {
        ServerModel {
            budget: s.budget + 1,
            metrics: MetricsModel {
                active_requests: observe_input(s.metrics, n).active_requests + 1,
                ..observe_input(s.metrics, n)
            },
            ..s
        }
    }
}

/// How completing a computation with value `v` changes the state: the
/// request leaves flight, the duration and response-size histograms take
/// one observation each, and the success counters step.
pub open spec fn complete_state(s: ServerModel, v: nat) -> ServerModel {
    ServerModel {
        metrics: MetricsModel {
            requests_total: s.metrics.requests_total + 1,
            status_200: s.metrics.status_200 + 1,
            active_requests: if s.metrics.active_requests >= 1 {
                (s.metrics.active_requests - 1) as nat
            } else {
                0
            },
            duration_count: s.metrics.duration_count + 1,
            response_size_count: s.metrics.response_size_count + 1,
            response_size_sum: s.metrics.response_size_sum + dec_str(v).len(),
            ..s.metrics
        },
        ..s
    }
}

/// The whole request: what a handled request returns.
pub open spec fn handle_result(s: ServerModel, n: nat) -> Result<nat, AdmissionError> {
    match admit_result(s, n) {
        Ok(()) => Ok(fib(n)),
        Err(e) => Err(e),
    }
}

/// The whole request: how a handled request changes the state.
pub open spec fn handle_state(s: ServerModel, n: nat) -> ServerModel {
    if admit_result(s, n) is Ok {
        complete_state(admit_state(s, n), fib(n))
    } else {
        admit_state(s, n)
    }
}

/// The scheduled reset: the budget returns to zero and nothing else moves.
pub open spec fn reset_state(s: ServerModel) -> ServerModel {
    ServerModel { budget: 0, ..s }
}

/// The metric effect of an internal failure in the surrounding process.
pub open spec fn internal_error_state(s: ServerModel) -> ServerModel {
    ServerModel {
        metrics: MetricsModel { status_500: s.metrics.status_500 + 1, ..s.metrics },
        ..s
    }
}

/// The status-code counter summed across all its labels.
pub open spec fn status_total(m: MetricsModel) -> nat {
    m.status_200 + m.status_400 + m.status_429 + m.status_500
}

impl ServerState {
    /// A freshly started server with the given configuration.
    pub fn new(max_daily: u32, max_input: u32) -> (s: ServerState)
        requires
            max_input <= 63,
        ensures
            s@ == init_model(max_daily as nat, max_input as nat),
            s@.wf(),
    {
        proof {
            lemma_fib_fits_u64(max_input as nat);
        }
        ServerState {
            budget: 0,
            max_daily,
            max_input,
            metrics: MetricSet {
                requests_total: 0,
                limit_reached_total: 0,
                status_200: 0,
                status_400: 0,
                status_429: 0,
                status_500: 0,
                active_requests: 0,
                latest_input: 0,
                input_count: 0,
                duration_count: 0,
                response_size_count: 0,
                response_size_sum: 0,
            },
        }
    }

    /// Validate the input, observe it, and charge the budget — the
    /// read-compare-increment that must happen under the shared guard.
    /// On admission the request is marked in flight.
    pub fn try_admit(&mut self, n: u32) -> (r: Result<(), AdmissionError>)
        requires
            old(self)@.metrics.admission_headroom(),
        ensures
            final(self)@ == admit_state(old(self)@, n as nat),
            r == admit_result(old(self)@, n as nat),
    {
        if n == 0 || n > self.max_input {
            self.metrics.status_400 = self.metrics.status_400 + 1;
            return Err(AdmissionError::InvalidInput);
        }
        self.metrics.latest_input = n;
        self.metrics.input_count = self.metrics.input_count + 1;
        if self.budget >= self.max_daily {
            self.metrics.limit_reached_total = self.metrics.limit_reached_total + 1;
            self.metrics.status_429 = self.metrics.status_429 + 1;
            return Err(AdmissionError::RateLimitExceeded);
        }
        self.budget = self.budget + 1;
        self.metrics.active_requests = self.metrics.active_requests + 1;
        Ok(())
    }

    /// Record the completion of an admitted request whose computation
    /// produced `value`, and return the text the value is served as.
    pub fn complete(&mut self, value: u64) -> (body: String)
        requires
            old(self)@.metrics.completion_headroom(),
            old(self)@.metrics.active_requests >= 1,
        ensures
            final(self)@ == complete_state(old(self)@, value as nat),
            body@ == dec_str(value as nat),
    {
        self.metrics.active_requests = self.metrics.active_requests - 1;
        self.metrics.duration_count = self.metrics.duration_count + 1;
        let body = render_u64(value);
        let len = body.as_str().unicode_len();
        proof {
            lemma_dec_str_len_u64(value as nat);
        }
        self.metrics.response_size_count = self.metrics.response_size_count + 1;
        self.metrics.response_size_sum = self.metrics.response_size_sum + len as u64;
        self.metrics.requests_total = self.metrics.requests_total + 1;
        self.metrics.status_200 = self.metrics.status_200 + 1;
        body
    }

    /// Handle one whole request: admit it, compute, complete. Exactly one
    /// status-code label steps, whatever the outcome.
    pub fn handle(&mut self, n: u32) -> (r: Result<u64, AdmissionError>)
        requires
            old(self)@.wf(),
            old(self)@.metrics.has_headroom(),
        ensures
            final(self)@ == handle_state(old(self)@, n as nat),
            (match r {
                Ok(v) => handle_result(old(self)@, n as nat) == Ok::<nat, AdmissionError>(
                    v as nat,
                ),
                Err(e) => handle_result(old(self)@, n as nat) == Err::<nat, AdmissionError>(e),
            }),
    {
        match self.try_admit(n) {
            Ok(()) => {
                proof {
                    lemma_fib_monotonic(n as nat, self.max_input as nat);
                }
                let value = fibonacci_u64(n);
                let _body = self.complete(value);
                Ok(value)
            },
            Err(e) => Err(e),
        }
    }

    /// The scheduled reset: set the budget back to zero. The scheduler
    /// calls this under the same guard as every admission.
    pub fn reset(&mut self)
        ensures
            final(self)@ == reset_state(old(self)@),
    {
        self.budget = 0;
    }

    /// Record an internal failure of the surrounding process, so that the
    /// status-code counter stays a complete audit of outcomes.
    pub fn record_internal_error(&mut self)
        requires
            old(self)@.metrics.status_500 < u64::MAX,
        ensures
            final(self)@ == internal_error_state(old(self)@),
    {
        self.metrics.status_500 = self.metrics.status_500 + 1;
    }

    /// Whether the budget still has headroom.
    pub fn is_ready(&self) -> (r: bool)
        ensures
            r == (self@.budget < self@.max_daily),
    {
        self.budget < self.max_daily
    }

    /// The budget as a `current/max` line for the readiness endpoint.
    pub fn budget_text(&self) -> (t: String)
        ensures
            t@ == dec_str(self@.budget) + seq!['/'] + dec_str(self@.max_daily),
    {
        let current = render_u64(self.budget as u64);
        let maximum = render_u64(self.max_daily as u64);
        proof {
            reveal_strlit("/");
            assert("/"@ =~= seq!['/']);
        }
        current.concat("/").concat(maximum.as_str())
    }
}

impl AdmissionError {
    /// The explanatory body served with a refusal.
    pub fn message(&self) -> (m: &'static str)
        ensures
            *self is InvalidInput ==> m@ == "n must be at least 1 and at most the configured maximum"@,
            *self is RateLimitExceeded ==> m@ == "Thank you for using our Fibonacci service! You have reached the daily request limit. Please come back tomorrow or contact us if you need additional requests."@,
    {
        match self {
            AdmissionError::InvalidInput => "n must be at least 1 and at most the configured maximum",
            AdmissionError::RateLimitExceeded => "Thank you for using our Fibonacci service! You have reached the daily request limit. Please come back tomorrow or contact us if you need additional requests.",
        }
    }
}

} // verus!
