//! An admission-controlled Fibonacci service.
//!
//! The crate has two halves. `fib` holds the pure computation: several
//! implementations of the Fibonacci function, each proved equal to the
//! mathematical sequence. `service` holds the operational layer around it:
//! a daily request budget consumed under a mutual-exclusion discipline,
//! a scheduled reset of that budget, and a set of observability counters
//! that audit every outcome. `digits` relates computed values to the
//! decimal text they are served as.

mod digits;
mod fib;
mod laws;
mod service;

pub use digits::dec_str;
pub use digits::digit_char;
pub use digits::lemma_dec_str_len_u64;
pub use digits::render_u64;
pub use fib::fib;
pub use fib::lemma_fib_fits_u64;
pub use fib::fibonacci;
pub use fib::fibonacci_dp;
pub use fib::fibonacci_iterative;
pub use fib::fibonacci_match;
pub use fib::fibonacci_memo;
pub use fib::fibonacci_u64;
pub use fib::lemma_fib_monotonic;
pub use fib::memo_valid;
pub use laws::all_admitted;
pub use laws::all_limited;
pub use laws::handle_seq;
pub use laws::lemma_budget_counts_admissions;
pub use laws::lemma_handle_audits_outcome;
pub use laws::lemma_handle_keeps_config;
pub use laws::lemma_limit_rejects;
pub use laws::lemma_limit_rejects_all;
pub use laws::lemma_rejection_never_charges;
pub use laws::lemma_reset_restores_service;
pub use laws::lemma_status_counts_requests;
pub use service::admit_result;
pub use service::admit_state;
pub use service::complete_state;
pub use service::handle_result;
pub use service::handle_state;
pub use service::init_model;
pub use service::internal_error_state;
pub use service::observe_input;
pub use service::reject_invalid;
pub use service::reject_limited;
pub use service::reset_state;
pub use service::status_total;
pub use service::valid_input;
pub use service::AdmissionError;
pub use service::MetricSet;
pub use service::MetricsModel;
pub use service::ServerModel;
pub use service::ServerState;
