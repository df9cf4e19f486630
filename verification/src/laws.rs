//! Laws of the admission-controlled service.
//!
//! The budget check-and-increment runs under one shared guard, so every
//! concurrent execution is equivalent to some serial order of the model
//! transitions of [`crate::service`]. These lemmas state what holds of
//! every such order: admissions within budget all succeed and are counted
//! exactly once, an exhausted budget rejects every request until the next
//! reset, a reset restores service, and the status-code counter audits
//! every outcome.

use vstd::prelude::*;

use crate::fib::fib;
use crate::service::admit_result;
use crate::service::handle_result;
use crate::service::handle_state;
use crate::service::reset_state;
use crate::service::status_total;
use crate::service::valid_input;
use crate::service::AdmissionError;
use crate::service::ServerModel;

verus! {

/// The state after handling the requests of `ns`, one at a time, in order.
pub open spec fn handle_seq(s: ServerModel, ns: Seq<nat>) -> ServerModel
    decreases ns.len(),
{
    if ns.len() == 0 {
        s
    } else {
        handle_seq(handle_state(s, ns[0]), ns.drop_first())
    }
}

/// Every request of `ns`, handled in order, is admitted and returns its
/// Fibonacci value.
pub open spec fn all_admitted(s: ServerModel, ns: Seq<nat>) -> bool
    decreases ns.len(),
{
    ns.len() == 0 || {
        &&& handle_result(s, ns[0]) == Ok::<nat, AdmissionError>(fib(ns[0]))
        &&& all_admitted(handle_state(s, ns[0]), ns.drop_first())
    }
}

/// Every request of `ns`, handled in order, is refused over the budget.
pub open spec fn all_limited(s: ServerModel, ns: Seq<nat>) -> bool
    decreases ns.len(),
{
    ns.len() == 0 || {
        &&& handle_result(s, ns[0]) == Err::<nat, AdmissionError>(
            AdmissionError::RateLimitExceeded,
        )
        &&& all_limited(handle_state(s, ns[0]), ns.drop_first())
    }
}

/// Handling a request never changes the configuration.
pub proof fn lemma_handle_keeps_config(s: ServerModel, n: nat)
    ensures
        handle_state(s, n).max_daily == s.max_daily,
        handle_state(s, n).max_input == s.max_input,
{
}

/// Law: as many valid requests as the budget has room for all succeed,
/// and the budget grows by exactly their number — no admission is lost
/// and none is counted twice, in whatever order the guard serializes them.
pub proof fn lemma_budget_counts_admissions(s: ServerModel, ns: Seq<nat>)
    requires
        forall|i: int| 0 <= i < ns.len() ==> valid_input(s, #[trigger] ns[i]),
        s.budget + ns.len() <= s.max_daily,
    ensures
        all_admitted(s, ns),
        handle_seq(s, ns).budget == s.budget + ns.len(),
        handle_seq(s, ns).max_daily == s.max_daily,
        handle_seq(s, ns).max_input == s.max_input,
    decreases ns.len(),
{
    if ns.len() > 0 {
        let s1 = handle_state(s, ns[0]);
        assert(s1.budget == s.budget + 1);
        assert forall|i: int| 0 <= i < ns.drop_first().len() implies valid_input(
            s1,
            #[trigger] ns.drop_first()[i],
        ) by {
            assert(ns.drop_first()[i] == ns[i + 1]);
        }
        lemma_budget_counts_admissions(s1, ns.drop_first());
    }
}

/// Law: once the budget has reached its maximum, a valid request is
/// refused with `RateLimitExceeded`, the budget does not move, and the
/// limit-reached counter steps by exactly one.
pub proof fn lemma_limit_rejects(s: ServerModel, n: nat)
    requires
        valid_input(s, n),
        s.budget >= s.max_daily,
    ensures
        handle_result(s, n) == Err::<nat, AdmissionError>(AdmissionError::RateLimitExceeded),
        handle_state(s, n).budget == s.budget,
        handle_state(s, n).metrics.limit_reached_total == s.metrics.limit_reached_total + 1,
{
}

/// Law: once the budget has reached its maximum, every subsequent valid
/// request before the next reset is refused over the budget, and the
/// limit-reached counter steps once per refusal.
pub proof fn lemma_limit_rejects_all(s: ServerModel, ns: Seq<nat>)
    requires
        forall|i: int| 0 <= i < ns.len() ==> valid_input(s, #[trigger] ns[i]),
        s.budget >= s.max_daily,
    ensures
        all_limited(s, ns),
        handle_seq(s, ns).budget == s.budget,
        handle_seq(s, ns).metrics.limit_reached_total == s.metrics.limit_reached_total
            + ns.len(),
    decreases ns.len(),
{
    if ns.len() > 0 {
        let s1 = handle_state(s, ns[0]);
        lemma_limit_rejects(s, ns[0]);
        assert forall|i: int| 0 <= i < ns.drop_first().len() implies valid_input(
            s1,
            #[trigger] ns.drop_first()[i],
        ) by {
            assert(ns.drop_first()[i] == ns[i + 1]);
        }
        lemma_limit_rejects_all(s1, ns.drop_first());
    }
}

/// Law: after a scheduled reset the budget is exactly zero, whatever it
/// was before, and a valid request — even one just refused over the
/// budget — is admitted again.
pub proof fn lemma_reset_restores_service(s: ServerModel, n: nat)
    requires
        valid_input(s, n),
        s.max_daily >= 1,
    ensures
        reset_state(s).budget == 0,
        handle_result(reset_state(s), n) == Ok::<nat, AdmissionError>(fib(n)),
        handle_state(reset_state(s), n).budget == 1,
{
}

/// Handling one request steps exactly one status-code label, whatever the
/// outcome.
pub proof fn lemma_handle_audits_outcome(s: ServerModel, n: nat)
    ensures
        status_total(handle_state(s, n).metrics) == status_total(s.metrics) + 1,
{
}

/// Law: the status-code counter's total across all labels grows by exactly
/// the number of requests handled — the outcome audit is complete.
pub proof fn lemma_status_counts_requests(s: ServerModel, ns: Seq<nat>)
    ensures
        status_total(handle_seq(s, ns).metrics) == status_total(s.metrics) + ns.len(),
    decreases ns.len(),
{
    if ns.len() > 0 {
        lemma_handle_audits_outcome(s, ns[0]);
        lemma_status_counts_requests(handle_state(s, ns[0]), ns.drop_first());
    }
}

/// A rejected request is never charged to the budget: on any refusal the
/// budget stands where it stood.
pub proof fn lemma_rejection_never_charges(s: ServerModel, n: nat)
    requires
        admit_result(s, n) is Err,
    ensures
        handle_state(s, n).budget == s.budget,
{
}

} // verus!
