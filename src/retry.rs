use vstd::prelude::*;

use crate::outcome::{is_transient, SmtpDetails, SmtpError};

verus! {

/// What follows one SMTP attempt.
#[derive(Debug, PartialEq, Eq)]
pub enum RetryStep {
    /// The check is over with this result.
    Done(Result<SmtpDetails, SmtpError>),
    /// Make another attempt.
    Retry,
}

/// An attempt may be followed by another: it failed transiently and was not
/// the last of the `retries + 1` attempts allowed.
pub open spec fn may_retry(attempt: nat, retries: nat, outcome: Result<SmtpDetails, SmtpError>) -> bool {
    outcome is Err && is_transient(outcome->Err_0) && attempt <= retries
}

/// What follows attempt number `attempt` (counted from 1) with `outcome`.
pub open spec fn retry_step(attempt: nat, retries: nat, outcome: Result<SmtpDetails, SmtpError>) -> RetryStep {
    if may_retry(attempt, retries, outcome) {
        RetryStep::Retry
    } else {
        RetryStep::Done(outcome)
    }
}

/// The result of a run of attempts whose outcomes are `outcomes`, the first of
/// them numbered `attempt`; `None` when the outcomes run out before the
/// policy stops.
pub open spec fn run_attempts(
    outcomes: Seq<Result<SmtpDetails, SmtpError>>,
    attempt: nat,
    retries: nat,
) -> Option<Result<SmtpDetails, SmtpError>>
    decreases outcomes.len(),
{
    if outcomes.len() == 0 {
        None
    } else if may_retry(attempt, retries, outcomes[0]) {
        run_attempts(outcomes.drop_first(), attempt + 1, retries)
    } else {
        Some(outcomes[0])
    }
}

/// What follows attempt number `attempt` (counted from 1) with `outcome`,
/// when `retries` retries are allowed.
pub fn after_attempt(attempt: u32, retries: u32, outcome: Result<SmtpDetails, SmtpError>) -> (r: RetryStep)
    ensures
        r == retry_step(attempt as nat, retries as nat, outcome),
{
    let again = match &outcome {
        Err(e) => e.is_retryable() && attempt <= retries,
        Ok(_) => false,
    };
    if again {
        RetryStep::Retry
    } else {
        RetryStep::Done(outcome)
    }
}

/// A success, a skipped domain and a definitive protocol rejection are never
/// retried: the attempt's outcome is the result.
pub proof fn lemma_no_retry_of_definitive(attempt: nat, retries: nat, outcome: Result<SmtpDetails, SmtpError>)
    requires
        outcome is Ok || outcome->Err_0 is SkippedDomain || outcome->Err_0 is ProtocolError,
    ensures
        retry_step(attempt, retries, outcome) == RetryStep::Done(outcome),
{
}

/// No more than `retries + 1` attempts are made: the last one always ends the run.
pub proof fn lemma_last_attempt_ends(retries: nat, outcome: Result<SmtpDetails, SmtpError>)
    ensures
        retry_step(retries + 1, retries, outcome) == RetryStep::Done(outcome),
{
}

/// A session that fails transiently before succeeding, within the number of
/// attempts allowed, yields that success.
pub proof fn lemma_retry_until_success(
    outcomes: Seq<Result<SmtpDetails, SmtpError>>,
    attempt: nat,
    retries: nat,
)
    requires
        outcomes.len() >= 1,
        attempt >= 1,
        attempt + outcomes.len() - 1 <= retries + 1,
        forall|k: int| 0 <= k < outcomes.len() - 1 ==> #[trigger] outcomes[k] is Err && is_transient(outcomes[k]->Err_0),
        outcomes.last() is Ok,
    ensures
        run_attempts(outcomes, attempt, retries) == Some(outcomes.last()),
    decreases outcomes.len(),
{
    if outcomes.len() > 1 {
        let rest = outcomes.drop_first();
        assert forall|k: int| 0 <= k < rest.len() - 1 implies #[trigger] rest[k] is Err && is_transient(rest[k]->Err_0) by {
            assert(rest[k] == outcomes[k + 1]);
        }
        lemma_retry_until_success(rest, attempt + 1, retries);
        assert(rest.last() == outcomes.last());
    }
}

/// Attempts that all time out end, after `retries + 1` of them, in the last
/// attempt's timeout.
pub proof fn lemma_timeouts_surface(outcomes: Seq<Result<SmtpDetails, SmtpError>>, attempt: nat, retries: nat)
    requires
        outcomes.len() >= 1,
        attempt >= 1,
        attempt + outcomes.len() == retries + 2,
        forall|k: int| 0 <= k < outcomes.len() ==> #[trigger] outcomes[k] is Err && outcomes[k]->Err_0 is TimeoutError,
    ensures
        run_attempts(outcomes, attempt, retries) == Some(outcomes.last()),
    decreases outcomes.len(),
{
    if outcomes.len() > 1 {
        let rest = outcomes.drop_first();
        assert forall|k: int| 0 <= k < rest.len() implies #[trigger] rest[k] is Err && rest[k]->Err_0 is TimeoutError by {
            assert(rest[k] == outcomes[k + 1]);
        }
        lemma_timeouts_surface(rest, attempt + 1, retries);
        assert(rest.last() == outcomes.last());
    }
}

} // verus!
