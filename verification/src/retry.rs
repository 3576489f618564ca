//! The retry policy: how often an operation is tried before its failure is
//! final.
//!
//! The policy is fixed. An operation is tried up to three times, one try
//! straight after the other. A failure worth trying again ends the policy
//! only at the last try; a failure beyond mending ends it at once.

use vstd::prelude::*;
use crate::failure::Error;
use crate::failure::ErrorView;

verus! {

/// The number of times an operation is tried at most.
pub const MAX_ATTEMPTS: u64 = 3;

/// How the tries of one operation ended.
#[derive(Clone, Debug, PartialEq, Eq)]
pub enum AttemptOutcome<T> {
    /// A try succeeded, with this value.
    Success(T),
    /// The last try failed as the ones before it, with this cause.
    ExhaustedRetryable(String),
    /// A try failed beyond mending, with this cause.
    Unrecoverable(String),
}

/// An [`AttemptOutcome`] as a value of mathematics.
pub enum AttemptOutcomeView<T> {
    Success(T),
    ExhaustedRetryable(Seq<char>),
    Unrecoverable(Seq<char>),
}

/// What follows a try: the end of the policy, or another try.
#[derive(Clone, Debug, PartialEq, Eq)]
pub enum Decision<T> {
    /// The policy has ended.
    Finished(AttemptOutcome<T>),
    /// The operation is tried again at once; this is the number of the new
    /// try and the cause of the failure before it.
    Retry { attempt: u64, cause: String },
}

/// A [`Decision`] as a value of mathematics.
pub enum DecisionView<T> {
    Finished(AttemptOutcomeView<T>),
    Retry { attempt: nat, cause: Seq<char> },
}

impl<T> View for AttemptOutcome<T> {
    type V = AttemptOutcomeView<T>;

    open spec fn view(&self) -> AttemptOutcomeView<T> {
        match self {
            AttemptOutcome::Success(value) => AttemptOutcomeView::Success(*value),
            AttemptOutcome::ExhaustedRetryable(cause) => AttemptOutcomeView::ExhaustedRetryable(
                cause@,
            ),
            AttemptOutcome::Unrecoverable(cause) => AttemptOutcomeView::Unrecoverable(cause@),
        }
    }
}

impl<T> View for Decision<T> {
    type V = DecisionView<T>;

    open spec fn view(&self) -> DecisionView<T> {
        match self {
            Decision::Finished(outcome) => DecisionView::Finished(outcome@),
            Decision::Retry { attempt, cause } => DecisionView::Retry {
                attempt: *attempt as nat,
                cause: cause@,
            },
        }
    }
}

/// The result of a try with the cause of its failure, if it is one, as a
/// value of mathematics.
pub open spec fn result_view<T>(result: Result<T, Error>) -> Result<T, ErrorView> {
    match result {
        Ok(value) => Ok(value),
        Err(error) => Err(error@),
    }
}

/// What the policy decides when try number `attempt` ended in `result`.
pub open spec fn decision_for<T>(attempt: nat, result: Result<T, ErrorView>) -> DecisionView<T> {
    match result {
        Ok(value) => DecisionView::Finished(AttemptOutcomeView::Success(value)),
        Err(ErrorView::Retryable(cause)) => {
            if attempt < MAX_ATTEMPTS {
                DecisionView::Retry { attempt: attempt + 1, cause }
            } else {
                DecisionView::Finished(AttemptOutcomeView::ExhaustedRetryable(cause))
            }
        },
        Err(ErrorView::Unrecoverable(cause)) => DecisionView::Finished(
            AttemptOutcomeView::Unrecoverable(cause),
        ),
    }
}

/// What the policy makes of the results of the tries from number `attempt`
/// on, taken in turn: how it ends, or nothing if the results run out before
/// it has ended.
pub open spec fn policy_outcome<T>(
    attempt: nat,
    results: Seq<Result<T, ErrorView>>,
) -> Option<AttemptOutcomeView<T>>
    decreases results.len(),
{
    if results.len() == 0 {
        None
    } else {
        match decision_for(attempt, results[0]) {
            DecisionView::Finished(outcome) => Some(outcome),
            DecisionView::Retry { attempt: next, .. } => policy_outcome(
                next,
                results.drop_first(),
            ),
        }
    }
}

/// The number of results that the policy looks at, of those of the tries
/// from number `attempt` on.
pub open spec fn results_used<T>(attempt: nat, results: Seq<Result<T, ErrorView>>) -> nat
    decreases results.len(),
{
    if results.len() == 0 {
        0
    } else {
        match decision_for(attempt, results[0]) {
            DecisionView::Finished(_) => 1,
            DecisionView::Retry { attempt: next, .. } => 1 + results_used(
                next,
                results.drop_first(),
            ),
        }
    }
}

/// The policy never makes more than [`MAX_ATTEMPTS`] tries, and with that
/// many results it always ends. It ends with the first result that is not a
/// failure worth trying again: in success, or in a failure beyond mending.
/// Where all the tries fail and are worth trying again, it ends with the
/// cause of the last.
pub proof fn lemma_policy_is_bounded<T>(results: Seq<Result<T, ErrorView>>)
    ensures
        results_used(1, results) <= MAX_ATTEMPTS,
        results_used(1, results) <= results.len(),
        results.len() >= MAX_ATTEMPTS ==> policy_outcome(1, results) is Some,
        policy_outcome(1, results) matches Some(AttemptOutcomeView::Success(value))
            ==> results[results_used(1, results) - 1] == Ok::<T, ErrorView>(value),
        policy_outcome(1, results) matches Some(AttemptOutcomeView::Unrecoverable(cause))
            ==> results[results_used(1, results) - 1] == Err::<T, ErrorView>(
            ErrorView::Unrecoverable(cause),
        ),
        policy_outcome(1, results) matches Some(AttemptOutcomeView::ExhaustedRetryable(cause))
            ==> results_used(1, results) == MAX_ATTEMPTS && results[MAX_ATTEMPTS - 1] == Err::<
            T,
            ErrorView,
        >(ErrorView::Retryable(cause)),
        forall|i: int|
            0 <= i < results_used(1, results) - 1 ==> (#[trigger] results[i] matches Err(
                ErrorView::Retryable(_),
            )),
{
    reveal_with_fuel(policy_outcome, 4);
    reveal_with_fuel(results_used, 4);
    if results.len() >= 1 {
        let rest1 = results.drop_first();
        if rest1.len() >= 1 {
            assert(rest1[0] == results[1]);
            let rest2 = rest1.drop_first();
            if rest2.len() >= 1 {
                assert(rest2[0] == results[2]);
            }
        }
    }
}

/// Decides what follows try number `attempt` of an operation, which ended
/// in `result`.
pub fn decide<T>(attempt: u64, result: Result<T, Error>) -> (decision: Decision<T>)
    ensures
        decision@ == decision_for(attempt as nat, result_view(result)),
{
    match result {
        Ok(value) => Decision::Finished(AttemptOutcome::Success(value)),
        Err(Error::Retryable(cause)) => {
            if attempt < MAX_ATTEMPTS {
                Decision::Retry { attempt: attempt + 1, cause }
            } else {
                Decision::Finished(AttemptOutcome::ExhaustedRetryable(cause))
            }
        },
        Err(Error::Unrecoverable(cause)) => Decision::Finished(
            AttemptOutcome::Unrecoverable(cause),
        ),
    }
}

} // verus!
