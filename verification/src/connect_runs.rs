//! Whole courses of connection attempts, and what holds of them.
//!
//! A course is a sequence of attempt outcomes, reported one after the other
//! to an establisher with a given schedule of delays. Outcomes that come
//! after the course is decided are never asked for.

use crate::connect::{fresh_retries, AttemptOutcome, ConnectionError, Ruling, MAX_ATTEMPTS};
use vstd::prelude::*;

verus! {

/// How a course of attempts ends.
pub enum Conclusion {
    /// A session is established.
    Established,
    /// The operation has failed.
    Failed(ConnectionError),
    /// The outcomes ran out before the course was decided.
    Undecided,
}

/// A course of attempts: how it ends and how many attempts were made.
pub struct Course {
    pub conclusion: Conclusion,
    pub attempts: nat,
}

/// The course that the outcomes take with the given delays to come.
pub open spec fn course(retries: Seq<u64>, outcomes: Seq<AttemptOutcome>) -> Course
    decreases outcomes.len(),
{
    if outcomes.len() == 0 {
        Course { conclusion: Conclusion::Undecided, attempts: 0 }
    } else {
        match outcomes[0].ruling(retries) {
            Ruling::Established => Course { conclusion: Conclusion::Established, attempts: 1 },
            Ruling::Failed(error) => Course { conclusion: Conclusion::Failed(error), attempts: 1 },
            Ruling::Retry { delay_ms } => {
                let later = course(retries.drop_first(), outcomes.drop_first());
                Course { conclusion: later.conclusion, attempts: later.attempts + 1 }
            },
        }
    }
}

/// Whether the first `count` outcomes all timed out or failed.
pub open spec fn all_retryable(outcomes: Seq<AttemptOutcome>, count: int) -> bool {
    forall|i: int| 0 <= i < count ==> (#[trigger] outcomes[i]).retryable()
}

/// A course never makes more attempts than one plus the number of delays to
/// come, however the attempts go.
pub proof fn lemma_attempts_are_bounded(retries: Seq<u64>, outcomes: Seq<AttemptOutcome>)
    ensures
        course(retries, outcomes).attempts <= retries.len() + 1,
        course(retries, outcomes).attempts <= outcomes.len(),
    decreases outcomes.len(),
{
    if outcomes.len() > 0 {
        if outcomes[0].ruling(retries) is Retry {
            lemma_attempts_are_bounded(retries.drop_first(), outcomes.drop_first());
        }
    }
}

/// If the attempts before attempt `k + 1` time out or fail, a delay is left
/// for each of them, and attempt `k + 1` connects, then the session is
/// established by exactly `k + 1` attempts.
pub proof fn lemma_first_success_establishes(
    retries: Seq<u64>,
    outcomes: Seq<AttemptOutcome>,
    k: int,
)
    requires
        0 <= k < outcomes.len(),
        k <= retries.len(),
        all_retryable(outcomes, k),
        outcomes[k] is Connected,
    ensures
        course(retries, outcomes) == (Course {
            conclusion: Conclusion::Established,
            attempts: (k + 1) as nat,
        }),
    decreases k,
{
    if k > 0 {
        let rest = outcomes.drop_first();
        assert forall|i: int| 0 <= i < k - 1 implies (#[trigger] rest[i]).retryable() by {}
        lemma_first_success_establishes(retries.drop_first(), rest, k - 1);
    }
}

/// If as many attempts time out or fail as there are delays, and one more,
/// then the operation fails with the error of the last of them, after exactly
/// that many attempts.
pub proof fn lemma_gives_up_without_retries(retries: Seq<u64>, outcomes: Seq<AttemptOutcome>)
    requires
        retries.len() < outcomes.len(),
        all_retryable(outcomes, retries.len() as int + 1),
    ensures
        course(retries, outcomes) == (Course {
            conclusion: Conclusion::Failed(outcomes[retries.len() as int].error()),
            attempts: retries.len() + 1,
        }),
    decreases retries.len(),
{
    if retries.len() > 0 {
        let rest = outcomes.drop_first();
        let left = retries.drop_first();
        assert forall|i: int| 0 <= i < left.len() + 1 implies (#[trigger] rest[i]).retryable() by {}
        lemma_gives_up_without_retries(left, rest);
    }
}

/// A request that cannot be made fails the operation at the attempt that
/// finds it so, whatever delays are left.
pub proof fn lemma_invalid_request_fails_at_once(
    retries: Seq<u64>,
    outcomes: Seq<AttemptOutcome>,
)
    requires
        outcomes.len() > 0,
        outcomes[0] is InvalidRequest,
    ensures
        course(retries, outcomes) == (Course {
            conclusion: Conclusion::Failed(ConnectionError::InvalidRequest),
            attempts: 1,
        }),
{
}

/// A streaming operation makes at most [`MAX_ATTEMPTS`] connection attempts.
pub proof fn lemma_at_most_max_attempts(outcomes: Seq<AttemptOutcome>)
    ensures
        course(fresh_retries(), outcomes).attempts <= MAX_ATTEMPTS,
{
    lemma_attempts_are_bounded(fresh_retries(), outcomes);
}

/// In a streaming operation, if attempt `k + 1` is among the first
/// [`MAX_ATTEMPTS`] and connects after `k` attempts that timed out or failed,
/// the session is established by exactly `k + 1` attempts.
pub proof fn lemma_establishes_within_max_attempts(outcomes: Seq<AttemptOutcome>, k: int)
    requires
        0 <= k < outcomes.len(),
        k < MAX_ATTEMPTS,
        all_retryable(outcomes, k),
        outcomes[k] is Connected,
    ensures
        course(fresh_retries(), outcomes) == (Course {
            conclusion: Conclusion::Established,
            attempts: (k + 1) as nat,
        }),
{
    lemma_first_success_establishes(fresh_retries(), outcomes, k);
}

/// A streaming operation whose first [`MAX_ATTEMPTS`] attempts time out or
/// fail has failed after exactly that many attempts, with the error of the
/// last of them.
pub proof fn lemma_fails_after_max_attempts(outcomes: Seq<AttemptOutcome>)
    requires
        outcomes.len() >= MAX_ATTEMPTS,
        all_retryable(outcomes, MAX_ATTEMPTS as int),
    ensures
        course(fresh_retries(), outcomes) == (Course {
            conclusion: Conclusion::Failed(outcomes[MAX_ATTEMPTS - 1].error()),
            attempts: MAX_ATTEMPTS as nat,
        }),
{
    lemma_gives_up_without_retries(fresh_retries(), outcomes);
}

} // verus!
