use vstd::prelude::*;

verus! {

/// The fixed retry budget of the downloader: five attempts in all.
pub const MAX_ATTEMPTS: u64 = 5;

/// What one send attempt produced: the fully buffered response body on a 2xx
/// status, or a description of the transport error or bad status.
pub enum Outcome {
    Success(Vec<u8>),
    Failure(String),
}

/// The downloader's state between attempts: how many attempts have been made.
pub struct RetryState {
    pub attempts: u64,
}

/// The downloader's decision after an attempt: stop with a result, or try
/// again in the given state.
pub enum RetryStep {
    Done(Result<Vec<u8>, String>),
    Again(RetryState),
}

/// The retry policy's decision after the attempt that `attempts` earlier ones
/// preceded: a success returns its bytes at once, short-circuiting the
/// remaining attempts; a failure before the budget is spent asks for another
/// attempt; the failure of the final attempt is returned as the authoritative
/// error, and no further attempt is asked for.
pub open spec fn next_step(attempts: int, outcome: Outcome) -> RetryStep {
    match outcome {
        Outcome::Success(b) => RetryStep::Done(Ok(b)),
        Outcome::Failure(e) => if attempts + 1 < MAX_ATTEMPTS {
            RetryStep::Again(RetryState { attempts: (attempts + 1) as u64 })
        } else {
            RetryStep::Done(Err(e))
        },
    }
}

/// A fresh downloader has made no attempts yet.
pub fn retry_start() -> (s: RetryState)
    ensures
        s.attempts == 0,
{
    RetryState { attempts: 0 }
}

/// The retry policy, one attempt at a time; decides exactly as `next_step`.
pub fn retry_step(s: RetryState, outcome: Outcome) -> (r: RetryStep)
    requires
        s.attempts < MAX_ATTEMPTS,
    ensures
        r == next_step(s.attempts as int, outcome),
{
    match outcome {
        Outcome::Success(b) => RetryStep::Done(Ok(b)),
        Outcome::Failure(e) => {
            if s.attempts + 1 < MAX_ATTEMPTS {
                RetryStep::Again(RetryState { attempts: s.attempts + 1 })
            } else {
                RetryStep::Done(Err(e))
            }
        },
    }
}

/// The result of running the policy from attempt `k` onward, where
/// `outcomes[i]` is what attempt `i` would produce: `next_step` iterated
/// until it stops, as a driving loop iterates `retry_step`.
pub open spec fn run_from(outcomes: Seq<Outcome>, k: int) -> Result<Vec<u8>, String>
    recommends
        0 <= k < MAX_ATTEMPTS,
        outcomes.len() == MAX_ATTEMPTS,
    decreases MAX_ATTEMPTS - k when 0 <= k < MAX_ATTEMPTS
{
    if 0 <= k < MAX_ATTEMPTS {
        match next_step(k, outcomes[k]) {
            RetryStep::Done(r) => r,
            RetryStep::Again(s) => run_from(outcomes, k + 1),
        }
    } else {
        arbitrary()
    }
}

/// How many attempts the policy makes from attempt `k` onward.
pub open spec fn attempts_from(outcomes: Seq<Outcome>, k: int) -> int
    recommends
        0 <= k < MAX_ATTEMPTS,
        outcomes.len() == MAX_ATTEMPTS,
    decreases MAX_ATTEMPTS - k when 0 <= k < MAX_ATTEMPTS
{
    if 0 <= k < MAX_ATTEMPTS {
        match next_step(k, outcomes[k]) {
            RetryStep::Done(r) => 1,
            RetryStep::Again(s) => 1 + attempts_from(outcomes, k + 1),
        }
    } else {
        arbitrary()
    }
}

/// The result of the whole download: run the policy from the first attempt.
pub open spec fn retry_result(outcomes: Seq<Outcome>) -> Result<Vec<u8>, String> {
    run_from(outcomes, 0)
}

/// The number of attempts the whole download makes.
pub open spec fn attempts_made(outcomes: Seq<Outcome>) -> int {
    attempts_from(outcomes, 0)
}

/// If the first `k` attempts fail and attempt `k` succeeds, exactly `k + 1`
/// attempts are made and the successful bytes are returned.
pub proof fn lemma_retry_first_success(outcomes: Seq<Outcome>, k: int)
    requires
        outcomes.len() == MAX_ATTEMPTS,
        0 <= k < MAX_ATTEMPTS,
        forall|i: int| 0 <= i < k ==> outcomes[i] is Failure,
        outcomes[k] is Success,
    ensures
        attempts_made(outcomes) == k + 1,
        retry_result(outcomes) == Ok::<Vec<u8>, String>(outcomes[k]->Success_0),
{
    lemma_run_from_first_success(outcomes, 0, k);
}

proof fn lemma_run_from_first_success(outcomes: Seq<Outcome>, j: int, k: int)
    requires
        outcomes.len() == MAX_ATTEMPTS,
        0 <= j <= k < MAX_ATTEMPTS,
        forall|i: int| j <= i < k ==> outcomes[i] is Failure,
        outcomes[k] is Success,
    ensures
        attempts_from(outcomes, j) == k + 1 - j,
        run_from(outcomes, j) == Ok::<Vec<u8>, String>(outcomes[k]->Success_0),
    decreases k - j,
{
    if j < k {
        lemma_run_from_first_success(outcomes, j + 1, k);
    }
}

/// If all five attempts fail, the error of the fifth attempt is returned,
/// five attempts are made, and no sixth attempt occurs.
pub proof fn lemma_retry_exhausted(outcomes: Seq<Outcome>)
    requires
        outcomes.len() == MAX_ATTEMPTS,
        forall|i: int| 0 <= i < MAX_ATTEMPTS ==> outcomes[i] is Failure,
    ensures
        attempts_made(outcomes) == MAX_ATTEMPTS,
        retry_result(outcomes) == Err::<Vec<u8>, String>(
            outcomes[MAX_ATTEMPTS - 1]->Failure_0,
        ),
{
    lemma_run_from_exhausted(outcomes, 0);
}

proof fn lemma_run_from_exhausted(outcomes: Seq<Outcome>, j: int)
    requires
        outcomes.len() == MAX_ATTEMPTS,
        0 <= j < MAX_ATTEMPTS,
        forall|i: int| j <= i < MAX_ATTEMPTS ==> outcomes[i] is Failure,
    ensures
        attempts_from(outcomes, j) == MAX_ATTEMPTS - j,
        run_from(outcomes, j) == Err::<Vec<u8>, String>(outcomes[MAX_ATTEMPTS - 1]->Failure_0),
    decreases MAX_ATTEMPTS - j,
{
    if j + 1 < MAX_ATTEMPTS {
        lemma_run_from_exhausted(outcomes, j + 1);
    }
}

} // verus!
