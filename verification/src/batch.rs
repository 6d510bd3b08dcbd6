use vstd::prelude::*;
use crate::errors::TransError;
use crate::jobs::{evens, odds, partition_jobs, Job};

verus! {

/// How one batch call runs: an empty batch succeeds at once with no network
/// call; a batch with no odd-index jobs (at most one job) runs its one subset
/// sequentially; a larger batch runs the two subsets as two concurrent
/// streams, capping the fan-out at exactly two.
pub enum BatchPlan {
    Empty,
    Single(Vec<Job>),
    Split(Vec<Job>, Vec<Job>),
}

/// Plans a batch: partitions the jobs by the parity of their original index
/// and picks the execution shape the batch translator uses.
pub fn plan_batch(jobs: &Vec<Job>) -> (r: BatchPlan)
    ensures
        jobs@.len() == 0 ==> r is Empty,
        jobs@.len() == 1 ==> (r matches BatchPlan::Single(a) && a@ == jobs@),
        jobs@.len() >= 2 ==> (r matches BatchPlan::Split(a, b) && a@ == evens(jobs@) && b@
            == odds(jobs@)),
{
    if jobs.len() == 0 {
        return BatchPlan::Empty;
    }
    let (a, b) = partition_jobs(jobs);
    if b.len() == 0 {
        proof {
            if jobs@.len() == 1 {
                assert(a@ =~= jobs@);
            }
        }
        BatchPlan::Single(a)
    } else {
        BatchPlan::Split(a, b)
    }
}

/// Joins the two streams' results: the first subset's error is reported
/// preferentially; only when it succeeded is the second subset's result
/// reported. One stream's failure never hides what the other did.
pub fn combine_results(a: Result<(), TransError>, b: Result<(), TransError>) -> (r: Result<
    (),
    TransError,
>)
    ensures
        a is Err ==> r == a,
        a is Ok ==> r == b,
{
    match a {
        Ok(()) => b,
        Err(e) => Err(e),
    }
}

} // verus!
