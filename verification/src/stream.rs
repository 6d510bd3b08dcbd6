use vstd::prelude::*;
use crate::errors::TransError;
use crate::jobs::Job;

verus! {

/// What processing one job came to. The stages are sequential: read the
/// source, build and send the request (with its internal retries), write the
/// response to the destination. The first stage to fail names the job's
/// failure; `Done` means the destination file was written.
pub enum JobOutcome {
    Done,
    ReadFailed(String),
    NetFailed(String),
    WriteFailed(String),
}

/// The error a failed job aborts its stream with: file failures from reading
/// the source or writing the destination, network failures from the download.
pub open spec fn job_error(outcome: JobOutcome) -> TransError
    recommends
        !(outcome is Done),
{
    match outcome {
        JobOutcome::Done => arbitrary(),
        JobOutcome::ReadFailed(e) => TransError::Io(e),
        JobOutcome::NetFailed(e) => TransError::Network(e),
        JobOutcome::WriteFailed(e) => TransError::Io(e),
    }
}

/// One stream's position in its assigned subset: the jobs, and how many of
/// them have completed.
pub struct StreamState {
    pub jobs: Vec<Job>,
    pub next: usize,
}

/// The stream's decision after one job: go on with the next job, finish the
/// stream successfully, or abort it with the failed job's error.
pub enum StreamStep {
    Continue(StreamState),
    Finished,
    Aborted(TransError),
}

/// The single-stream policy's decision after one job: a completed job moves
/// the stream to the next job, or finishes it after the last; any failure
/// aborts the stream at once with that job's error, leaving the remaining
/// jobs unprocessed.
pub open spec fn next_stream_step(s: StreamState, outcome: JobOutcome) -> StreamStep
    recommends
        s.next < s.jobs@.len(),
{
    match outcome {
        JobOutcome::Done => if s.next + 1 < s.jobs@.len() {
            StreamStep::Continue(StreamState { jobs: s.jobs, next: (s.next + 1) as usize })
        } else {
            StreamStep::Finished
        },
        _ => StreamStep::Aborted(job_error(outcome)),
    }
}

impl StreamState {
    pub open spec fn well_formed(&self) -> bool {
        self.next <= self.jobs@.len()
    }

    /// A stream starts at the first job of its subset.
    pub fn start(jobs: Vec<Job>) -> (s: Self)
        ensures
            s.jobs@ == jobs@,
            s.next == 0,
            s.well_formed(),
    {
        StreamState { jobs, next: 0 }
    }

    /// The job to process next, if any is left.
    pub fn current(&self) -> (r: Option<&Job>)
        requires
            self.well_formed(),
        ensures
            r is Some <==> self.next < self.jobs@.len(),
            r matches Some(j) ==> *j == self.jobs@[self.next as int],
    {
        if self.next < self.jobs.len() {
            Some(&self.jobs[self.next])
        } else {
            None
        }
    }

    /// The single-stream policy, one job at a time; decides exactly as
    /// `next_stream_step`.
    pub fn step(self, outcome: JobOutcome) -> (r: StreamStep)
        requires
            self.well_formed(),
            self.next < self.jobs@.len(),
        ensures
            r == next_stream_step(self, outcome),
            r matches StreamStep::Continue(s) ==> s.well_formed() && s.next < s.jobs@.len(),
    {
        match outcome {
            JobOutcome::Done => {
                let n = self.jobs.len();
                if self.next + 1 < n {
                    StreamStep::Continue(StreamState { jobs: self.jobs, next: self.next + 1 })
                } else {
                    StreamStep::Finished
                }
            },
            JobOutcome::ReadFailed(e) => StreamStep::Aborted(TransError::Io(e)),
            JobOutcome::NetFailed(e) => StreamStep::Aborted(TransError::Network(e)),
            JobOutcome::WriteFailed(e) => StreamStep::Aborted(TransError::Io(e)),
        }
    }
}

/// The stream's result from job `j` onward, where `outcomes[i]` is what
/// processing job `i` of the subset would come to. Mirrors `StreamState::step`
/// iterated by a driving loop.
pub open spec fn stream_from(outcomes: Seq<JobOutcome>, j: int) -> Result<(), TransError>
    decreases outcomes.len() - j when 0 <= j <= outcomes.len()
{
    if j >= outcomes.len() {
        Ok(())
    } else {
        match outcomes[j] {
            JobOutcome::Done => stream_from(outcomes, j + 1),
            _ => Err(job_error(outcomes[j])),
        }
    }
}

/// How many jobs the stream takes up from job `j` onward.
pub open spec fn processed_from(outcomes: Seq<JobOutcome>, j: int) -> int
    decreases outcomes.len() - j when 0 <= j <= outcomes.len()
{
    if j >= outcomes.len() {
        0
    } else {
        match outcomes[j] {
            JobOutcome::Done => 1 + processed_from(outcomes, j + 1),
            _ => 1,
        }
    }
}

/// The whole stream's result and job count.
pub open spec fn stream_result(outcomes: Seq<JobOutcome>) -> Result<(), TransError> {
    stream_from(outcomes, 0)
}

pub open spec fn jobs_processed(outcomes: Seq<JobOutcome>) -> int {
    processed_from(outcomes, 0)
}

/// A failure at job `i` aborts the stream there: the stream takes up exactly
/// the jobs before `i` and job `i` itself, leaves the rest unprocessed, and
/// reports job `i`'s error — whatever the jobs after `i` would have come to.
pub proof fn lemma_stream_aborts_on_failure(outcomes: Seq<JobOutcome>, i: int)
    requires
        0 <= i < outcomes.len(),
        forall|j: int| 0 <= j < i ==> outcomes[j] is Done,
        !(outcomes[i] is Done),
    ensures
        jobs_processed(outcomes) == i + 1,
        stream_result(outcomes) == Err::<(), TransError>(job_error(outcomes[i])),
{
    lemma_stream_from_aborts(outcomes, 0, i);
}

proof fn lemma_stream_from_aborts(outcomes: Seq<JobOutcome>, j: int, i: int)
    requires
        0 <= j <= i < outcomes.len(),
        forall|k: int| j <= k < i ==> outcomes[k] is Done,
        !(outcomes[i] is Done),
    ensures
        processed_from(outcomes, j) == i + 1 - j,
        stream_from(outcomes, j) == Err::<(), TransError>(job_error(outcomes[i])),
    decreases i - j,
{
    if j < i {
        lemma_stream_from_aborts(outcomes, j + 1, i);
    }
}

/// If every job completes, the stream succeeds and takes up every job.
pub proof fn lemma_stream_all_succeed(outcomes: Seq<JobOutcome>)
    requires
        forall|j: int| 0 <= j < outcomes.len() ==> outcomes[j] is Done,
    ensures
        jobs_processed(outcomes) == outcomes.len(),
        stream_result(outcomes) == Ok::<(), TransError>(()),
{
    lemma_stream_from_succeeds(outcomes, 0);
}

proof fn lemma_stream_from_succeeds(outcomes: Seq<JobOutcome>, j: int)
    requires
        0 <= j <= outcomes.len(),
        forall|k: int| j <= k < outcomes.len() ==> outcomes[k] is Done,
    ensures
        processed_from(outcomes, j) == outcomes.len() - j,
        stream_from(outcomes, j) == Ok::<(), TransError>(()),
    decreases outcomes.len() - j,
{
    if j < outcomes.len() {
        lemma_stream_from_succeeds(outcomes, j + 1);
    }
}

} // verus!
