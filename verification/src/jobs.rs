use vstd::prelude::*;

verus! {

/// One translation job: a source image path and a destination path for the
/// translated result. Paths are plain strings; reading and writing the files
/// is the caller's business.
pub struct Job {
    pub src: String,
    pub dst: String,
}

impl Job {
    pub fn new(src: String, dst: String) -> (r: Job)
        ensures
            r.src@ == src@,
            r.dst@ == dst@,
    {
        Job { src, dst }
    }

    /// Copies the job; jobs are plain value pairs.
    pub fn duplicate(&self) -> (r: Job)
        ensures
            r == *self,
    {
        Job { src: self.src.clone(), dst: self.dst.clone() }
    }
}

/// The elements of `s` at even indices, in order.
pub open spec fn evens<T>(s: Seq<T>) -> Seq<T> {
    Seq::new((s.len() + 1) / 2, |i: int| s[2 * i])
}

/// The elements of `s` at odd indices, in order.
pub open spec fn odds<T>(s: Seq<T>) -> Seq<T> {
    Seq::new(s.len() / 2, |i: int| s[2 * i + 1])
}

/// Merges two subsets back by alternating: `a` supplies the even positions,
/// `b` the odd ones. Defined when `a` is as long as `b` or one longer, as the
/// two halves of a partition always are.
pub open spec fn interleave<T>(a: Seq<T>, b: Seq<T>) -> Seq<T> {
    Seq::new(a.len() + b.len(), |i: int| if i % 2 == 0 { a[i / 2] } else { b[i / 2] })
}

/// Partitioning by index parity keeps ceil(n/2) jobs in the first subset and
/// floor(n/2) in the second, and interleaving the two subsets restores the
/// original list.
pub proof fn lemma_partition_reconstructs<T>(s: Seq<T>)
    ensures
        evens(s).len() == (s.len() + 1) / 2,
        odds(s).len() == s.len() / 2,
        interleave(evens(s), odds(s)) == s,
{
    let a = evens(s);
    let b = odds(s);
    assert(a.len() + b.len() == s.len());
    assert forall|i: int| 0 <= i < s.len() implies interleave(a, b)[i] == s[i] by {
        if i % 2 == 0 {
            assert(0 <= i / 2 < a.len());
            assert(2 * (i / 2) == i);
        } else {
            assert(0 <= i / 2 < b.len());
            assert(2 * (i / 2) + 1 == i);
        }
    }
    assert(interleave(a, b) =~= s);
}

/// Splits the jobs into the two subsets that the batch runs: jobs at even
/// original indices in order, and jobs at odd original indices in order.
pub fn partition_jobs(jobs: &Vec<Job>) -> (r: (Vec<Job>, Vec<Job>))
    ensures
        r.0@ == evens(jobs@),
        r.1@ == odds(jobs@),
{
    let mut a: Vec<Job> = Vec::new();
    let mut b: Vec<Job> = Vec::new();
    let mut i: usize = 0;
    while i < jobs.len()
        invariant
            i <= jobs@.len(),
            a@.len() == (i + 1) / 2,
            b@.len() == i / 2,
            forall|j: int| 0 <= j < a@.len() ==> a@[j] == jobs@[2 * j],
            forall|j: int| 0 <= j < b@.len() ==> b@[j] == jobs@[2 * j + 1],
        decreases jobs@.len() - i,
    {
        if i % 2 == 0 {
            proof {
                assert(2 * ((i + 1) / 2) == i as int);
            }
            a.push(jobs[i].duplicate());
        } else {
            proof {
                assert(2 * (i / 2) + 1 == i as int);
            }
            b.push(jobs[i].duplicate());
        }
        i = i + 1;
    }
    proof {
        assert(a@ =~= evens(jobs@));
        assert(b@ =~= odds(jobs@));
    }
    (a, b)
}

} // verus!
