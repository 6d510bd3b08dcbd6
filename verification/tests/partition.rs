use ichigo_client::batch::{combine_results, plan_batch, BatchPlan};
use ichigo_client::errors::TransError;
use ichigo_client::jobs::{partition_jobs, Job};

fn job(n: usize) -> Job {
    Job::new(format!("src{}", n), format!("dst{}", n))
}

fn jobs(n: usize) -> Vec<Job> {
    let mut v = Vec::new();
    let mut i = 0;
    while i < n {
        v.push(job(i));
        i += 1;
    }
    v
}

fn srcs(v: &Vec<Job>) -> Vec<&str> {
    v.iter().map(|j| j.src.as_str()).collect()
}

#[test]
fn partition_empty() {
    let (a, b) = partition_jobs(&jobs(0));
    assert_eq!(a.len(), 0);
    assert_eq!(b.len(), 0);
}

#[test]
fn partition_one() {
    let (a, b) = partition_jobs(&jobs(1));
    assert_eq!(srcs(&a), vec!["src0"]);
    assert_eq!(b.len(), 0);
}

#[test]
fn partition_four() {
    let (a, b) = partition_jobs(&jobs(4));
    assert_eq!(srcs(&a), vec!["src0", "src2"]);
    assert_eq!(srcs(&b), vec!["src1", "src3"]);
}

#[test]
fn partition_five_lengths() {
    let (a, b) = partition_jobs(&jobs(5));
    // |A| = ceil(5/2), |B| = floor(5/2)
    assert_eq!(a.len(), 3);
    assert_eq!(b.len(), 2);
    assert_eq!(srcs(&a), vec!["src0", "src2", "src4"]);
    assert_eq!(srcs(&b), vec!["src1", "src3"]);
}

#[test]
fn partition_interleaves_back() {
    let n = 7;
    let (a, b) = partition_jobs(&jobs(n));
    let mut rebuilt: Vec<String> = Vec::new();
    for i in 0..n {
        if i % 2 == 0 {
            rebuilt.push(a[i / 2].src.clone());
        } else {
            rebuilt.push(b[i / 2].src.clone());
        }
    }
    let expected: Vec<String> = jobs(n).iter().map(|j| j.src.clone()).collect();
    assert_eq!(rebuilt, expected);
}

#[test]
fn plan_empty_batch_succeeds_immediately() {
    let p = plan_batch(&jobs(0));
    assert!(matches!(p, BatchPlan::Empty));
}

#[test]
fn plan_single_job_uses_no_split() {
    let p = plan_batch(&jobs(1));
    match p {
        BatchPlan::Single(a) => assert_eq!(srcs(&a), vec!["src0"]),
        _ => panic!("one job must run sequentially"),
    }
}

#[test]
fn plan_four_jobs_splits_by_parity() {
    let p = plan_batch(&jobs(4));
    match p {
        BatchPlan::Split(a, b) => {
            assert_eq!(srcs(&a), vec!["src0", "src2"]);
            assert_eq!(srcs(&b), vec!["src1", "src3"]);
        }
        _ => panic!("four jobs must split into two streams"),
    }
}

#[test]
fn combine_prefers_first_error() {
    let r = combine_results(
        Err(TransError::Io(String::from("a failed"))),
        Err(TransError::Network(String::from("b failed"))),
    );
    assert!(matches!(r, Err(TransError::Io(m)) if m == "a failed"));

    let r = combine_results(Ok(()), Err(TransError::Network(String::from("b failed"))));
    assert!(matches!(r, Err(TransError::Network(m)) if m == "b failed"));

    let r = combine_results(Ok(()), Ok(()));
    assert!(r.is_ok());
}
