use ichigo_client::retry::{retry_start, retry_step, Outcome, RetryStep};

/// Drives the retry policy against a script of per-attempt outcomes and
/// reports how many attempts were made and what came out.
fn drive(mut script: Vec<Outcome>) -> (usize, Result<Vec<u8>, String>) {
    script.reverse();
    let mut state = retry_start();
    let mut attempts = 0usize;
    loop {
        let outcome = script.pop().expect("policy asked for more attempts than scripted");
        attempts += 1;
        match retry_step(state, outcome) {
            RetryStep::Done(r) => return (attempts, r),
            RetryStep::Again(s) => state = s,
        }
    }
}

fn failures(k: usize) -> Vec<Outcome> {
    (0..k).map(|i| Outcome::Failure(format!("attempt {} failed", i))).collect()
}

#[test]
fn succeeds_first_try() {
    let (attempts, r) = drive(vec![Outcome::Success(b"body".to_vec())]);
    assert_eq!(attempts, 1);
    assert_eq!(r.unwrap(), b"body".to_vec());
}

#[test]
fn retries_then_succeeds() {
    for k in 1..5usize {
        let mut script = failures(k);
        script.push(Outcome::Success(b"late body".to_vec()));
        let (attempts, r) = drive(script);
        assert_eq!(attempts, k + 1);
        assert_eq!(r.unwrap(), b"late body".to_vec());
    }
}

#[test]
fn exhausts_after_five_failures() {
    // A sixth outcome is scripted; the policy must never ask for it.
    let mut script = failures(6);
    script[5] = Outcome::Success(b"never reached".to_vec());
    let (attempts, r) = drive(script);
    assert_eq!(attempts, 5);
    assert_eq!(r.unwrap_err(), "attempt 4 failed");
}
