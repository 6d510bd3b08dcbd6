use vstd::prelude::*;

verus! {

/// The failure taxonomy of the pipeline: authentication failures (login or
/// token parsing), network failures (transport error or bad status after the
/// retry budget is spent), and file failures (source unreadable or
/// destination unwritable).
#[derive(Debug)]
pub enum TransError {
    Auth(String),
    Network(String),
    Io(String),
}

impl TransError {
    /// A human-readable description, for callers that report the error.
    pub fn describe(&self) -> (r: &String)
        ensures
            self matches TransError::Auth(m) ==> r@ == m@,
            self matches TransError::Network(m) ==> r@ == m@,
            self matches TransError::Io(m) ==> r@ == m@,
    {
        match self {
            TransError::Auth(m) => m,
            TransError::Network(m) => m,
            TransError::Io(m) => m,
        }
    }
}

} // verus!
