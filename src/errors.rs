use vstd::prelude::*;

verus! {

/// Why the status of one Unity Cloud Build target could not be had.
#[derive(Debug)]
pub enum UnityRetrievalError {
    /// The service answered, but with no build in the answer.
    NoBuildsReturned,
    /// The request failed; the message says how.
    HttpError { http_error_message: String },
}

} // verus!
