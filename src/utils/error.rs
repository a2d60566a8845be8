use vstd::prelude::*;

verus! {

/// The body of a failed response: a message for the caller.
pub struct ResponseError {
    pub error: String,
}

impl ResponseError {
    /// A response error with the message `error`.
    pub fn new(error: String) -> (r: ResponseError)
        ensures
            r.error@ == error@,
    {
        ResponseError { error }
    }
}

} // verus!
