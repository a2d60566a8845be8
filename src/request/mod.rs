use vstd::prelude::*;
use vstd::string::StringExecFns;

pub mod handlers;
pub mod job;
pub mod models;

verus! {

/// The path under which the request endpoints are served.
pub fn scope() -> (r: String)
    ensures
        r@ == "/request"@,
{
    String::from_str("/request")
}

} // verus!
