use vstd::prelude::*;
use vstd::string::StringExecFns;

pub mod handlers;
pub mod models;

verus! {

/// The path under which the host configuration endpoints are served.
pub fn scope() -> (r: String)
    ensures
        r@ == "/os"@,
{
    String::from_str("/os")
}

} // verus!
