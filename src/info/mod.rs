use vstd::prelude::*;
use vstd::string::StringExecFns;

pub mod handlers;
pub mod models;

verus! {

/// The path under which the information endpoints are served.
pub fn scope() -> (r: String)
    ensures
        r@ == "/info"@,
{
    String::from_str("/info")
}

} // verus!
