use vstd::prelude::*;
use vstd::string::StringExecFns;

pub mod handlers;
pub mod models;

verus! {

/// The path under which the usage endpoints are served.
pub fn scope() -> (r: String)
    ensures
        r@ == "/usage"@,
{
    String::from_str("/usage")
}

} // verus!
