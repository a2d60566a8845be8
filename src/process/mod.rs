use vstd::prelude::*;
use vstd::string::StringExecFns;

pub mod handlers;
pub mod models;

verus! {

/// The path under which the process endpoints are served.
pub fn scope() -> (r: String)
    ensures
        r@ == "/process"@,
{
    String::from_str("/process")
}

} // verus!
