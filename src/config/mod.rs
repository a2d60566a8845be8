use vstd::prelude::*;
use vstd::string::StringExecFns;

pub mod guarantees;
pub mod handlers;
pub mod models;

verus! {

/// The path under which the container endpoints are served.
pub fn scope() -> (r: String)
    ensures
        r@ == "/config"@,
{
    String::from_str("/config")
}

} // verus!
