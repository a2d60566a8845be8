use vstd::prelude::*;
use vstd::string::StringExecFns;

pub mod models;
pub mod utils;

verus! {

/// The path under which the login endpoints are served.
pub fn scope() -> (r: String)
    ensures
        r@ == "/auth"@,
{
    String::from_str("/auth")
}

} // verus!
