use vstd::prelude::*;
use vstd::string::StringExecFns;

pub mod handlers;
pub mod models;

verus! {

/// The path under which the file endpoints are served.
pub fn scope() -> (r: String)
    ensures
        r@ == "/file"@,
{
    String::from_str("/file")
}

} // verus!
