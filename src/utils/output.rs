use vstd::prelude::*;
use vstd::utf8::{decode_utf8, valid_utf8};

verus! {

/// Bytes that a process or a file produced: text where they are valid UTF-8,
/// the raw bytes otherwise.
#[allow(inconsistent_fields)]
pub enum Output {
    UTF8 { output: String },
    Bytes { output: Vec<u8> },
}

/// Relies on `String::from_utf8`: `Ok` exactly when the bytes are valid
/// UTF-8, holding the characters they encode.
#[verifier::external_body]
fn utf8_string(bytes: Vec<u8>) -> (r: Option<String>)
    ensures
        r is Some <==> valid_utf8(bytes@),
        r matches Some(s) ==> s@ == decode_utf8(bytes@),
{
    String::from_utf8(bytes).ok()
}

/// A copy of `v`.
pub fn copy_bytes(v: &Vec<u8>) -> (r: Vec<u8>)
    ensures
        r@ == v@,
{
    let mut r: Vec<u8> = Vec::new();
    let mut i: usize = 0;
    while i < v.len()
        invariant
            i <= v@.len(),
            r@ == v@.take(i as int),
        decreases v.len() - i,
    {
        r.push(v[i]);
        i = i + 1;
        assert(r@ =~= v@.take(i as int));
    }
    assert(r@ =~= v@);
    r
}

impl Output {
    /// Whether this is the reading of `bytes` that `from_bytes` gives.
    pub open spec fn reads(&self, bytes: Seq<u8>) -> bool {
        match self {
            Output::UTF8 { output } => valid_utf8(bytes) && output@ == decode_utf8(bytes),
            Output::Bytes { output } => !valid_utf8(bytes) && output@ == bytes,
        }
    }

    /// Reads `bytes` as text where they are valid UTF-8.
    pub fn from_bytes(bytes: Vec<u8>) -> (r: Output)
        ensures
            r.reads(bytes@),
    {
        let copy = copy_bytes(&bytes);
        match utf8_string(bytes) {
            Some(s) => Output::UTF8 { output: s },
            None => Output::Bytes { output: copy },
        }
    }
}

} // verus!
