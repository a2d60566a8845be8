use vstd::prelude::*;

verus! {

/// `part` appended to `base` as a path component: an absolute `part`
/// replaces `base`, and a separator is put between the two where `base`
/// does not already end with one.
pub open spec fn joined(base: Seq<char>, part: Seq<char>) -> Seq<char> {
    if part.len() > 0 && part[0] == '/' {
        part
    } else if base.len() == 0 || base.last() == '/' {
        base + part
    } else {
        base + seq!['/'] + part
    }
}

/// Appends `part` to the path `base`.
pub fn join(base: &str, part: &str) -> (r: String)
    ensures
        r@ == joined(base@, part@),
{
    let pl = part.unicode_len();
    if pl > 0 && part.get_char(0) == '/' {
        return part.to_owned();
    }
    let bl = base.unicode_len();
    let mut r = base.to_owned();
    if bl > 0 && base.get_char(bl - 1) != '/' {
        r.append("/");
        proof {
            reveal_strlit("/");
        }
        assert(r@ =~= base@ + seq!['/']);
    }
    r.append(part);
    r
}

} // verus!
