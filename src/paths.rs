use vstd::prelude::*;
use vstd::string::*;

verus! {

/// The separator between path components.
pub open spec fn sep() -> char {
    '/'
}

/// A path is absolute when it starts at the root.
pub open spec fn absolute(p: Seq<char>) -> bool {
    p.len() > 0 && p[0] == sep()
}

/// `rel` appended to `base` with exactly one separator between them when
/// `base` already ends with one, and one added otherwise.
pub open spec fn joined(base: Seq<char>, rel: Seq<char>) -> Seq<char> {
    if base.len() > 0 && base.last() == sep() {
        base + rel
    } else {
        base + seq![sep()] + rel
    }
}

/// Whether `p` names a path from the root.
pub fn is_absolute(p: &str) -> (r: bool)
    ensures
        r == absolute(p@),
{
    let n = p.unicode_len();
    if n == 0 {
        false
    } else {
        p.get_char(0) == '/'
    }
}

/// The path `rel` below `base`.
pub fn join(base: &str, rel: &str) -> (r: String)
    ensures
        r@ == joined(base@, rel@),
{
    let n = base.unicode_len();
    let mut out = String::from_str(base);
    if n == 0 || base.get_char(n - 1) != '/' {
        out.append("/");
        proof {
            reveal_strlit("/");
        }
    }
    out.append(rel);
    out
}

} // verus!
