//! Path values and the two operations the resolver needs on them.
//!
//! Paths are plain UTF-8 strings with POSIX semantics: a path is absolute
//! exactly when it begins with the `/` separator. Extending a path with a
//! further segment follows the standard library's push rules: an absolute
//! segment replaces the base outright, an empty base is ignored, and a
//! separator is inserted only when the base does not already end with one.

use vstd::prelude::*;
use vstd::string::*;

verus! {

/// Whether `p` is an absolute path: non-empty and starting with `/`.
pub open spec fn absolute(p: Seq<char>) -> bool {
    p.len() > 0 && p[0] == '/'
}

/// The characters of `base` extended with the segment `rel`.
pub open spec fn joined(base: Seq<char>, rel: Seq<char>) -> Seq<char> {
    if absolute(rel) {
        rel
    } else if base.len() == 0 {
        rel
    } else if base[base.len() - 1] == '/' {
        base + rel
    } else {
        base + seq!['/'] + rel
    }
}

/// Decides whether `p` is an absolute path.
pub fn is_absolute(p: &str) -> (r: bool)
    ensures
        r == absolute(p@),
{
    !p.is_empty() && p.get_char(0) == '/'
}

/// Extends `base` with the segment `rel`.
pub fn join(base: &str, rel: &str) -> (r: String)
    ensures
        r@ == joined(base@, rel@),
{
    if is_absolute(rel) {
        rel.to_owned()
    } else if base.is_empty() {
        rel.to_owned()
    } else {
        let n = base.unicode_len();
        let mut r = base.to_owned();
        if base.get_char(n - 1) != '/' {
            r.append("/");
            proof {
                reveal_strlit("/");
                assert(r@ =~= base@ + seq!['/']);
            }
        }
        r.append(rel);
        proof {
            assert(r@ =~= joined(base@, rel@));
        }
        r
    }
}

} // verus!
