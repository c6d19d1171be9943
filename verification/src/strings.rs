//! Verified string helpers: equality, the alias grammar's scheme
//! separator, and path joining for resolved locations.

use vstd::prelude::*;

verus! {

/// Character-wise string equality.
pub fn str_eq(a: &str, b: &str) -> (r: bool)
    ensures
        r == (a@ == b@),
{
    let na = a.unicode_len();
    let nb = b.unicode_len();
    if na != nb {
        proof {
            assert(a@ != b@);
        }
        return false;
    }
    let mut idx: usize = 0;
    while idx < na
        invariant
            na == a@.len(),
            nb == b@.len(),
            na == nb,
            0 <= idx <= na,
            forall|j: int| 0 <= j < idx ==> a@[j] == b@[j],
        decreases na - idx,
    {
        if a.get_char(idx) != b.get_char(idx) {
            proof {
                assert(a@ != b@);
            }
            return false;
        }
        idx += 1;
    }
    proof {
        assert(a@ =~= b@);
    }
    true
}

/// The index of the first separator, or the length when there is
/// none.
pub open spec fn colon_idx(s: Seq<char>) -> int
    decreases s.len(),
{
    if s.len() == 0 {
        0
    } else if s[0] == ':' {
        0
    } else {
        1 + colon_idx(s.skip(1))
    }
}

/// What `colon_idx` finds: the first separator when one exists, the
/// length otherwise.
pub proof fn lemma_colon_idx(s: Seq<char>)
    ensures
        0 <= colon_idx(s) <= s.len(),
        forall|j: int| 0 <= j < colon_idx(s) ==> s[j] != ':',
        colon_idx(s) < s.len() ==> s[colon_idx(s)] == ':',
    decreases s.len(),
{
    if s.len() == 0 {
    } else if s[0] == ':' {
    } else {
        lemma_colon_idx(s.skip(1));
        assert forall|j: int| 0 <= j < colon_idx(s) implies s[j] != ':' by {
            if j > 0 {
                assert(s.skip(1)[j - 1] != ':');
            }
        }
        if colon_idx(s) < s.len() {
            assert(s[colon_idx(s)] == s.skip(1)[colon_idx(s.skip(1))]);
        }
    }
}

/// Whether the string holds a scheme separator at all.
pub open spec fn has_separator(s: Seq<char>) -> bool {
    colon_idx(s) < s.len()
}

/// The scheme: everything before the first separator.
pub open spec fn spec_scheme(s: Seq<char>) -> Seq<char> {
    s.take(colon_idx(s))
}

/// The path part: everything after the first separator.
pub open spec fn spec_path_part(s: Seq<char>) -> Seq<char> {
    s.skip(colon_idx(s) + 1)
}

/// The index of the first separator, if any.
pub fn find_separator(s: &str) -> (r: Option<usize>)
    ensures
        r matches Some(i) ==> has_separator(s@) && i == colon_idx(s@),
        r is None ==> !has_separator(s@),
{
    proof {
        lemma_colon_idx(s@);
    }
    let n = s.unicode_len();
    let mut idx: usize = 0;
    while idx < n
        invariant
            n == s@.len(),
            0 <= idx <= n,
            forall|j: int| 0 <= j < idx ==> s@[j] != ':',
        decreases n - idx,
    {
        if s.get_char(idx) == ':' {
            proof {
                lemma_colon_idx(s@);
                if colon_idx(s@) < idx {
                    assert(s@[colon_idx(s@)] == ':');
                }
                if colon_idx(s@) > idx {
                    assert(s@[idx as int] != ':');
                }
            }
            return Some(idx);
        }
        idx += 1;
    }
    proof {
        lemma_colon_idx(s@);
        if colon_idx(s@) < s@.len() {
            assert(s@[colon_idx(s@)] == ':');
        }
    }
    None
}

/// Joining a base directory and a relative part with a separator; an
/// absolute part stands alone.
pub open spec fn spec_join(base: Seq<char>, part: Seq<char>) -> Seq<char> {
    if part.len() > 0 && part[0] == '/' {
        part
    } else if base.len() > 0 && base[base.len() - 1] == '/' {
        base + part
    } else {
        base + seq!['/'] + part
    }
}

/// Joins a base directory and a path part.
pub fn join_path(base: &str, part: &str) -> (r: String)
    ensures
        r@ == spec_join(base@, part@),
{
    let np = part.unicode_len();
    if np > 0 && part.get_char(0) == '/' {
        return part.to_owned();
    }
    let nb = base.unicode_len();
    let mut out = base.to_owned();
    if !(nb > 0 && base.get_char(nb - 1) == '/') {
        out.append("/");
        proof {
            reveal_strlit("/");
            assert(out@ =~= base@ + seq!['/']);
        }
    }
    out.append(part);
    proof {
        assert(out@ =~= spec_join(base@, part@));
    }
    out
}

/// The location a path part resolves to: the in-memory marker stands
/// for itself, anything else is joined onto the base directory.
pub open spec fn spec_location(part: Seq<char>, base: Seq<char>) -> Seq<char> {
    if part == ":memory:"@ {
        ":memory:"@
    } else {
        spec_join(base, part)
    }
}

/// Resolves a path part against the base directory.
pub fn resolve_path(part: &str, base: &str) -> (r: String)
    ensures
        r@ == spec_location(part@, base@),
{
    if str_eq(part, ":memory:") {
        part.to_owned()
    } else {
        join_path(base, part)
    }
}

} // verus!
