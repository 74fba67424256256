use vstd::prelude::*;
use vstd::string::{StrSliceExecFns, StringExecFns};

verus! {

/// A character with `-` replaced by `_`.
pub open spec fn normalized_char(c: char) -> char {
    if c == '-' {
        '_'
    } else {
        c
    }
}

/// A crate name with every `-` replaced by `_`.
pub open spec fn normalized(s: Seq<char>) -> Seq<char> {
    s.map_values(|c: char| normalized_char(c))
}

/// Two crate names denote the same crate when their normalized forms agree.
pub open spec fn names_match(a: Seq<char>, b: Seq<char>) -> bool {
    normalized(a) == normalized(b)
}

/// Normalizes a crate name: replaces every `-` with `_`.
pub fn normalize(crate_name: &str) -> (r: String)
    ensures
        r@ == normalized(crate_name@),
{
    let n = crate_name.unicode_len();
    let mut r = String::new();
    let mut i: usize = 0;
    while i < n
        invariant
            n == crate_name@.len(),
            i <= n,
            r@ == normalized(crate_name@.subrange(0, i as int)),
        decreases n - i,
    {
        let c = crate_name.get_char(i);
        if c == '-' {
            r.append("_");
        } else {
            r.append(crate_name.substring_char(i, i + 1));
        }
        proof {
            reveal_strlit("_");
            assert(crate_name@.subrange(0, i + 1) =~= crate_name@.subrange(0, i as int).push(c));
            assert(normalized(crate_name@.subrange(0, i as int).push(c)) =~= normalized(
                crate_name@.subrange(0, i as int),
            ).push(normalized_char(c)));
        }
        i = i + 1;
    }
    assert(crate_name@.subrange(0, n as int) =~= crate_name@);
    r
}

/// Whether two crate names match under normalization.
pub fn crate_names_match(a: &str, b: &str) -> (r: bool)
    ensures
        r == names_match(a@, b@),
{
    let na = normalize(a);
    let nb = normalize(b);
    na == nb
}

/// Hyphens and underscores are interchangeable when matching crate names:
/// two names that agree at every position, up to swapping `-` for `_`,
/// match; and every name matches its normalized form.
pub proof fn lemma_hyphen_underscore_insensitive(a: Seq<char>, b: Seq<char>)
    requires
        a.len() == b.len(),
        forall|i: int|
            0 <= i < a.len() ==> (#[trigger] a[i] == b[i] || (a[i] == '-' && b[i] == '_') || (
            a[i] == '_' && b[i] == '-')),
    ensures
        names_match(a, b),
        names_match(a, normalized(a)),
{
    assert(normalized(a) =~= normalized(b));
    assert(normalized(normalized(a)) =~= normalized(a));
}

} // verus!
