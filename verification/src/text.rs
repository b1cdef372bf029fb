//! Comparisons of strings by their characters.

use vstd::prelude::*;
use vstd::string::StrSliceExecFns;
use vstd::string::StringExecFns;

verus! {

/// Whether `s` begins with `prefix`.
pub open spec fn starts_with(s: Seq<char>, prefix: Seq<char>) -> bool {
    prefix.len() <= s.len() && s.take(prefix.len() as int) == prefix
}

/// Whether `s` begins with `prefix`, character by character.
pub fn has_prefix(s: &str, prefix: &str) -> (r: bool)
    ensures
        r == starts_with(s@, prefix@),
{
    let n = prefix.unicode_len();
    if s.unicode_len() < n {
        return false;
    }
    let mut i: usize = 0;
    while i < n
        invariant
            i <= n,
            n == prefix@.len(),
            n <= s@.len(),
            forall|j: int| 0 <= j < i ==> s@[j] == prefix@[j],
        decreases n - i,
    {
        if s.get_char(i) != prefix.get_char(i) {
            proof {
                assert(s@.take(n as int)[i as int] != prefix@[i as int]);
            }
            return false;
        }
        i = i + 1;
    }
    proof {
        assert(s@.take(n as int) =~= prefix@);
    }
    true
}

/// Whether `a` and `b` hold the same characters.
pub fn same_text(a: &str, b: &str) -> (r: bool)
    ensures
        r == (a@ == b@),
{
    if a.unicode_len() != b.unicode_len() {
        return false;
    }
    let r = has_prefix(a, b);
    proof {
        assert(a@.take(b@.len() as int) =~= a@);
    }
    r
}

/// The first `id_length` characters of `full`, or all of it when it is shorter.
pub open spec fn shortened(full: Seq<char>, id_length: nat) -> Seq<char> {
    if id_length <= full.len() {
        full.take(id_length as int)
    } else {
        full
    }
}

/// Cuts a commit hash or change id down to the configured display length.
pub fn short_id(full: &str, id_length: usize) -> (r: String)
    ensures
        r@ == shortened(full@, id_length as nat),
{
    let len = full.unicode_len();
    let keep = if id_length <= len { id_length } else { len };
    proof {
        assert(full@.subrange(0, keep as int) =~= shortened(full@, id_length as nat));
    }
    String::from_str(full.substring_char(0, keep))
}

} // verus!
