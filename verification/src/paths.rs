use crate::csv_format::push_char;
use vstd::prelude::*;
use vstd::string::StrSliceExecFns;

verus! {

/// The canonical form of a walker-produced path: the forward slash is
/// the one separator, so every backslash becomes a forward slash and
/// all other characters are kept.
pub open spec fn normalize_spec(s: Seq<char>) -> Seq<char> {
    s.map_values(|c: char| if c == '\\' { '/' } else { c })
}

/// Rewrites a path to its canonical separator form.
pub fn normalize_path(p: &str) -> (r: String)
    ensures
        r@ == normalize_spec(p@),
{
    let n = p.unicode_len();
    let mut out = String::new();
    let mut i: usize = 0;
    while i < n
        invariant
            n == p@.len(),
            i <= n,
            out@.len() == i,
            forall|j: int| 0 <= j < i ==> out@[j] == (if p@[j] == '\\' { '/' } else { p@[j] }),
        decreases n - i,
    {
        let c = p.get_char(i);
        if c == '\\' {
            push_char(&mut out, '/');
        } else {
            push_char(&mut out, c);
        }
        i += 1;
    }
    proof {
        assert(out@ =~= normalize_spec(p@));
    }
    out
}

/// Normalization is idempotent: a path already in canonical form is
/// left unchanged, so repeated runs print every path the same way.
pub proof fn lemma_normalize_idempotent(s: Seq<char>)
    ensures
        normalize_spec(normalize_spec(s)) == normalize_spec(s),
{
    assert(normalize_spec(normalize_spec(s)) =~= normalize_spec(s));
}

} // verus!
