//! Lexicographic order of strings by character, the order `String`'s `Ord`
//! gives (UTF-8 keeps code point order).
use vstd::prelude::*;
use crate::sdk_core::text::str_chars;

verus! {

/// Whether `a` sorts before `b`, comparing from position `i` on.
pub open spec fn lex_lt_from(a: Seq<char>, b: Seq<char>, i: nat) -> bool
    decreases a.len() - i,
{
    if i >= a.len() {
        i < b.len()
    } else if i >= b.len() {
        false
    } else if a[i as int] != b[i as int] {
        (a[i as int] as int) < (b[i as int] as int)
    } else {
        lex_lt_from(a, b, i + 1)
    }
}

/// Whether `a` sorts strictly before `b`.
pub open spec fn lex_lt(a: Seq<char>, b: Seq<char>) -> bool {
    lex_lt_from(a, b, 0)
}

/// No string sorts before itself.
pub proof fn lemma_lex_irreflexive(a: Seq<char>, i: nat)
    ensures
        !lex_lt_from(a, a, i),
    decreases a.len() - i,
{
    if i < a.len() {
        lemma_lex_irreflexive(a, i + 1);
    }
}

/// Two strings that agree before `i` and differ are ordered one way or the
/// other from `i` on.
pub proof fn lemma_lex_total(a: Seq<char>, b: Seq<char>, i: nat)
    requires
        i <= a.len(),
        i <= b.len(),
        forall|j: int| 0 <= j < i ==> a[j] == b[j],
        a != b,
    ensures
        lex_lt_from(a, b, i) || lex_lt_from(b, a, i),
    decreases a.len() - i,
{
    if i >= a.len() && i >= b.len() {
        assert(a =~= b);
    } else if i < a.len() && i < b.len() && a[i as int] == b[i as int] {
        lemma_lex_total(a, b, i + 1);
    } else if i < a.len() && i < b.len() {
        assert((a[i as int] as int) != (b[i as int] as int));
    }
}

/// Neither of two strings sorts before the other both ways.
pub proof fn lemma_lex_asymmetric(a: Seq<char>, b: Seq<char>, i: nat)
    requires
        lex_lt_from(a, b, i),
    ensures
        !lex_lt_from(b, a, i),
    decreases a.len() - i,
{
    if i < a.len() && i < b.len() && a[i as int] == b[i as int] {
        lemma_lex_asymmetric(a, b, i + 1);
    }
}

/// The order is transitive.
pub proof fn lemma_lex_transitive(a: Seq<char>, b: Seq<char>, c: Seq<char>, i: nat)
    requires
        lex_lt_from(a, b, i),
        lex_lt_from(b, c, i),
    ensures
        lex_lt_from(a, c, i),
    decreases a.len() - i,
{
    if i < a.len() && i < b.len() && i < c.len() && a[i as int] == b[i as int] && b[i as int]
        == c[i as int] {
        lemma_lex_transitive(a, b, c, i + 1);
    }
}

/// Whether `a` sorts strictly before `b`.
pub fn str_lt(a: &str, b: &str) -> (r: bool)
    ensures
        r == lex_lt(a@, b@),
{
    let va = str_chars(a);
    let vb = str_chars(b);
    let mut i: usize = 0;
    while i < va.len() && i < vb.len()
        invariant
            va@ == a@,
            vb@ == b@,
            i <= va.len(),
            i <= vb.len(),
            lex_lt(a@, b@) == lex_lt_from(a@, b@, i as nat),
        decreases va.len() - i,
    {
        if va[i] != vb[i] {
            return va[i] < vb[i];
        }
        i = i + 1;
    }
    i < vb.len()
}

} // verus!
