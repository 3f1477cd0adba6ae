//! The order of strings: lexicographic by their bytes, which for text is the
//! order of its UTF-8 encoding.

use std::cmp::Ordering;
use vstd::prelude::*;

verus! {

/// Whether `a` comes before `b`: at the first place where they differ `a` has
/// the smaller byte, or `a` ends there and `b` goes on.
pub open spec fn lex_less(a: Seq<u8>, b: Seq<u8>) -> bool
    decreases a.len(),
{
    if b.len() == 0 {
        false
    } else if a.len() == 0 {
        true
    } else if a[0] != b[0] {
        a[0] < b[0]
    } else {
        lex_less(a.drop_first(), b.drop_first())
    }
}

/// How `a` stands to `b` in the lexicographic order.
pub open spec fn lex_order(a: Seq<u8>, b: Seq<u8>) -> Ordering {
    if a == b {
        Ordering::Equal
    } else if lex_less(a, b) {
        Ordering::Less
    } else {
        Ordering::Greater
    }
}

/// The order is strict: no string comes before itself, and of two strings at most
/// one comes before the other.
pub proof fn lemma_less_is_strict(a: Seq<u8>, b: Seq<u8>)
    ensures
        !lex_less(a, a),
        !(lex_less(a, b) && lex_less(b, a)),
    decreases a.len(),
{
    if a.len() > 0 {
        lemma_less_is_strict(a.drop_first(), a.drop_first());
        if b.len() > 0 {
            lemma_less_is_strict(a.drop_first(), b.drop_first());
        }
    }
}

/// The order is total: of two different strings one comes before the other.
pub proof fn lemma_less_is_total(a: Seq<u8>, b: Seq<u8>)
    ensures
        a != b ==> lex_less(a, b) || lex_less(b, a),
    decreases a.len(),
{
    if a.len() > 0 && b.len() > 0 && a[0] == b[0] {
        lemma_less_is_total(a.drop_first(), b.drop_first());
        if a.drop_first() == b.drop_first() {
            assert(a =~= seq![a[0]] + a.drop_first());
            assert(b =~= seq![b[0]] + b.drop_first());
        }
    } else if a.len() == 0 && b.len() == 0 {
        assert(a =~= b);
    }
}

/// The order is transitive.
pub proof fn lemma_less_is_transitive(a: Seq<u8>, b: Seq<u8>, c: Seq<u8>)
    requires
        lex_less(a, b),
        lex_less(b, c),
    ensures
        lex_less(a, c),
    decreases a.len(),
{
    if a.len() > 0 && b.len() > 0 && c.len() > 0 && a[0] == b[0] && b[0] == c[0] {
        lemma_less_is_transitive(a.drop_first(), b.drop_first(), c.drop_first());
    }
}

/// Whether `n` is the length of the longest common prefix of `a` and `b`.
pub open spec fn is_common_prefix(a: Seq<u8>, b: Seq<u8>, n: usize) -> bool {
    &&& n <= a.len()
    &&& n <= b.len()
    &&& forall|k: int| 0 <= k < n ==> a[k] == b[k]
    &&& n < a.len() && n < b.len() ==> a[n as int] != b[n as int]
}

/// The byte of `s` at `n`.
pub open spec fn byte_at(s: Seq<u8>, n: usize) -> u8 {
    s[n as int]
}

/// After their longest common prefix two strings are equal if both end, and
/// else ordered by which of them ends or by their bytes at that place.
pub proof fn lemma_order_after_prefix(a: Seq<u8>, b: Seq<u8>, n: usize)
    requires
        is_common_prefix(a, b, n),
    ensures
        n == a.len() && n == b.len() ==> a == b,
        n < a.len() || n < b.len() ==> a != b,
        n == b.len() ==> !lex_less(a, b),
        n == a.len() && n < b.len() ==> lex_less(a, b),
        n < a.len() && n < b.len() ==> lex_less(a, b) == (byte_at(a, n) < byte_at(b, n)),
    decreases n,
{
    if n == a.len() && n == b.len() {
        assert(a =~= b);
    }
    if n > 0 {
        let m = (n - 1) as usize;
        assert(is_common_prefix(a.drop_first(), b.drop_first(), m)) by {
            assert forall|k: int| 0 <= k < m implies a.drop_first()[k] == b.drop_first()[k] by {
                assert(a.drop_first()[k] == a[k + 1]);
                assert(b.drop_first()[k] == b[k + 1]);
            }
        }
        lemma_order_after_prefix(a.drop_first(), b.drop_first(), m);
        assert(a[0] == b[0]);
        assert(byte_at(a.drop_first(), m) == byte_at(a, n) || n >= a.len());
        assert(byte_at(b.drop_first(), m) == byte_at(b, n) || n >= b.len());
    }
}

/// The length of the longest common prefix of `a` and `b`.
pub fn common_prefix(a: &[u8], b: &[u8]) -> (n: usize)
    ensures
        is_common_prefix(a@, b@, n),
{
    let mut i: usize = 0;
    while i < a.len() && i < b.len() && a[i] == b[i]
        invariant
            i <= a@.len(),
            i <= b@.len(),
            forall|k: int| 0 <= k < i ==> a@[k] == b@[k],
        decreases a@.len() - i,
    {
        i += 1;
    }
    i
}

/// How `a` stands to `b` in the lexicographic order.
pub fn bytes_order(a: &[u8], b: &[u8]) -> (order: Ordering)
    ensures
        order == lex_order(a@, b@),
{
    let n = common_prefix(a, b);
    proof {
        lemma_order_after_prefix(a@, b@, n);
    }
    if n == b.len() {
        if n == a.len() {
            Ordering::Equal
        } else {
            Ordering::Greater
        }
    } else if n == a.len() {
        Ordering::Less
    } else if a[n] < b[n] {
        Ordering::Less
    } else {
        Ordering::Greater
    }
}

/// How the text `a` stands to the text `b`: as their UTF-8 encodings do.
pub fn str_order(a: &str, b: &str) -> (order: Ordering)
    ensures
        order == lex_order(vstd::utf8::encode_utf8(a@), vstd::utf8::encode_utf8(b@)),
{
    bytes_order(a.as_bytes(), b.as_bytes())
}

} // verus!
