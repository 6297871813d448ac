//! Lexicographic ordering of character sequences: the specification of how
//! string content is compared, an executable comparison over string slices,
//! and the laws that make the comparison a total order.

use vstd::prelude::*;

verus! {

use core::cmp::Ordering;
use vstd::std_specs::iter::IteratorSpec;

/// Lexicographic comparison of two character sequences: the first position
/// where they differ decides by character value, and a proper prefix sorts
/// before every sequence it is a prefix of.
pub open spec fn lex_cmp(a: Seq<char>, b: Seq<char>) -> Ordering
    decreases a.len(),
{
    if a.len() == 0 && b.len() == 0 {
        Ordering::Equal
    } else if a.len() == 0 {
        Ordering::Less
    } else if b.len() == 0 {
        Ordering::Greater
    } else if a[0] < b[0] {
        Ordering::Less
    } else if b[0] < a[0] {
        Ordering::Greater
    } else {
        lex_cmp(a.drop_first(), b.drop_first())
    }
}

/// A character order agrees with the order of the unicode scalar values.
proof fn lemma_char_scalar_order(c1: char, c2: char)
    ensures
        (c1 as u32) < (c2 as u32) <==> c1 < c2,
        (c1 as u32) == (c2 as u32) <==> c1 == c2,
{
}

/// Compare two string slices, returning exactly the lexicographic
/// comparison of their character sequences.
pub fn cmp_str(a: &str, b: &str) -> (r: Ordering)
    ensures
        r == lex_cmp(a@, b@),
{
    let mut ai = a.chars();
    let mut bi = b.chars();
    loop
        invariant
            lex_cmp(a@, b@) == lex_cmp(ai.remaining(), bi.remaining()),
            IteratorSpec::decrease(&ai) is Some,
        decreases IteratorSpec::decrease(&ai)->0,
    {
        let ca = ai.next();
        let cb = bi.next();
        match (ca, cb) {
            (None, None) => {
                return Ordering::Equal;
            },
            (None, Some(_)) => {
                return Ordering::Less;
            },
            (Some(_), None) => {
                return Ordering::Greater;
            },
            (Some(x), Some(y)) => {
                proof {
                    lemma_char_scalar_order(x, y);
                }
                let xu = x as u32;
                let yu = y as u32;
                if xu < yu {
                    assert(x < y);
                    return Ordering::Less;
                }
                if yu < xu {
                    assert(y < x);
                    return Ordering::Greater;
                }
                assert(x == y);
            },
        }
    }
}

/// The comparison reports `Equal` exactly on element-wise equal sequences,
/// so an order-based lookup agrees with content equality.
pub proof fn lemma_lex_cmp_equal_iff(a: Seq<char>, b: Seq<char>)
    ensures
        lex_cmp(a, b) == Ordering::Equal <==> a == b,
    decreases a.len(),
{
    if a.len() == 0 && b.len() == 0 {
        assert(a =~= b);
    } else if a.len() > 0 && b.len() > 0 && a[0] == b[0] {
        lemma_lex_cmp_equal_iff(a.drop_first(), b.drop_first());
        if a.drop_first() == b.drop_first() {
            assert(a.len() == b.len());
            assert forall|i: int| 0 <= i < a.len() implies a[i] == b[i] by {
                if i == 0 {
                    assert(a[0] == b[0]);
                } else {
                    assert(a[i] == a.drop_first()[i - 1]);
                    assert(b[i] == b.drop_first()[i - 1]);
                    assert(a.drop_first()[i - 1] == b.drop_first()[i - 1]);
                }
            }
            assert(a =~= b);
        }
    }
}

/// Antisymmetry: the comparison of `b` against `a` is the exact reverse of
/// the comparison of `a` against `b`.
pub proof fn lemma_lex_cmp_antisymmetric(a: Seq<char>, b: Seq<char>)
    ensures
        lex_cmp(a, b) == Ordering::Less <==> lex_cmp(b, a) == Ordering::Greater,
        lex_cmp(a, b) == Ordering::Equal <==> lex_cmp(b, a) == Ordering::Equal,
    decreases a.len(),
{
    if a.len() > 0 && b.len() > 0 && a[0] == b[0] {
        lemma_lex_cmp_antisymmetric(a.drop_first(), b.drop_first());
    }
}

/// Transitivity: whenever `a` sorts before `b` and `b` before `c`, then `a`
/// sorts before `c`.
pub proof fn lemma_lex_cmp_transitive(a: Seq<char>, b: Seq<char>, c: Seq<char>)
    requires
        lex_cmp(a, b) == Ordering::Less,
        lex_cmp(b, c) == Ordering::Less,
    ensures
        lex_cmp(a, c) == Ordering::Less,
    decreases a.len(),
{
    if a.len() > 0 && b.len() > 0 && c.len() > 0 && a[0] == b[0] && b[0] == c[0] {
        lemma_lex_cmp_transitive(a.drop_first(), b.drop_first(), c.drop_first());
    }
}

} // verus!
