//! Byte-wise comparison of stored forms.
//!
//! Views and buffers compare exactly as their full stored byte runs do,
//! terminator included. Because the terminator is a common fixed suffix and
//! UTF-8 encoding is injective, this order is total and equality coincides
//! with equality of the stored characters.

use core::cmp::Ordering;
use vstd::prelude::*;
use vstd::utf8::encode_utf8;

verus! {

/// Lexicographic order on byte sequences: the order `[u8]` carries in the
/// host language, and the order C's `strcmp` computes on runs that differ
/// before their first nul.
pub open spec fn lex_cmp_bytes(a: Seq<u8>, b: Seq<u8>) -> Ordering
    decreases a.len(),
{
    if a.len() == 0 && b.len() == 0 {
        Ordering::Equal
    } else if a.len() == 0 {
        Ordering::Less
    } else if b.len() == 0 {
        Ordering::Greater
    } else if a.first() < b.first() {
        Ordering::Less
    } else if a.first() > b.first() {
        Ordering::Greater
    } else {
        lex_cmp_bytes(a.drop_first(), b.drop_first())
    }
}

/// Byte sequences compare equal under the lexicographic order exactly when
/// they are equal.
pub proof fn lemma_lex_cmp_equal_iff(a: Seq<u8>, b: Seq<u8>)
    ensures
        lex_cmp_bytes(a, b) == Ordering::Equal <==> a == b,
    decreases a.len(),
{
    if a.len() == 0 && b.len() == 0 {
        assert(a =~= b);
    } else if a.len() == 0 || b.len() == 0 {
    } else if a.first() == b.first() {
        lemma_lex_cmp_equal_iff(a.drop_first(), b.drop_first());
        if a.drop_first() == b.drop_first() {
            assert forall|j: int| 0 <= j < a.len() implies a[j] == b[j] by {
                if j > 0 {
                    assert(a.drop_first()[j - 1] == b.drop_first()[j - 1]);
                }
            }
            assert(a =~= b);
        } else {
            if a == b {
                assert(a.drop_first() =~= b.drop_first());
            }
        }
    } else {
        if a == b {
            assert(a.first() == b.first());
        }
    }
}

/// Character sequences are equal exactly when their UTF-8 encodings are
/// equal: comparing stored bytes is comparing stored text.
pub proof fn lemma_eq_iff_encoded_eq(a: Seq<char>, b: Seq<char>)
    ensures
        (a == b) <==> (encode_utf8(a) == encode_utf8(b)),
{
    if encode_utf8(a) == encode_utf8(b) {
        crate::encoding::lemma_encode_utf8_injective(a, b);
    }
}

/// Compares two byte slices in lexicographic order.
pub fn bytes_cmp(a: &[u8], b: &[u8]) -> (r: Ordering)
    ensures
        r == lex_cmp_bytes(a@, b@),
{
    let mut i: usize = 0;
    proof {
        assert(a@.skip(0) =~= a@);
        assert(b@.skip(0) =~= b@);
    }
    loop
        invariant
            i <= a@.len(),
            i <= b@.len(),
            lex_cmp_bytes(a@, b@) == lex_cmp_bytes(a@.skip(i as int), b@.skip(i as int)),
        decreases a@.len() - i,
    {
        let ghost sa = a@.skip(i as int);
        let ghost sb = b@.skip(i as int);
        if i == a.len() {
            proof {
                assert(sa.len() == 0);
            }
            if i == b.len() {
                proof {
                    assert(sb.len() == 0);
                }
                return Ordering::Equal;
            }
            return Ordering::Less;
        }
        if i == b.len() {
            return Ordering::Greater;
        }
        proof {
            assert(sa.first() == a@[i as int]);
            assert(sb.first() == b@[i as int]);
        }
        if a[i] < b[i] {
            return Ordering::Less;
        }
        if a[i] > b[i] {
            return Ordering::Greater;
        }
        proof {
            assert(sa.drop_first() =~= a@.skip(i as int + 1));
            assert(sb.drop_first() =~= b@.skip(i as int + 1));
        }
        i = i + 1;
    }
}

/// Tests two byte slices for equality.
pub fn bytes_eq(a: &[u8], b: &[u8]) -> (r: bool)
    ensures
        r == (a@ == b@),
{
    if a.len() != b.len() {
        proof {
            if a@ == b@ {
                assert(a@.len() == b@.len());
            }
        }
        return false;
    }
    let mut i: usize = 0;
    while i < a.len()
        invariant
            a@.len() == b@.len(),
            i <= a@.len(),
            forall|j: int| 0 <= j < i ==> a@[j] == b@[j],
        decreases a@.len() - i,
    {
        if a[i] != b[i] {
            proof {
                if a@ == b@ {
                    assert(a@[i as int] == b@[i as int]);
                }
            }
            return false;
        }
        i = i + 1;
    }
    proof {
        assert(a@ =~= b@);
    }
    true
}

} // verus!
