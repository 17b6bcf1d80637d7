//! Bridge lemmas between the character-level view of stored text and its
//! UTF-8 byte encoding.
//!
//! The types of this crate keep their invariant at the character level (the
//! last stored character is `'\0'`), while the promise made to C callers is
//! stated over bytes (the last stored byte is `0x00`, and it is the encoding
//! of that final character). The lemmas here connect the two levels.

use vstd::prelude::*;
use vstd::utf8::char_is_scalar;
use vstd::utf8::encode_scalar;
use vstd::utf8::encode_utf8;
use vstd::utf8::has_width_1_encoding;
use vstd::utf8::is_scalar;
use vstd::utf8::leading_byte_width_1;

verus! {

/// A single character encodes to at least one byte.
pub proof fn lemma_encode_scalar_len(v: u32)
    requires
        is_scalar(v),
    ensures
        1 <= encode_scalar(v).len() <= 4,
{
}

/// The nul character encodes to exactly the single nul byte.
pub proof fn lemma_encode_scalar_nul()
    ensures
        encode_scalar('\0' as u32) == seq![0u8],
{
    assert('\0' as u32 == 0);
    assert((0u32 & 0x7F) as u8 == 0u8) by (bit_vector);
    assert(encode_scalar(0u32) =~= seq![0u8]);
}

/// UTF-8 encoding distributes over concatenation of character sequences.
pub proof fn lemma_encode_utf8_concat(a: Seq<char>, b: Seq<char>)
    ensures
        encode_utf8(a + b) == encode_utf8(a) + encode_utf8(b),
    decreases a.len(),
{
    if a.len() == 0 {
        assert(a + b =~= b);
        assert(encode_utf8(a) =~= Seq::<u8>::empty());
        assert(encode_utf8(a) + encode_utf8(b) =~= encode_utf8(b));
    } else {
        assert((a + b).len() > 0);
        assert((a + b)[0] == a[0]);
        assert((a + b).drop_first() =~= a.drop_first() + b);
        lemma_encode_utf8_concat(a.drop_first(), b);
        assert(encode_utf8(a + b) =~= encode_scalar(a[0] as u32) + (encode_utf8(a.drop_first())
            + encode_utf8(b)));
        assert(encode_scalar(a[0] as u32) + (encode_utf8(a.drop_first()) + encode_utf8(b))
            =~= (encode_scalar(a[0] as u32) + encode_utf8(a.drop_first())) + encode_utf8(b));
        assert(encode_utf8(a) =~= encode_scalar(a[0] as u32) + encode_utf8(a.drop_first()));
    }
}

/// The encoding of a character sequence is at least as long as the sequence,
/// and is empty exactly when the sequence is empty.
pub proof fn lemma_encode_utf8_len(s: Seq<char>)
    ensures
        encode_utf8(s).len() >= s.len(),
        encode_utf8(s).len() == 0 <==> s.len() == 0,
    decreases s.len(),
{
    if s.len() > 0 {
        char_is_scalar(s[0]);
        lemma_encode_scalar_len(s[0] as u32);
        lemma_encode_utf8_len(s.drop_first());
    }
}

/// A character sequence ends in the nul character exactly when its UTF-8
/// encoding ends in the nul byte.
pub proof fn lemma_nul_terminated_iff_last_byte_nul(s: Seq<char>)
    ensures
        crate::nul_terminated_chars(s) <==> (encode_utf8(s).len() >= 1 && encode_utf8(s).last()
            == 0u8),
{
    if s.len() == 0 {
        lemma_encode_utf8_len(s);
    } else {
        let head = s.drop_last();
        let tail = seq![s.last()];
        assert(s =~= head + tail);
        lemma_encode_utf8_concat(head, tail);
        assert(encode_utf8(tail) =~= encode_scalar(s.last() as u32) + encode_utf8(
            tail.drop_first(),
        ));
        assert(tail.drop_first() =~= Seq::<char>::empty());
        assert(encode_utf8(tail) =~= encode_scalar(s.last() as u32));
        char_is_scalar(s.last());
        lemma_encode_scalar_len(s.last() as u32);
        assert(encode_utf8(s).last() == encode_scalar(s.last() as u32).last());
        lemma_last_encoded_byte_nul_iff_nul_char(s.last());
    }
}

/// The stored bytes of nul-terminated text are the encoded content followed
/// by exactly one nul byte: the wire-level form handed to C callers.
pub proof fn lemma_stored_bytes_split(s: Seq<char>)
    requires
        crate::nul_terminated_chars(s),
    ensures
        encode_utf8(s) == encode_utf8(crate::content_of(s)) + seq![0u8],
{
    let content = crate::content_of(s);
    assert(s =~= content + seq!['\0']);
    lemma_encode_utf8_concat(content, seq!['\0']);
    assert(encode_utf8(seq!['\0']) =~= encode_scalar('\0' as u32) + encode_utf8(
        seq!['\0'].drop_first(),
    ));
    assert(seq!['\0'].drop_first() =~= Seq::<char>::empty());
    lemma_encode_scalar_nul();
    assert(encode_utf8(seq!['\0']) =~= seq![0u8]);
}

/// Content and terminator reconstruct the stored form: appending the nul
/// terminator to the content of nul-terminated text gives back the text.
/// In particular, appending empty content to a buffer leaves its stored
/// form unchanged.
pub proof fn lemma_stored_reconstruction(s: Seq<char>)
    requires
        crate::nul_terminated_chars(s),
    ensures
        crate::content_of(s) + seq!['\0'] == s,
{
    assert(crate::content_of(s) + seq!['\0'] =~= s);
}

/// Any text `t` holding no nul character becomes a valid stored form once
/// the terminator is appended: the stored characters end in the nul, the
/// content is exactly `t`, the stored bytes are the encoding of `t`
/// followed by the single terminator byte, and no byte before the
/// terminator is nul.
pub proof fn lemma_text_with_terminator(t: Seq<char>)
    requires
        forall|i: int| 0 <= i < t.len() ==> t[i] != '\0',
    ensures
        crate::nul_terminated_chars(t + seq!['\0']),
        crate::content_of(t + seq!['\0']) == t,
        encode_utf8(t + seq!['\0']) == encode_utf8(t) + seq![0u8],
        forall|i: int| 0 <= i < encode_utf8(t).len() ==> encode_utf8(t)[i] != 0u8,
{
    let s = t + seq!['\0'];
    assert(s.last() == '\0');
    assert(crate::content_of(s) =~= t);
    lemma_stored_bytes_split(s);
    lemma_no_interior_nul(t);
}

/// Round trip: promoting a view to an owned buffer and consuming that
/// buffer back into plain text recovers exactly the view's content. The
/// promotion preserves the stored characters and the consumption drops only
/// the terminator.
pub proof fn lemma_owned_roundtrip(view: Seq<char>, buffer: Seq<char>, text: Seq<char>)
    requires
        crate::nul_terminated_chars(view),
        buffer == view,
        text == crate::content_of(buffer),
    ensures
        text == crate::content_of(view),
        text + seq!['\0'] == view,
{
    lemma_stored_reconstruction(view);
}

/// UTF-8 encoding is injective: equal encodings come from equal character
/// sequences.
pub proof fn lemma_encode_utf8_injective(a: Seq<char>, b: Seq<char>)
    requires
        encode_utf8(a) == encode_utf8(b),
    ensures
        a == b,
{
    vstd::utf8::encode_utf8_decode_utf8(a);
    vstd::utf8::encode_utf8_decode_utf8(b);
}

/// For nul-terminated text these three statements coincide: the stored byte
/// form has length one, the content is empty, and the stored character
/// sequence is the terminator alone.
pub proof fn lemma_emptiness_equivalence(s: Seq<char>)
    requires
        crate::nul_terminated_chars(s),
    ensures
        encode_utf8(s).len() == 1 <==> crate::content_of(s).len() == 0,
        crate::content_of(s).len() == 0 <==> s.len() == 1,
{
    lemma_stored_bytes_split(s);
    lemma_encode_utf8_len(crate::content_of(s));
}

/// Content that holds no nul character encodes to bytes that hold no nul
/// byte: a C caller reading up to the first nul sees the whole content.
pub proof fn lemma_no_interior_nul(s: Seq<char>)
    requires
        forall|i: int| 0 <= i < s.len() ==> s[i] != '\0',
    ensures
        forall|i: int| 0 <= i < encode_utf8(s).len() ==> encode_utf8(s)[i] != 0u8,
    decreases s.len(),
{
    if s.len() > 0 {
        char_is_scalar(s[0]);
        let v = s[0] as u32;
        let head = encode_scalar(v);
        assert(forall|i: int| 0 <= i < head.len() ==> head[i] != 0u8) by {
            lemma_encode_scalar_no_nul(s[0]);
        }
        assert(forall|i: int| 0 <= i < s.drop_first().len() ==> s.drop_first()[i] != '\0');
        lemma_no_interior_nul(s.drop_first());
        assert(encode_utf8(s) =~= head + encode_utf8(s.drop_first()));
    }
}

/// No byte in the encoding of a character other than nul is the nul byte.
proof fn lemma_encode_scalar_no_nul(c: char)
    ensures
        c != '\0' ==> forall|i: int|
            0 <= i < encode_scalar(c as u32).len() ==> #[trigger] encode_scalar(c as u32)[i]
                != 0u8,
{
    char_is_scalar(c);
    let v = c as u32;
    if c != '\0' {
        assert(v != 0) by {
            if v == 0 {
                vstd::utf8::char_u32_cast(c, v);
                assert('\0' as u32 == 0);
                vstd::utf8::char_u32_cast('\0', 0);
            }
        }
        if has_width_1_encoding(v) {
            assert((v & 0x7F) as u8 != 0) by (bit_vector)
                requires
                    v != 0 && v <= 0x7F,
            ;
        } else {
            assert(0xC0u8 | (((v >> 6) & 0x1F) as u8) != 0) by (bit_vector);
            assert(0xE0u8 | (((v >> 12) & 0x0F) as u8) != 0) by (bit_vector);
            assert(0xF0u8 | (((v >> 18) & 0x7) as u8) != 0) by (bit_vector);
            assert(0x80u8 | ((v & 0x3F) as u8) != 0) by (bit_vector);
            assert(0x80u8 | (((v >> 6) & 0x3F) as u8) != 0) by (bit_vector);
            assert(0x80u8 | (((v >> 12) & 0x3F) as u8) != 0) by (bit_vector);
        }
    }
}

/// The last byte of a single character's encoding is nul exactly when the
/// character itself is nul.
proof fn lemma_last_encoded_byte_nul_iff_nul_char(c: char)
    ensures
        encode_scalar(c as u32).last() == 0u8 <==> c == '\0',
{
    char_is_scalar(c);
    let v = c as u32;
    if c == '\0' {
        lemma_encode_scalar_nul();
    } else {
        assert(v != 0) by {
            if v == 0 {
                vstd::utf8::char_u32_cast(c, v);
                assert('\0' as u32 == 0);
                vstd::utf8::char_u32_cast('\0', 0);
            }
        }
        if has_width_1_encoding(v) {
            assert(encode_scalar(v).last() == leading_byte_width_1(v));
            assert((v & 0x7F) as u8 != 0) by (bit_vector)
                requires
                    v != 0 && v <= 0x7F,
            ;
        } else {
            assert(encode_scalar(v).last() == vstd::utf8::last_continuation_byte(v));
            assert(0x80u8 | ((v & 0x3F) as u8) != 0) by (bit_vector);
        }
    }
}

} // verus!
