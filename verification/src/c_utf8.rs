//! The borrowed view over nul-terminated UTF-8 text.

use core::cmp::Ordering;
use vstd::prelude::*;
use vstd::string::StringSliceAdditionalSpecFns;
use vstd::utf8::decode_utf8;
use vstd::utf8::encode_utf8;
use vstd::utf8::valid_utf8;

use crate::error::Error;
use crate::error::Utf8Error;
use crate::ext::Ext;

verus! {

/// A borrowed view over text that is valid UTF-8 and whose last character is
/// a single nul terminator.
///
/// The view never owns its memory: it is a read-only lens over a string
/// literal, a [`crate::CUtf8Buf`], or other borrowed storage. Its view (`@`)
/// is the full stored character sequence, terminator included.
#[derive(Clone, Copy, Debug, Hash)]
pub struct CUtf8<'a> {
    inner: &'a str,
}

impl<'a> View for CUtf8<'a> {
    type V = Seq<char>;

    closed spec fn view(&self) -> Seq<char> {
        self.inner@
    }
}

impl<'a> CUtf8<'a> {
    /// The dual invariant at the character level: the stored text ends in
    /// the nul terminator. UTF-8 validity of the stored bytes is carried by
    /// the `str` type itself.
    pub open spec fn wf(&self) -> bool {
        crate::nul_terminated_chars(self@)
    }

    /// The stored bytes, terminator included: what a C caller would read.
    pub open spec fn stored_bytes(&self) -> Seq<u8> {
        encode_utf8(self@)
    }

    /// The content characters: everything before the trailing terminator.
    pub open spec fn content(&self) -> Seq<char> {
        crate::content_of(self@)
    }

    /// Returns the view of a UTF-8 string already known to end in a nul
    /// terminator, without checking.
    pub fn from_str_unchecked(s: &'a str) -> (r: CUtf8<'a>)
        requires
            crate::nul_terminated_chars(s@),
        ensures
            r@ == s@,
            r.wf(),
    {
        CUtf8 { inner: s }
    }

    /// Returns a view of byte storage already known to be valid UTF-8 ending
    /// in a nul terminator, without checking the terminator's position.
    pub fn from_bytes_unchecked(bytes: &'a [u8]) -> (r: CUtf8<'a>)
        requires
            valid_utf8(bytes@),
            bytes@.len() >= 1,
            bytes@.last() == 0u8,
        ensures
            r@ == decode_utf8(bytes@),
            r.stored_bytes() == bytes@,
            r.wf(),
    {
        match str_from_utf8(bytes) {
            Ok(s) => {
                proof {
                    vstd::utf8::encode_utf8_decode_utf8(s@);
                    crate::encoding::lemma_nul_terminated_iff_last_byte_nul(s@);
                }
                CUtf8 { inner: s }
            },
            Err(_) => vstd::pervasive::unreached(),
        }
    }

    /// Returns the view of the given text if it ends in a nul terminator,
    /// and reports a terminator failure otherwise.
    ///
    /// Only the final character is checked: text holding a nul before the
    /// end is accepted, though C consumers of the stored bytes will read
    /// only up to the first nul.
    pub fn from_str(s: &'a str) -> (r: Result<CUtf8<'a>, Error>)
        ensures
            match r {
                Ok(v) => crate::nul_terminated_chars(s@) && v@ == s@ && v.wf(),
                Err(e) => !crate::nul_terminated_chars(s@) && e is Nul,
            },
    {
        if s.is_nul_terminated() {
            Ok(CUtf8 { inner: s })
        } else {
            Err(Error::Nul)
        }
    }

    /// Returns the view of the given bytes if they decode as UTF-8 and end
    /// in a nul terminator.
    ///
    /// Decoding is checked first: input that is both mis-encoded and missing
    /// its terminator reports the encoding failure.
    pub fn from_bytes(bytes: &'a [u8]) -> (r: Result<CUtf8<'a>, Error>)
        ensures
            match r {
                Ok(v) => {
                    &&& valid_utf8(bytes@)
                    &&& bytes@.len() >= 1
                    &&& bytes@.last() == 0u8
                    &&& v@ == decode_utf8(bytes@)
                    &&& v.stored_bytes() == bytes@
                    &&& v.wf()
                },
                Err(e) => match e {
                    Error::Nul => valid_utf8(bytes@) && !(bytes@.len() >= 1 && bytes@.last()
                        == 0u8),
                    Error::Utf8(u) => {
                        &&& !valid_utf8(bytes@)
                        &&& u.valid_up_to <= bytes@.len()
                        &&& valid_utf8(bytes@.subrange(0, u.valid_up_to as int))
                    },
                },
            },
    {
        match str_from_utf8(bytes) {
            Ok(s) => {
                proof {
                    vstd::utf8::encode_utf8_decode_utf8(s@);
                    crate::encoding::lemma_nul_terminated_iff_last_byte_nul(s@);
                }
                match CUtf8::from_str(s) {
                    Ok(v) => Ok(v),
                    Err(_) => Err(Error::Nul),
                }
            },
            Err(u) => Err(Error::Utf8(u)),
        }
    }

    /// The canonical empty string: a single nul terminator and no content.
    pub fn empty() -> (r: CUtf8<'static>)
        ensures
            r.wf(),
            r@ == seq!['\0'],
            r.content() == Seq::<char>::empty(),
            r.stored_bytes() == seq![0u8],
    {
        proof {
            reveal_strlit("\0");
            assert(("\0")@ =~= seq!['\0']);
            assert(crate::content_of(seq!['\0']) =~= Seq::<char>::empty());
            crate::encoding::lemma_stored_bytes_split(seq!['\0']);
            assert(encode_utf8(Seq::<char>::empty()) =~= Seq::<u8>::empty());
            assert(encode_utf8(seq!['\0']) =~= seq![0u8]);
        }
        CUtf8 { inner: "\0" }
    }

    /// The number of content bytes, not counting the trailing nul.
    pub fn len(&self) -> (r: usize)
        requires
            self.wf(),
        ensures
            r == self.stored_bytes().len() - 1,
            r == encode_utf8(self.content()).len(),
    {
        proof {
            crate::encoding::lemma_stored_bytes_split(self@);
        }
        self.inner.as_bytes().len() - 1
    }

    /// True when there is no content at all: the stored form is exactly the
    /// single nul terminator.
    pub fn is_empty(&self) -> (r: bool)
        requires
            self.wf(),
        ensures
            r <==> self.stored_bytes().len() == 1,
            r <==> self.content().len() == 0,
            r <==> self@.len() == 1,
    {
        proof {
            crate::encoding::lemma_emptiness_equivalence(self@);
        }
        self.inner.as_bytes().len() == 1
    }

    /// Returns the content text, without the trailing nul.
    pub fn as_str(&self) -> (r: &'a str)
        requires
            self.wf(),
        ensures
            r@ == self.content(),
            r.spec_bytes() == encode_utf8(self.content()),
    {
        proof {
            crate::encoding::lemma_stored_bytes_split(self@);
            vstd::utf8::encode_utf8_valid_utf8(self@);
            let bytes = self.inner.spec_bytes();
            let n = bytes.len() - 1;
            assert(bytes[n] == 0u8);
            vstd::utf8::is_char_boundary_iff_not_is_continuation_byte(bytes, n);
        }
        let n = self.inner.as_bytes().len() - 1;
        let (head, _tail) = self.inner.split_at(n);
        proof {
            assert(head.spec_bytes() =~= encode_utf8(self.content()));
            crate::encoding::lemma_encode_utf8_injective(head@, self.content());
        }
        head
    }

    /// Returns the whole stored text, trailing nul included.
    pub fn as_str_with_nul(&self) -> (r: &'a str)
        ensures
            r@ == self@,
    {
        self.inner
    }

    /// Returns the content bytes, without the trailing nul.
    pub fn as_bytes(&self) -> (r: &'a [u8])
        requires
            self.wf(),
        ensures
            r@ == encode_utf8(self.content()),
            r@ == self.stored_bytes().drop_last(),
    {
        proof {
            crate::encoding::lemma_stored_bytes_split(self@);
            assert(self.stored_bytes().drop_last() =~= encode_utf8(self.content()));
        }
        self.as_str().as_bytes()
    }

    /// Returns the stored bytes with the trailing nul: the exact byte run a
    /// C caller reads, whose first byte sits at the slice's start and whose
    /// last byte is the terminator.
    pub fn as_bytes_with_nul(&self) -> (r: &'a [u8])
        requires
            self.wf(),
        ensures
            r@ == self.stored_bytes(),
            r@.len() >= 1,
            r@.last() == 0u8,
    {
        proof {
            crate::encoding::lemma_nul_terminated_iff_last_byte_nul(self@);
        }
        self.inner.as_bytes()
    }
}

impl<'a> PartialEq for CUtf8<'a> {
    /// Views are equal exactly when their full stored byte runs, terminator
    /// included, are equal; by injectivity of UTF-8 this is equality of the
    /// stored characters.
    fn eq(&self, other: &Self) -> (r: bool) {
        let r = crate::order::bytes_eq(self.inner.as_bytes(), other.inner.as_bytes());
        proof {
            crate::order::lemma_eq_iff_encoded_eq(self@, other@);
        }
        r
    }
}

impl<'a> vstd::std_specs::cmp::PartialEqSpecImpl for CUtf8<'a> {
    open spec fn obeys_eq_spec() -> bool {
        true
    }

    open spec fn eq_spec(&self, other: &Self) -> bool {
        self@ == other@
    }
}

impl<'a> PartialOrd for CUtf8<'a> {
    /// Views order as their full stored byte runs order.
    fn partial_cmp(&self, other: &Self) -> (r: Option<Ordering>) {
        Some(crate::order::bytes_cmp(self.inner.as_bytes(), other.inner.as_bytes()))
    }
}

impl<'a> vstd::std_specs::cmp::PartialOrdSpecImpl for CUtf8<'a> {
    open spec fn obeys_partial_cmp_spec() -> bool {
        true
    }

    open spec fn partial_cmp_spec(&self, other: &Self) -> Option<Ordering> {
        Some(crate::order::lex_cmp_bytes(self.stored_bytes(), other.stored_bytes()))
    }
}

/// Relies on core::str::from_utf8: it returns `Ok` exactly when the input
/// is valid UTF-8, the returned string borrows the same bytes, and on
/// failure `valid_up_to` is the length of the longest prefix that is valid
/// UTF-8.
#[verifier::external_body]
fn str_from_utf8(bytes: &[u8]) -> (r: Result<&str, Utf8Error>)
    ensures
        match r {
            Ok(s) => valid_utf8(bytes@) && s.spec_bytes() == bytes@,
            Err(e) => {
                &&& !valid_utf8(bytes@)
                &&& e.valid_up_to <= bytes@.len()
                &&& valid_utf8(bytes@.subrange(0, e.valid_up_to as int))
            },
        },
{
    match core::str::from_utf8(bytes) {
        Ok(s) => Ok(s),
        Err(e) => Err(Utf8Error { valid_up_to: e.valid_up_to(), error_len: e.error_len() }),
    }
}

} // verus!
