//! The owned, growable nul-terminated UTF-8 buffer.

use vstd::prelude::*;
use vstd::string::StrSliceExecFns;
use vstd::string::StringExecFns;
use vstd::utf8::encode_utf8;

use crate::c_utf8::CUtf8;
use crate::ext::Ext;

verus! {

/// An owned, mutable UTF-8 encoded C string.
///
/// The wrapped text always ends in a single nul terminator; mutation strips
/// the terminator, works on the plain text, and restores it before
/// returning. Its view (`@`) is the full stored character sequence,
/// terminator included.
#[derive(Debug, Hash)]
pub struct CUtf8Buf {
    inner: String,
}

impl View for CUtf8Buf {
    type V = Seq<char>;

    closed spec fn view(&self) -> Seq<char> {
        self.inner@
    }
}

impl CUtf8Buf {
    /// The dual invariant at the character level: the stored text ends in
    /// the nul terminator.
    pub open spec fn wf(&self) -> bool {
        crate::nul_terminated_chars(self@)
    }

    /// Creates a new empty buffer: a single nul terminator and no content.
    pub fn new() -> (r: CUtf8Buf)
        ensures
            r.wf(),
            r@ == seq!['\0'],
    {
        proof {
            reveal_strlit("\0");
        }
        let s: String = "\0".to_owned();
        assert(s@ =~= seq!['\0']);
        CUtf8Buf { inner: s }
    }

    /// Creates a buffer from plain text, appending a nul terminator when
    /// the text does not already end in one.
    pub fn from_string(s: String) -> (r: CUtf8Buf)
        ensures
            r.wf(),
            crate::nul_terminated_chars(s@) ==> r@ == s@,
            !crate::nul_terminated_chars(s@) ==> r@ == s@ + seq!['\0'],
    {
        if s.as_str().is_nul_terminated() {
            CUtf8Buf { inner: s }
        } else {
            let ghost s0 = s@;
            let mut s = s;
            s.append("\0");
            proof {
                reveal_strlit("\0");
                assert(("\0")@ =~= seq!['\0']);
                assert(s@ =~= s0 + seq!['\0']);
            }
            CUtf8Buf { inner: s }
        }
    }

    /// Adopts text already known to end in a nul terminator, without
    /// checking.
    pub fn from_string_unchecked(s: String) -> (r: CUtf8Buf)
        requires
            crate::nul_terminated_chars(s@),
        ensures
            r.wf(),
            r@ == s@,
    {
        CUtf8Buf { inner: s }
    }

    /// Appends text to the end of the buffer's content.
    ///
    /// The trailing nul is removed, the text is appended to the bare
    /// content, and exactly one nul is restored, so the stored form never
    /// carries more than one terminator. Appending empty text leaves the
    /// stored form unchanged.
    pub fn push_str(&mut self, s: &str)
        requires
            old(self).wf(),
        ensures
            final(self).wf(),
            final(self)@ == crate::content_of(old(self)@) + s@ + seq!['\0'],
            s@.len() == 0 ==> final(self)@ == old(self)@,
    {
        let _nul = string_pop(&mut self.inner);
        self.inner.append(s);
        string_push(&mut self.inner, '\0');
        proof {
            assert(self@ =~= crate::content_of(old(self)@) + s@ + seq!['\0']);
            if s@.len() == 0 {
                assert(self@ =~= old(self)@);
            }
        }
    }

    /// Appends a single character to the end of the buffer's content,
    /// under the same strip-and-restore discipline as text append.
    pub fn push(&mut self, c: char)
        requires
            old(self).wf(),
        ensures
            final(self).wf(),
            final(self)@ == crate::content_of(old(self)@) + seq![c] + seq!['\0'],
    {
        let _nul = string_pop(&mut self.inner);
        string_push(&mut self.inner, c);
        string_push(&mut self.inner, '\0');
        proof {
            assert(self@ =~= crate::content_of(old(self)@) + seq![c] + seq!['\0']);
        }
    }

    /// Consumes the buffer and returns its content as plain text, with the
    /// trailing nul removed.
    pub fn into_string(self) -> (r: String)
        requires
            self.wf(),
        ensures
            r@ == crate::content_of(self@),
    {
        let mut s = self.inner;
        let _nul = string_pop(&mut s);
        s
    }

    /// Consumes the buffer and returns its content bytes, with the trailing
    /// nul removed.
    pub fn into_bytes(self) -> (r: Vec<u8>)
        requires
            self.wf(),
        ensures
            r@ == encode_utf8(crate::content_of(self@)),
    {
        let mut v = self.inner.as_str().as_bytes_vec();
        proof {
            crate::encoding::lemma_stored_bytes_split(self@);
        }
        let _nul = v.pop();
        proof {
            assert(v@ =~= encode_utf8(crate::content_of(self@)));
        }
        v
    }

    /// Borrows the buffer's current contents as a [`CUtf8`] view: the same
    /// bytes under the read-only type, not a copy.
    pub fn as_c_utf8<'a>(&'a self) -> (r: CUtf8<'a>)
        requires
            self.wf(),
        ensures
            r@ == self@,
            r.wf(),
    {
        CUtf8::from_str_unchecked(self.inner.as_str())
    }
}

impl<'a> CUtf8<'a> {
    /// Copies the viewed text into an owned [`CUtf8Buf`] holding the same
    /// stored characters, terminator included.
    pub fn to_owned(&self) -> (r: CUtf8Buf)
        requires
            self.wf(),
        ensures
            r@ == self@,
            r.wf(),
    {
        CUtf8Buf { inner: self.as_str_with_nul().to_owned() }
    }
}

impl Default for CUtf8Buf {
    /// The default buffer is empty: a single nul terminator.
    fn default() -> (r: CUtf8Buf)
        ensures
            r.wf(),
            r@ == seq!['\0'],
    {
        CUtf8Buf::new()
    }
}

impl PartialEq for CUtf8Buf {
    /// Buffers are equal exactly when their full stored byte runs,
    /// terminator included, are equal; by injectivity of UTF-8 this is
    /// equality of the stored characters.
    fn eq(&self, other: &Self) -> (r: bool) {
        self.inner.eq(&other.inner)
    }
}

impl vstd::std_specs::cmp::PartialEqSpecImpl for CUtf8Buf {
    open spec fn obeys_eq_spec() -> bool {
        true
    }

    open spec fn eq_spec(&self, other: &Self) -> bool {
        self@ == other@
    }
}

impl PartialOrd for CUtf8Buf {
    /// Buffers order as their full stored byte runs order.
    fn partial_cmp(&self, other: &Self) -> (r: Option<core::cmp::Ordering>) {
        Some(
            crate::order::bytes_cmp(
                self.inner.as_str().as_bytes(),
                other.inner.as_str().as_bytes(),
            ),
        )
    }
}

impl vstd::std_specs::cmp::PartialOrdSpecImpl for CUtf8Buf {
    open spec fn obeys_partial_cmp_spec() -> bool {
        true
    }

    open spec fn partial_cmp_spec(&self, other: &Self) -> Option<core::cmp::Ordering> {
        Some(crate::order::lex_cmp_bytes(encode_utf8(self@), encode_utf8(other@)))
    }
}

impl Clone for CUtf8Buf {
    /// The clone holds the same stored characters.
    fn clone(&self) -> (r: Self)
        ensures
            r@ == self@,
    {
        CUtf8Buf { inner: self.inner.clone() }
    }
}

/// Relies on alloc::string::String::pop: it removes and returns the last
/// character of the text, or returns `None` when the text is empty.
#[verifier::external_body]
fn string_pop(s: &mut String) -> (r: Option<char>)
    ensures
        old(s)@.len() == 0 ==> r is None && final(s)@ == old(s)@,
        old(s)@.len() > 0 ==> r == Some(old(s)@.last()) && final(s)@ == old(s)@.drop_last(),
{
    s.pop()
}

/// Relies on alloc::string::String::push: it appends the character to the
/// end of the text.
#[verifier::external_body]
fn string_push(s: &mut String, c: char)
    ensures
        final(s)@ == old(s)@.push(c),
{
    s.push(c)
}

} // verus!
