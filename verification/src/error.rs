//! The error taxonomy for conversions into [`crate::CUtf8`] and
//! [`crate::CUtf8Buf`].

use vstd::prelude::*;

verus! {

/// Diagnostic detail for a byte sequence that is not valid UTF-8.
///
/// `valid_up_to` is the length of the longest prefix that is valid UTF-8;
/// `error_len` is the length of the offending byte sequence starting there,
/// or `None` when the input ended in the middle of a character's encoding.
#[derive(Clone, Copy, Debug)]
pub struct Utf8Error {
    pub valid_up_to: usize,
    pub error_len: Option<usize>,
}

impl Utf8Error {
    /// The length of the longest prefix of the input that decodes as UTF-8.
    pub fn valid_up_to(&self) -> (r: usize)
        ensures
            r == self.valid_up_to,
    {
        self.valid_up_to
    }

    /// The length of the invalid byte sequence, or `None` when the input
    /// ended before a character's encoding was complete.
    pub fn error_len(&self) -> (r: Option<usize>)
        ensures
            r == self.error_len,
    {
        self.error_len
    }
}

/// Why a conversion to a nul-terminated UTF-8 string failed.
#[derive(Clone, Copy, Debug)]
pub enum Error {
    /// The nul terminator was missing from the end of the input.
    Nul,
    /// The input was not encoded as UTF-8.
    Utf8(Utf8Error),
}

impl From<Utf8Error> for Error {
    /// An encoding diagnostic converts to the encoding-failure variant.
    fn from(err: Utf8Error) -> (r: Error) {
        Error::Utf8(err)
    }
}

impl vstd::std_specs::convert::FromSpecImpl<Utf8Error> for Error {
    open spec fn obeys_from_spec() -> bool {
        true
    }

    open spec fn from_spec(err: Utf8Error) -> Error {
        Error::Utf8(err)
    }
}

} // verus!
