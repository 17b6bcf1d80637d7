//! Nul-terminated, UTF-8 encoded C strings.
//!
//! The [`CUtf8`] view and the owned [`CUtf8Buf`] buffer hold text that is
//! guaranteed to satisfy a dual invariant: the stored bytes are valid UTF-8,
//! and the final stored byte is a single nul terminator. Such data can be
//! handed to C interfaces expecting nul-terminated byte runs while remaining
//! ordinary UTF-8 text on the Rust side.

use vstd::prelude::*;

pub mod c_utf8;
pub mod c_utf8_buf;
pub mod encoding;
pub mod error;
pub mod ext;
pub mod order;

pub use c_utf8::CUtf8;
pub use c_utf8_buf::CUtf8Buf;
pub use error::Error;
pub use error::Utf8Error;
pub use ext::Ext;

verus! {

/// True when the character sequence ends in the nul terminator: the stored
/// form every `CUtf8` and `CUtf8Buf` maintains.
pub open spec fn nul_terminated_chars(s: Seq<char>) -> bool {
    s.len() >= 1 && s.last() == '\0'
}

/// The content of a stored character sequence: everything before the
/// trailing nul terminator.
pub open spec fn content_of(s: Seq<char>) -> Seq<char>
    recommends
        s.len() >= 1,
{
    s.drop_last()
}

} // verus!
