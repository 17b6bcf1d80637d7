//! Detection of the trailing nul terminator on plain text and bytes.

use vstd::prelude::*;

verus! {

/// Types that can report whether they end in a nul terminator.
pub trait Ext {
    /// True when, at the specification level, the value ends in a nul.
    spec fn spec_nul_terminated(&self) -> bool;

    /// Returns `true` when the value ends in a nul terminator.
    fn is_nul_terminated(&self) -> (r: bool)
        ensures
            r == self.spec_nul_terminated(),
    ;
}

impl Ext for [u8] {
    open spec fn spec_nul_terminated(&self) -> bool {
        self@.len() >= 1 && self@.last() == 0u8
    }

    fn is_nul_terminated(&self) -> (r: bool) {
        match self.last() {
            Some(b) => *b == 0,
            None => false,
        }
    }
}

impl Ext for str {
    open spec fn spec_nul_terminated(&self) -> bool {
        crate::nul_terminated_chars(self@)
    }

    fn is_nul_terminated(&self) -> (r: bool) {
        let b = self.as_bytes();
        proof {
            crate::encoding::lemma_nul_terminated_iff_last_byte_nul(self@);
        }
        b.is_nul_terminated()
    }
}

} // verus!
