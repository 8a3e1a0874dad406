//! Storage layout constants and the threshold between inline and buffered content.
use vstd::prelude::*;

verus! {

/// Bytes of content that are always kept in the value itself.
pub const PREFIX_LEN: usize = 7;

/// Bytes of the trailing region that holds the rest of short content.
pub const SUFFIX_LEN: usize = 8;

/// The longest content that is stored without a separate buffer.
pub const INLINE_LEN: usize = 15;

/// The longest content a value can hold: its length fits in one byte.
pub const MAX_LEN: usize = 255;

/// Whether content of `len` bytes is stored inline.
pub open spec fn is_inline_len(len: int) -> bool {
    len <= INLINE_LEN
}

/// The single place where the storage mode for a length is decided.
pub fn length_is_inline(len: usize) -> (r: bool)
    ensures
        r == is_inline_len(len as int),
{
    len <= INLINE_LEN
}

} // verus!
