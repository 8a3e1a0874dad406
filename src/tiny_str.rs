//! The string type itself: construction, access and lifecycle.
use vstd::prelude::*;
use vstd::string::StringSliceAdditionalSpecFns;
use vstd::utf8::{decode_utf8, valid_utf8, encode_utf8_valid_utf8, encode_utf8_decode_utf8};

use crate::buffer::{copy_bytes, bytes_eq};
use crate::layout::{is_inline_len, length_is_inline, INLINE_LEN, MAX_LEN, PREFIX_LEN};
use crate::text::{debug_of, debug_text, utf8_text};

verus! {

/// Where the content lives. The length of the value decides the variant:
/// content of at most `INLINE_LEN` bytes is always `Inline`.
enum Storage {
    /// The content, zero-padded to the inline capacity.
    Inline([u8; INLINE_LEN]),
    /// A buffer whose length is the content's length, with a cached copy of its
    /// first `PREFIX_LEN` bytes.
    Heap { prefix: [u8; PREFIX_LEN], buf: Vec<u8> },
}

/// Whether the borrowed text `r` is the text `t`.
pub open spec fn has_text(r: &str, t: Seq<char>) -> bool {
    r@ == t
}

/// A very small owned string.
///
/// Like a boxed `str`, but only for content of at most 255 bytes. Up to 15
/// bytes are kept inline; longer content lives in a buffer whose length is
/// the content's length, owned by this value alone. The value never changes
/// after it is built.
pub struct TinyBoxedStr {
    len: u8,
    storage: Storage,
}

/// The content was longer than `MAX_LEN` bytes.
#[derive(Debug, PartialEq, Eq, Structural)]
pub struct TooLongError;

impl View for TinyBoxedStr {
    type V = Seq<u8>;

    /// The content bytes.
    closed spec fn view(&self) -> Seq<u8> {
        match self.storage {
            Storage::Inline(a) => a@.subrange(0, self.len as int),
            Storage::Heap { buf, .. } => buf@,
        }
    }
}

impl TinyBoxedStr {
    /// The longest content a value can hold, in bytes.
    pub const MAX_LEN: usize = MAX_LEN;

    #[verifier::type_invariant]
    closed spec fn inv(self) -> bool {
        &&& match self.storage {
            Storage::Inline(a) => {
                &&& is_inline_len(self.len as int)
                &&& forall|i: int| self.len <= i < INLINE_LEN ==> a@[i] == 0
            },
            Storage::Heap { prefix, buf } => {
                &&& !is_inline_len(self.len as int)
                &&& buf@.len() == self.len
                &&& prefix@ == buf@.subrange(0, PREFIX_LEN as int)
            },
        }
        &&& valid_utf8(self@)
    }

    /// The content as text.
    pub open spec fn text(&self) -> Seq<char> {
        decode_utf8(self@)
    }

    /// The length of the buffer this value owns, or `None` when the content is
    /// inline. This is the buffer's length in bytes; the capacity that the
    /// allocator handed out is not modelled.
    pub closed spec fn buffer_size(&self) -> Option<nat> {
        match self.storage {
            Storage::Inline(_) => None,
            Storage::Heap { buf, .. } => Some(buf@.len()),
        }
    }

    /// The length of the content in bytes.
    pub fn len(&self) -> (r: usize)
        ensures
            r == self@.len(),
            r <= MAX_LEN,
    {
        proof { use_type_invariant(self); }
        self.len as usize
    }

    /// Whether the content is empty.
    pub fn is_empty(&self) -> (r: bool)
        ensures
            r == (self@.len() == 0),
    {
        proof { use_type_invariant(self); }
        self.len == 0
    }

    /// Whether the content is stored inline, without a buffer of its own.
    pub fn is_inline(&self) -> (r: bool)
        ensures
            r == is_inline_len(self@.len() as int),
            r == (self.buffer_size() is None),
    {
        proof { use_type_invariant(self); }
        length_is_inline(self.len as usize)
    }

    /// The content bytes, borrowed from the inline storage or from the buffer.
    pub fn as_bytes(&self) -> (r: &[u8])
        ensures
            r@ == self@,
    {
        proof { use_type_invariant(self); }
        match &self.storage {
            Storage::Inline(a) => vstd::slice::slice_subrange(a.as_slice(), 0, self.len as usize),
            Storage::Heap { buf, .. } => buf.as_slice(),
        }
    }

    /// The content as text. The bytes were valid UTF-8 when the value was
    /// built and never change, so reading them back as text cannot fail.
    pub fn as_str(&self) -> (r: &str)
        ensures
            r.spec_bytes() == self@,
            r@ == self.text(),
    {
        proof { use_type_invariant(self); }
        match utf8_text(self.as_bytes()) {
            Some(s) => {
                proof { encode_utf8_decode_utf8(s@); }
                s
            },
            None => "",
        }
    }
    /// Builds a value holding `bytes`, inline when they are short enough.
    fn from_bytes(bytes: &[u8]) -> (r: Self)
        requires
            bytes@.len() <= MAX_LEN,
            valid_utf8(bytes@),
        ensures
            r@ == bytes@,
            r.buffer_size() == (if is_inline_len(bytes@.len() as int) {
                None::<nat>
            } else {
                Some(bytes@.len())
            }),
    {
        let len: u8 = bytes.len() as u8;
        if length_is_inline(bytes.len()) {
            let mut inline: [u8; INLINE_LEN] = [0u8; INLINE_LEN];
            let mut i: usize = 0;
            while i < bytes.len()
                invariant
                    i <= bytes@.len() <= INLINE_LEN,
                    forall|j: int| 0 <= j < i ==> inline@[j] == bytes@[j],
                    forall|j: int| bytes@.len() <= j < INLINE_LEN ==> inline@[j] == 0,
                decreases bytes@.len() - i,
            {
                inline[i] = bytes[i];
                i = i + 1;
            }
            assert(inline@.subrange(0, len as int) =~= bytes@);
            TinyBoxedStr { len, storage: Storage::Inline(inline) }
        } else {
            let mut prefix: [u8; PREFIX_LEN] = [0u8; PREFIX_LEN];
            let mut i: usize = 0;
            while i < PREFIX_LEN
                invariant
                    i <= PREFIX_LEN < bytes@.len(),
                    forall|j: int| 0 <= j < i ==> prefix@[j] == bytes@[j],
                decreases PREFIX_LEN - i,
            {
                prefix[i] = bytes[i];
                i = i + 1;
            }
            let buf = copy_bytes(bytes);
            assert(prefix@ =~= buf@.subrange(0, PREFIX_LEN as int));
            TinyBoxedStr { len, storage: Storage::Heap { prefix, buf } }
        }
    }

    /// Builds a value holding `s`, or fails when `s` is longer than `MAX_LEN`
    /// bytes. Content of at most `INLINE_LEN` bytes is stored inline; longer
    /// content gets one buffer whose length is the content's length.
    pub fn try_from(s: &str) -> (r: Result<Self, TooLongError>)
        ensures
            r is Err <==> s.len() > MAX_LEN,
            r matches Ok(v) ==> {
                &&& v@ == s.spec_bytes()
                &&& v.text() == s@
                &&& v.buffer_size() == (if is_inline_len(v@.len() as int) {
                    None::<nat>
                } else {
                    Some(v@.len())
                })
            },
    {
        let bytes = s.as_bytes();
        if bytes.len() > MAX_LEN {
            return Err(TooLongError);
        }
        proof {
            encode_utf8_valid_utf8(s@);
            encode_utf8_decode_utf8(s@);
        }
        Ok(Self::from_bytes(bytes))
    }

    /// A copy with its own storage: a new buffer of the same size when the
    /// content is not inline, so the two values never share a buffer.
    pub fn copy(&self) -> (r: Self)
        ensures
            r@ == self@,
            r.buffer_size() == self.buffer_size(),
    {
        proof { use_type_invariant(self); }
        match &self.storage {
            Storage::Inline(a) => TinyBoxedStr { len: self.len, storage: Storage::Inline(*a) },
            Storage::Heap { prefix, buf } => {
                let copied = copy_bytes(buf.as_slice());
                TinyBoxedStr { len: self.len, storage: Storage::Heap { prefix: *prefix, buf: copied } }
            },
        }
    }

    /// The empty value: no content, no buffer.
    pub fn empty() -> (r: Self)
        ensures
            r@.len() == 0,
            r.buffer_size() is None,
    {
        let r = TinyBoxedStr { len: 0, storage: Storage::Inline([0u8; INLINE_LEN]) };
        assert(r@ =~= Seq::<u8>::empty());
        proof { vstd::utf8::decode_utf8_encode_utf8(Seq::<u8>::empty()); }
        r
    }
    /// The content as an owned `String`, as `Display` would render it.
    pub fn to_string(&self) -> (r: String)
        ensures
            r@ == self.text(),
    {
        self.as_str().to_owned()
    }

    /// The content as `Debug` renders text: quoted and escaped.
    pub fn to_debug_string(&self) -> (r: String)
        ensures
            r@ == debug_of(self.text()),
    {
        debug_text(self.as_str())
    }

}

impl Clone for TinyBoxedStr {
    fn clone(&self) -> (r: Self)
        ensures
            r@ == self@,
            r.buffer_size() == self.buffer_size(),
    {
        self.copy()
    }
}

impl Default for TinyBoxedStr {
    fn default() -> (r: Self)
        ensures
            r@.len() == 0,
            r.buffer_size() is None,
    {
        Self::empty()
    }
}

impl PartialEq for TinyBoxedStr {
    /// Compares content; two buffered values whose cached prefixes differ are
    /// told apart without reading their buffers.
    fn eq(&self, other: &Self) -> (r: bool) {
        proof {
            use_type_invariant(self);
            use_type_invariant(other);
        }
        if let (Storage::Heap { prefix: p, .. }, Storage::Heap { prefix: q, .. }) = (
            &self.storage,
            &other.storage,
        ) {
            if !bytes_eq(p.as_slice(), q.as_slice()) {
                return false;
            }
        }
        bytes_eq(self.as_bytes(), other.as_bytes())
    }
}

impl vstd::std_specs::cmp::PartialEqSpecImpl for TinyBoxedStr {
    open spec fn obeys_eq_spec() -> bool {
        true
    }

    open spec fn eq_spec(&self, other: &Self) -> bool {
        self@ == other@
    }
}

impl Eq for TinyBoxedStr {}

impl PartialEq<str> for TinyBoxedStr {
    fn eq(&self, other: &str) -> (r: bool) {
        bytes_eq(self.as_bytes(), other.as_bytes())
    }
}

impl vstd::std_specs::cmp::PartialEqSpecImpl<str> for TinyBoxedStr {
    open spec fn obeys_eq_spec() -> bool {
        true
    }

    open spec fn eq_spec(&self, other: &str) -> bool {
        self@ == other.spec_bytes()
    }
}

impl AsRef<str> for TinyBoxedStr {
    fn as_ref(&self) -> (r: &str)
        ensures
            r@ == self.text(),
    {
        self.as_str()
    }
}

impl std::borrow::Borrow<str> for TinyBoxedStr {
    fn borrow(&self) -> (r: &str)
        ensures
            has_text(r, self.text()),
    {
        self.as_str()
    }
}

impl std::hash::Hash for TinyBoxedStr {
    fn hash<H: std::hash::Hasher>(&self, state: &mut H) {
        self.as_str().hash(state)
    }
}

} // verus!
