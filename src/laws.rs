//! Properties that relate several operations of `TinyBoxedStr`.
use vstd::prelude::*;
use vstd::string::StringSliceAdditionalSpecFns;

use crate::layout::{INLINE_LEN, MAX_LEN};
use crate::tiny_str::{TinyBoxedStr, TooLongError};

verus! {

/// Any text of at most `MAX_LEN` bytes can be stored, and reading the stored
/// value back as text gives the original text.
pub proof fn law_text_round_trip(s: &str, r: Result<TinyBoxedStr, TooLongError>)
    requires
        call_ensures(TinyBoxedStr::try_from, (s,), r),
        s.len() <= MAX_LEN,
    ensures
        r matches Ok(v) && v.text() == s@ && v@ == s.spec_bytes(),
{
}

/// Text longer than `MAX_LEN` bytes is rejected, never truncated.
pub proof fn law_too_long_rejected(s: &str, r: Result<TinyBoxedStr, TooLongError>)
    requires
        call_ensures(TinyBoxedStr::try_from, (s,), r),
        s.len() > MAX_LEN,
    ensures
        r matches Err(TooLongError),
{
}

/// Text of up to `INLINE_LEN` bytes, the boundary included, is stored without
/// a buffer; longer text gets one buffer whose length is the text's length.
pub proof fn law_storage_threshold(s: &str, r: Result<TinyBoxedStr, TooLongError>)
    requires
        call_ensures(TinyBoxedStr::try_from, (s,), r),
        s.len() <= MAX_LEN,
    ensures
        r is Ok,
        s.spec_bytes().len() <= INLINE_LEN ==> r->Ok_0.buffer_size() is None,
        s.spec_bytes().len() > INLINE_LEN ==> r->Ok_0.buffer_size() == Some(
            s.spec_bytes().len(),
        ),
{
}

/// A copy holds the same content as the original and storage of the same
/// shape: a buffer of its own exactly when the original has one.
pub proof fn law_copy_equals_original(v: TinyBoxedStr, c: TinyBoxedStr)
    requires
        call_ensures(TinyBoxedStr::copy, (&v,), c),
    ensures
        c@ == v@,
        c.text() == v.text(),
        c.buffer_size() == v.buffer_size(),
{
}

/// Values built from equal text are equal, whichever storage each one uses:
/// they hold the same bytes and the same text.
pub proof fn law_equal_text_equal_values(
    s: &str,
    t: &str,
    a: Result<TinyBoxedStr, TooLongError>,
    b: Result<TinyBoxedStr, TooLongError>,
)
    requires
        call_ensures(TinyBoxedStr::try_from, (s,), a),
        call_ensures(TinyBoxedStr::try_from, (t,), b),
        s@ == t@,
    ensures
        a is Ok <==> b is Ok,
        a is Ok ==> a->Ok_0@ == b->Ok_0@ && a->Ok_0.text() == b->Ok_0.text(),
{
}

/// The empty value has no content and no buffer, and equals the value built
/// from empty text.
pub proof fn law_empty_value(e: TinyBoxedStr, s: &str, r: Result<TinyBoxedStr, TooLongError>)
    requires
        call_ensures(TinyBoxedStr::empty, (), e),
        call_ensures(TinyBoxedStr::try_from, (s,), r),
        s@.len() == 0,
    ensures
        e@.len() == 0,
        e.buffer_size() is None,
        r matches Ok(v) && v@ == e@,
{
    assert(s.spec_bytes() =~= Seq::<u8>::empty());
}

} // verus!
