//! Reading validated bytes back as text.
use vstd::prelude::*;
use vstd::string::StringSliceAdditionalSpecFns;
use vstd::utf8::valid_utf8;

verus! {

/// Relies on `std::str::from_utf8`: it succeeds exactly when the bytes are valid
/// UTF-8, and the text it returns is a view of those same bytes.
#[verifier::external_body]
pub(crate) fn utf8_text<'a>(bytes: &'a [u8]) -> (r: Option<&'a str>)
    ensures
        r is Some <==> valid_utf8(bytes@),
        r matches Some(s) ==> s.spec_bytes() == bytes@,
{
    std::str::from_utf8(bytes).ok()
}

/// Relies on `<str as Hash>::hash`: it feeds the text to the hasher. Nothing is
/// stated of the hasher's state afterwards.
pub assume_specification<H: std::hash::Hasher>[ <str as std::hash::Hash>::hash::<H> ](
    s: &str,
    state: &mut H,
);

/// What `Debug` prints for text: the text quoted, with special characters escaped.
pub uninterp spec fn debug_of(s: Seq<char>) -> Seq<char>;

/// Relies on `<str as Debug>::fmt` (through `format!`): the quoted, escaped form
/// of the text, which depends on the text alone.
#[verifier::external_body]
pub(crate) fn debug_text(s: &str) -> (r: String)
    ensures
        r@ == debug_of(s@),
{
    format!("{:?}", s)
}

} // verus!
