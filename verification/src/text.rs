//! Texts for error messages.
use vstd::prelude::*;

verus! {

/// A string in quotation marks, with what is not printable escaped: what `{:?}` writes
/// for it.
pub uninterp spec fn quoted_text(s: Seq<char>) -> Seq<char>;

/// Quotes a string with the standard library's `Debug` for `str`; the result is named
/// [`quoted_text`].
#[verifier::external_body]
pub(crate) fn quoted(s: &str) -> (r: String)
    ensures
        r@ == quoted_text(s@),
{
    format!("{:?}", s)
}

/// A text followed by another.
pub(crate) fn joined(head: &str, tail: &str) -> (r: String)
    ensures
        r@ == head@ + tail@,
{
    head.to_owned().concat(tail)
}

} // verus!
