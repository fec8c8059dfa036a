//! Text encodings at the edge of the file: plain base64, and UTF-8 in its
//! strict and lossy forms.

use std::string::FromUtf8Error;
use vstd::prelude::*;
use vstd::utf8::*;

verus! {

/// The bytes that `text` decodes to as standard-alphabet base64, or `None`
/// when `text` is not base64.
pub uninterp spec fn base64_decoded(text: Seq<char>) -> Option<Seq<u8>>;

/// The text that lossy UTF-8 decoding makes of `bytes`.
pub uninterp spec fn utf8_lossy(bytes: Seq<u8>) -> Seq<char>;

/// The marker that lossy decoding puts in place of each invalid sequence.
pub open spec fn replacement_marker() -> char {
    '\u{FFFD}'
}

/// The view of an optional byte vector.
pub open spec fn bytes_view(attempt: Option<Vec<u8>>) -> Option<Seq<u8>> {
    match attempt {
        Some(bytes) => Some(bytes@),
        None => None,
    }
}

/// Calls `base64::decode`, dropping the error's detail.
///
/// Trusted: the outcome is a function of the text alone.
#[verifier::external_body]
pub(crate) fn decode_base64(text: &str) -> (bytes: Option<Vec<u8>>)
    ensures
        bytes_view(bytes) == base64_decoded(text@),
{
    base64::decode(text).ok()
}

/// `std::string::FromUtf8Error`, carried through as an opaque value.
#[verifier::external_type_specification]
#[verifier::external_body]
pub struct ExFromUtf8Error(FromUtf8Error);

/// `String::from_utf8` succeeds exactly on valid UTF-8, and the string it
/// then returns is made of the bytes it was given.
pub assume_specification[ String::from_utf8 ](bytes: Vec<u8>) -> (text: Result<String, FromUtf8Error>)
    ensures
        text is Ok <==> valid_utf8(bytes@),
        text matches Ok(s) ==> s@ == decode_utf8(bytes@),
;

/// Calls `String::from_utf8_lossy` and takes ownership of what it returns.
///
/// Trusted: the outcome is a function of the bytes alone; valid UTF-8 is
/// decoded as it stands; anything else comes back with at least one
/// replacement marker in it.
#[verifier::external_body]
pub(crate) fn decode_utf8_lossy(bytes: &[u8]) -> (text: String)
    ensures
        text@ == utf8_lossy(bytes@),
        valid_utf8(bytes@) ==> text@ == decode_utf8(bytes@),
        !valid_utf8(bytes@) ==> text@.contains(replacement_marker()),
{
    String::from_utf8_lossy(bytes).into_owned()
}

} // verus!
