//! The decode fallback chain: an ordered list of decode attempts in which the
//! first success wins and the raw text is the last resort.

use crate::codec::bytes_view;
use vstd::prelude::*;
use vstd::string::*;
use vstd::utf8::*;

verus! {

/// Which decode attempts are made before the stored text is taken verbatim.
#[derive(Clone, Copy, Debug, PartialEq, Eq, Structural)]
pub enum FallbackPolicy {
    /// Decrypt, else take the raw text.
    CipherThenRaw,
    /// Decrypt, else decode as plain base64, else take the raw text.
    CipherThenBase64ThenRaw,
}

/// The bytes that the chain yields, given the outcome of each attempt: the
/// decrypted bytes if decryption succeeded, else the base64-decoded bytes if
/// that succeeded, else the UTF-8 bytes of the stored text.
pub open spec fn recovered(
    decrypted: Option<Seq<u8>>,
    decoded: Option<Seq<u8>>,
    content: Seq<char>,
) -> Seq<u8> {
    match decrypted {
        Some(bytes) => bytes,
        None => match decoded {
            Some(bytes) => bytes,
            None => encode_utf8(content),
        },
    }
}

/// Picks the result of the first attempt that succeeded, falling back to the
/// raw bytes of `content` when none did.
pub fn recover(
    decrypted: Option<Vec<u8>>,
    decoded: Option<Vec<u8>>,
    content: &str,
) -> (bytes: Vec<u8>)
    ensures
        bytes@ == recovered(bytes_view(decrypted), bytes_view(decoded), content@),
{
    match decrypted {
        Some(bytes) => bytes,
        None => match decoded {
            Some(bytes) => bytes,
            None => content.as_bytes_vec(),
        },
    }
}

} // verus!
