//! The symmetric cipher behind the stored text: AES-256 in CBC mode, keyed by
//! a digest of the key string, with the ciphertext carried as base64.
//!
//! The cipher itself is not verified here. Its two operations are given names,
//! and the wrappers below state what is taken on trust about them.

use crate::codec::bytes_view;
use magic_crypt::{MagicCrypt256, MagicCryptTrait};
use vstd::prelude::*;

verus! {

/// The base64 text that encrypting `bytes` under `key` produces.
pub uninterp spec fn encrypted_base64(key: Seq<char>, bytes: Seq<u8>) -> Seq<char>;

/// The plaintext that `content` decrypts to under `key`, or `None` when
/// `content` is not base64 or is not a well-formed ciphertext under `key`.
pub uninterp spec fn decrypted_base64(key: Seq<char>, content: Seq<char>) -> Option<Seq<u8>>;

/// Calls `MagicCrypt256::new` with no initialisation vector and then
/// `MagicCryptTrait::encrypt_bytes_to_base64`.
///
/// Trusted: the output is a function of the key and the bytes alone (the AES
/// key is the SHA-256 digest of the key string and the initialisation vector
/// is fixed), and decrypting the output under the same key gives the bytes
/// back (CBC with PKCS#7 padding, then standard base64).
#[verifier::external_body]
pub(crate) fn encrypt(key: &str, bytes: &[u8]) -> (content: String)
    ensures
        content@ == encrypted_base64(key@, bytes@),
        decrypted_base64(key@, content@) == Some(bytes@),
{
    let cipher: MagicCrypt256 = MagicCryptTrait::new(key, None::<String>);
    cipher.encrypt_bytes_to_base64(bytes)
}

/// Calls `MagicCrypt256::new` with no initialisation vector and then
/// `MagicCryptTrait::decrypt_base64_to_bytes`, dropping the error's detail.
///
/// Trusted: the outcome is a function of the key and the text alone.
#[verifier::external_body]
pub(crate) fn decrypt(key: &str, content: &str) -> (plain: Option<Vec<u8>>)
    ensures
        bytes_view(plain) == decrypted_base64(key@, content@),
{
    let cipher: MagicCrypt256 = MagicCryptTrait::new(key, None::<String>);
    cipher.decrypt_base64_to_bytes(content).ok()
}

} // verus!
