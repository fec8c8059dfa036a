//! The encrypted file: a key, the stored text, and the policies that say how
//! the text is read back and shown.

use crate::blob::{split_blob, split_embedded, well_formed};
use crate::chain::{recover, recovered, FallbackPolicy};
use crate::cipher::{decrypt, decrypted_base64, encrypt, encrypted_base64};
use crate::codec::{base64_decoded, decode_base64, decode_utf8_lossy, replacement_marker, utf8_lossy};
use crate::render::{decimal, to_decimal, RenderPolicy};
use crate::stream::{fill, filled, overwrite, overwritten, shorter, StreamError};
use std::string::FromUtf8Error;
use vstd::prelude::*;
use vstd::string::*;
use vstd::utf8::*;

verus! {

/// What a file is made of, as mathematical values.
pub ghost struct FileState {
    /// The symmetric secret.
    pub key: Seq<char>,
    /// The stored text.
    pub content: Seq<char>,
    /// How the stored text is read back.
    pub fallback: FallbackPolicy,
    /// How the file shows itself as text.
    pub render: RenderPolicy,
}

/// The plaintext that a stored text stands for under a key: what the decode
/// fallback chain yields. Decryption comes first; plain base64 is tried next
/// where the policy includes it; the raw bytes of the text are the last
/// resort.
pub open spec fn stored_plaintext(
    fallback: FallbackPolicy,
    key: Seq<char>,
    content: Seq<char>,
) -> Seq<u8> {
    recovered(
        decrypted_base64(key, content),
        match fallback {
            FallbackPolicy::CipherThenBase64ThenRaw => base64_decoded(content),
            FallbackPolicy::CipherThenRaw => None,
        },
        content,
    )
}

/// Decryption comes first in the chain: a stored text that decrypts stands
/// for the decrypted bytes under either policy, whether or not it would also
/// decode as plain base64.
pub proof fn lemma_decryption_first(
    fallback: FallbackPolicy,
    key: Seq<char>,
    content: Seq<char>,
    bytes: Seq<u8>,
)
    requires
        decrypted_base64(key, content) == Some(bytes),
    ensures
        stored_plaintext(fallback, key, content) == bytes,
{
}

/// Below decryption the chain degrades in order: under the full policy a
/// text that does not decrypt but decodes as base64 stands for the decoded
/// bytes; a text for which every attempt of the policy fails stands for its
/// own UTF-8 bytes.
pub proof fn lemma_fallback_order(fallback: FallbackPolicy, key: Seq<char>, content: Seq<char>)
    requires
        decrypted_base64(key, content) is None,
    ensures
        fallback == FallbackPolicy::CipherThenBase64ThenRaw ==> stored_plaintext(
            fallback,
            key,
            content,
        ) == match base64_decoded(content) {
            Some(bytes) => bytes,
            None => encode_utf8(content),
        },
        fallback == FallbackPolicy::CipherThenRaw ==> stored_plaintext(fallback, key, content)
            == encode_utf8(content),
{
}

/// Two files with the same key, the same stored text and the same fallback
/// policy have the same plaintext.
pub proof fn lemma_same_source_same_plaintext(a: InnerFile, b: InnerFile)
    requires
        a@.key == b@.key,
        a@.content == b@.content,
        a@.fallback == b@.fallback,
    ensures
        a.plaintext() == b.plaintext(),
{
}

/// A file held in memory in its encrypted, base64-encoded form.
///
/// The file keeps its key and derives the cipher from it whenever the stored
/// text is read or replaced, so the cipher cannot fall out of step with the
/// key.
pub struct InnerFile {
    content: String,
    key: String,
    fallback: FallbackPolicy,
    render: RenderPolicy,
}

impl View for InnerFile {
    type V = FileState;

    closed spec fn view(&self) -> FileState {
        FileState {
            key: self.key@,
            content: self.content@,
            fallback: self.fallback,
            render: self.render,
        }
    }
}

impl Clone for InnerFile {
    fn clone(&self) -> (copy: Self)
        ensures
            copy@ == self@,
    {
        InnerFile {
            content: self.content.clone(),
            key: self.key.clone(),
            fallback: self.fallback,
            render: self.render,
        }
    }
}

impl InnerFile {
    /// The plaintext of the file, as recovered from its stored text.
    pub open spec fn plaintext(&self) -> Seq<u8> {
        stored_plaintext(self@.fallback, self@.key, self@.content)
    }

    /// Makes a file of a key and a stored text, both taken as they are. The
    /// file reads back through the full fallback chain and shows itself as its
    /// length.
    pub fn new(key: String, content: String) -> (file: Self)
        ensures
            file@ == (FileState {
                key: key@,
                content: content@,
                fallback: FallbackPolicy::CipherThenBase64ThenRaw,
                render: RenderPolicy::AsLength,
            }),
    {
        InnerFile {
            content,
            key,
            fallback: FallbackPolicy::CipherThenBase64ThenRaw,
            render: RenderPolicy::AsLength,
        }
    }

    /// Makes a file of an embedded blob, if the blob holds a delimiter. The
    /// file reads back by decryption or else verbatim, and shows itself as
    /// text.
    pub fn try_new_from_fload(result: String) -> (file: Option<Self>)
        ensures
            file is Some <==> well_formed(result@),
            file matches Some(f) ==> split_blob(result@) == Some((f@.key, f@.content))
                && f@.fallback == FallbackPolicy::CipherThenRaw && f@.render
                == RenderPolicy::AsText,
    {
        match split_embedded(result.as_str()) {
            Some((key, content)) => Some(
                InnerFile {
                    content,
                    key,
                    fallback: FallbackPolicy::CipherThenRaw,
                    render: RenderPolicy::AsText,
                },
            ),
            None => None,
        }
    }

    /// Makes a file of an embedded blob, which must hold a delimiter.
    pub fn new_from_fload(result: String) -> (file: Self)
        requires
            well_formed(result@),
        ensures
            split_blob(result@) == Some((file@.key, file@.content)),
            file@.fallback == FallbackPolicy::CipherThenRaw,
            file@.render == RenderPolicy::AsText,
    {
        Self::try_new_from_fload(result).unwrap()
    }

    /// The same file under other policies.
    pub fn with_policies(self, fallback: FallbackPolicy, render: RenderPolicy) -> (file: Self)
        ensures
            file@ == (FileState { fallback, render, ..self@ }),
    {
        InnerFile { content: self.content, key: self.key, fallback, render }
    }

    /// Whether the stored text decrypts under the key.
    pub fn is_encrypted(&self) -> (yes: bool)
        ensures
            yes == (decrypted_base64(self@.key, self@.content) is Some),
    {
        decrypt(self.key.as_str(), self.content.as_str()).is_some()
    }

    /// Whether the stored text is base64, whether or not it decrypts.
    pub fn is_encoded(&self) -> (yes: bool)
        ensures
            yes == (base64_decoded(self@.content) is Some),
    {
        decode_base64(self.content.as_str()).is_some()
    }

    /// A copy of the key.
    pub fn get_key(&self) -> (key: String)
        ensures
            key@ == self@.key,
    {
        self.key.clone()
    }

    /// A copy of the stored text.
    pub fn get_content_encrypted(&self) -> (content: String)
        ensures
            content@ == self@.content,
    {
        self.content.clone()
    }

    /// The stored text.
    pub fn get_content_encrypted_borrow(&self) -> (content: &String)
        ensures
            content@ == self@.content,
    {
        &self.content
    }

    /// Recovers the plaintext through the fallback chain. This never fails:
    /// text that neither decrypts nor decodes is handed back as its own bytes.
    pub fn get_content(&self) -> (bytes: Vec<u8>)
        ensures
            bytes@ == self.plaintext(),
    {
        let decrypted = decrypt(self.key.as_str(), self.content.as_str());
        let decoded = if decrypted.is_none() && self.fallback
            == FallbackPolicy::CipherThenBase64ThenRaw {
            decode_base64(self.content.as_str())
        } else {
            None
        };
        recover(decrypted, decoded, self.content.as_str())
    }

    /// The plaintext as a string, if it is valid UTF-8.
    pub fn get_content_to_string(&self) -> (text: Result<String, FromUtf8Error>)
        ensures
            text is Ok <==> valid_utf8(self.plaintext()),
            text matches Ok(s) ==> s@ == decode_utf8(self.plaintext()),
    {
        String::from_utf8(self.get_content())
    }

    /// The plaintext as a string, with a marker in place of each invalid UTF-8
    /// sequence.
    pub fn get_content_to_string_forced(&self) -> (text: String)
        ensures
            text@ == utf8_lossy(self.plaintext()),
            valid_utf8(self.plaintext()) ==> text@ == decode_utf8(self.plaintext()),
            !valid_utf8(self.plaintext()) ==> text@.contains(replacement_marker()),
    {
        let bytes = self.get_content();
        decode_utf8_lossy(bytes.as_slice())
    }

    /// Replaces the whole plaintext: encrypts `bytes` under the key and stores
    /// the result. Reading the file back yields `bytes` again.
    pub fn replace_content(&mut self, bytes: &[u8])
        ensures
            final(self)@ == (FileState {
                content: encrypted_base64(old(self)@.key, bytes@),
                ..old(self)@
            }),
            decrypted_base64(final(self)@.key, final(self)@.content) == Some(bytes@),
            final(self).plaintext() == bytes@,
    {
        self.content = encrypt(self.key.as_str(), bytes);
    }

    /// Copies the plaintext into `buf` in one piece, as far as `buf` reaches,
    /// and returns the number of bytes copied.
    pub fn read(&self, buf: &mut [u8]) -> (n: usize)
        ensures
            n == shorter(self.plaintext().len() as int, old(buf)@.len() as int),
            final(buf)@ == filled(self.plaintext(), old(buf)@),
    {
        let bytes = self.get_content();
        fill(bytes.as_slice(), buf)
    }

    /// Appends the plaintext to `buf` if it is valid UTF-8, and returns its
    /// length in bytes. Otherwise `buf` is left as it was.
    pub fn read_to_string(&self, buf: &mut String) -> (n: Result<usize, StreamError>)
        ensures
            n is Ok <==> valid_utf8(self.plaintext()),
            n matches Ok(len) ==> len == self.plaintext().len() && final(buf)@ == old(buf)@
                + decode_utf8(self.plaintext()),
            n matches Err(e) ==> e == StreamError::InvalidData && final(buf)@ == old(buf)@,
    {
        let bytes = self.get_content();
        let len = bytes.len();
        match String::from_utf8(bytes) {
            Ok(text) => {
                buf.append(text.as_str());
                Ok(len)
            },
            Err(_) => Err(StreamError::InvalidData),
        }
    }

    /// Lays `buf` over the plaintext from the start, extending it where `buf`
    /// is the longer, and stores the result encrypted. The whole of `buf` is
    /// always written.
    pub fn write(&mut self, buf: &[u8]) -> (n: usize)
        ensures
            n == buf@.len(),
            final(self)@ == (FileState {
                content: encrypted_base64(
                    old(self)@.key,
                    overwritten(old(self).plaintext(), buf@),
                ),
                ..old(self)@
            }),
            final(self).plaintext() == overwritten(old(self).plaintext(), buf@),
    {
        let mut bytes = self.get_content();
        let n = overwrite(&mut bytes, buf);
        self.replace_content(bytes.as_slice());
        n
    }

    /// Does nothing: every write is stored at once.
    pub fn flush(&mut self)
        ensures
            final(self)@ == old(self)@,
    {
    }

    /// The text form of the file: the plaintext with invalid UTF-8 replaced,
    /// or the length of the plaintext in decimal, as the render policy says.
    pub fn render(&self) -> (text: String)
        ensures
            self@.render == RenderPolicy::AsText ==> text@ == utf8_lossy(self.plaintext()),
            self@.render == RenderPolicy::AsLength ==> text@ == decimal(self.plaintext().len()),
    {
        match self.render {
            RenderPolicy::AsText => self.get_content_to_string_forced(),
            RenderPolicy::AsLength => to_decimal(self.get_content().len()),
        }
    }
}

} // verus!
