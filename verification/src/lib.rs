//! An in-memory file whose stored form is encrypted and base64-encoded.
//!
//! The stored text is the single source of truth: every read recovers the
//! plaintext from it through an ordered chain of decode attempts, and every
//! write re-encrypts and replaces it.

pub mod blob;
pub mod chain;
pub mod cipher;
pub mod codec;
pub mod file;
pub mod render;
pub mod stream;

pub use chain::FallbackPolicy;
pub use file::InnerFile;
pub use render::RenderPolicy;
pub use stream::StreamError;
