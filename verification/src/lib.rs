//! The `.coocrypt` vault format, version 2.
//!
//! A vault is one Markdown document encrypted into a single self-contained
//! file:
//!
//! ```text
//! 64-byte header (plaintext, authenticated) || ciphertext (N x 4096) || 16-byte tag
//! ```
//!
//! Keys are derived with Argon2id v0x13, the document is sealed with
//! XChaCha20-Poly1305 and padded to a multiple of 4096 bytes. This crate works
//! on buffers only: reading and writing files is left to the caller.
use vstd::prelude::*;

pub mod assoc;
pub mod cli;
pub mod desktop;
pub mod error;
pub mod header;
pub mod launch;
pub mod password;
pub mod primitives;
pub mod session;
pub mod vault;

pub use error::{Error, Result};
pub use header::{
    KdfParams, Header, HeaderView, BLOCK_LEN, HEADER_LEN, KEY_LEN, LEN_PREFIX, MAGIC, NONCE_LEN,
    SALT_LEN, TAG_LEN, VERSION, KDF_ARGON2ID, AEAD_XCHACHA20POLY1305,
};
pub use vault::{
    decrypt, encrypt, encrypt_deterministic, encrypt_with_params, inspect, is_v2, FileInfo,
    MIN_FILE_LEN,
};

verus! {

/// Prepares a password as format version 2 does: Unicode spaces mapped to the
/// ASCII space, then NFC, then UTF-8.
///
/// Exposed for the reference vectors, which fix this step like the rest.
pub fn prepare_password(pass: &str) -> (res: Result<Vec<u8>>)
    ensures
        res is Err <==> pass@.len() == 0,
        res matches Err(e) ==> e == Error::EmptyPassword,
        res matches Ok(bytes) ==> bytes@ == password::prepared_password(pass@),
{
    password::prepare(pass)
}

} // verus!
