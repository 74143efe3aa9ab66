//! The calls into outside code that the format relies on, each behind a
//! trusted contract.
//!
//! Nothing in this module is proved: each item states what the outside
//! function's source or documentation shows, and the verified code of the
//! crate rests on those statements.
use vstd::prelude::*;
use vstd::utf8::*;

use unicode_normalization::UnicodeNormalization;
use zeroize::Zeroize;
use chacha20poly1305::aead::Aead;
use chacha20poly1305::KeyInit;

use argon2::Error as Argon2Error;
use chacha20poly1305::Error as AeadError;
use getrandom::Error as RandomError;

use crate::header::{KEY_LEN, NONCE_LEN, SALT_LEN, TAG_LEN};

verus! {

/// The error type of the `argon2` crate.
#[verifier::external_type_specification]
#[verifier::external_body]
pub struct ExArgon2Error(Argon2Error);

/// The error type of the AEAD traits (`aead::Error`).
#[verifier::external_type_specification]
#[verifier::external_body]
pub struct ExAeadError(AeadError);

/// The error type of the `getrandom` crate.
#[verifier::external_type_specification]
#[verifier::external_body]
pub struct ExRandomError(RandomError);

/// The 32-byte Argon2id (version 0x13) output for these inputs, with an empty
/// secret key and empty associated data.
pub uninterp spec fn argon2id_v13(
    password: Seq<u8>,
    salt: Seq<u8>,
    memory_kib: u32,
    iterations: u32,
    parallelism: u32,
) -> Seq<u8>;

/// The XChaCha20-Poly1305 sealing of `plaintext` under `key` and `nonce`,
/// authenticating `aad`: the ciphertext followed by the 16-byte tag.
pub uninterp spec fn xchacha20poly1305_seal(
    key: Seq<u8>,
    nonce: Seq<u8>,
    plaintext: Seq<u8>,
    aad: Seq<u8>,
) -> Seq<u8>;

/// The XChaCha20-Poly1305 opening of `sealed` under `key` and `nonce`,
/// authenticating `aad`: the plaintext when the tag verifies, `None` when it
/// does not or when the input is longer than the cipher accepts.
pub uninterp spec fn xchacha20poly1305_open(
    key: Seq<u8>,
    nonce: Seq<u8>,
    sealed: Seq<u8>,
    aad: Seq<u8>,
) -> Option<Seq<u8>>;

/// The Unicode canonical composition (NFC) of a character sequence.
pub uninterp spec fn nfc(chars: Seq<char>) -> Seq<char>;

/// Derives a 32-byte key with `argon2::Argon2::hash_password_into`, using
/// Argon2id, version 0x13 and parameters built by `argon2::Params::new`.
///
/// Claimed: with parameters that `Params::new` accepts (memory at least
/// `8 * parallelism`, at least one iteration and one lane) and a 16-byte salt,
/// the call fails only for a password longer than `u32::MAX` bytes, and the
/// key is the Argon2id output for these inputs.
#[verifier::external_body]
pub(crate) fn argon2id_hash(
    password: &[u8],
    salt: &[u8; SALT_LEN],
    memory_kib: u32,
    iterations: u32,
    parallelism: u32,
) -> (res: Result<[u8; KEY_LEN], Argon2Error>)
    requires
        1 <= parallelism <= 0xFFFFFF,
        8 * parallelism <= memory_kib,
        1 <= iterations,
    ensures
        res is Ok <==> password@.len() <= 0xFFFF_FFFF,
        res matches Ok(key) ==> key@ == argon2id_v13(
            password@,
            salt@,
            memory_kib,
            iterations,
            parallelism,
        ),
{
    let params = argon2::Params::new(memory_kib, iterations, parallelism, Some(KEY_LEN))?;
    let mut key = [0u8; KEY_LEN];
    argon2::Argon2::new(argon2::Algorithm::Argon2id, argon2::Version::V0x13, params)
        .hash_password_into(password, salt, &mut key)?;
    Ok(key)
}

/// Seals `plaintext` with `chacha20poly1305::XChaCha20Poly1305::encrypt`.
///
/// Claimed: the call fails only when the plaintext spans `u32::MAX` blocks
/// of 64 bytes or more; otherwise it returns the sealing of the plaintext,
/// which is as long as the plaintext plus the 16-byte tag, and which opens
/// again under the same key, nonce and associated data to the plaintext.
#[verifier::external_body]
pub(crate) fn aead_seal(
    key: &[u8; KEY_LEN],
    nonce: &[u8; NONCE_LEN],
    plaintext: &[u8],
    aad: &[u8],
) -> (res: Result<Vec<u8>, AeadError>)
    ensures
        res is Ok <==> plaintext@.len() / 64 < u32::MAX,
        res matches Ok(sealed) ==> sealed@ == xchacha20poly1305_seal(
            key@,
            nonce@,
            plaintext@,
            aad@,
        ),
        res matches Ok(sealed) ==> sealed@.len() == plaintext@.len() + TAG_LEN,
        res matches Ok(sealed) ==> xchacha20poly1305_open(key@, nonce@, sealed@, aad@) == Some(
            plaintext@,
        ),
{
    let cipher = chacha20poly1305::XChaCha20Poly1305::new(key.into());
    cipher.encrypt(nonce.into(), chacha20poly1305::aead::Payload { msg: plaintext, aad })
}

/// Opens `sealed` with `chacha20poly1305::XChaCha20Poly1305::decrypt`.
///
/// Claimed: the call succeeds exactly when the opening of `sealed` under this
/// key, nonce and associated data is defined (the tag verifies), and returns
/// that opening.
#[verifier::external_body]
pub(crate) fn aead_open(
    key: &[u8; KEY_LEN],
    nonce: &[u8; NONCE_LEN],
    sealed: &[u8],
    aad: &[u8],
) -> (res: Result<Vec<u8>, AeadError>)
    ensures
        res is Ok <==> xchacha20poly1305_open(key@, nonce@, sealed@, aad@) is Some,
        res matches Ok(plaintext) ==> xchacha20poly1305_open(key@, nonce@, sealed@, aad@) == Some(
            plaintext@,
        ),
{
    let cipher = chacha20poly1305::XChaCha20Poly1305::new(key.into());
    cipher.decrypt(nonce.into(), chacha20poly1305::aead::Payload { msg: sealed, aad })
}

/// Fills an array from the system entropy source with `getrandom::fill`.
///
/// Nothing is claimed of the bytes: they are random.
#[verifier::external_body]
pub(crate) fn random_array<const N: usize>() -> (res: Result<[u8; N], RandomError>) {
    let mut buf = [0u8; N];
    getrandom::fill(&mut buf)?;
    Ok(buf)
}

/// Composes characters to Unicode normalization form C with
/// `unicode_normalization::UnicodeNormalization::nfc`.
///
/// Claimed: the result is the NFC form of the input.
#[verifier::external_body]
pub(crate) fn nfc_compose(chars: &Vec<char>) -> (res: String)
    ensures
        res@ == nfc(chars@),
{
    chars.iter().copied().nfc().collect()
}

/// Overwrites a key with zeros through `zeroize::Zeroize::zeroize`.
///
/// Claimed: every byte of the key is zero afterwards.
#[verifier::external_body]
pub(crate) fn wipe_key(key: &mut [u8; KEY_LEN])
    ensures
        final(key)@ == Seq::new(KEY_LEN as nat, |i: int| 0u8),
{
    key.zeroize();
}

/// Overwrites a buffer with zeros and empties it through
/// `zeroize::Zeroize::zeroize`.
///
/// Claimed: the buffer is empty afterwards.
#[verifier::external_body]
pub(crate) fn wipe_bytes(buf: &mut Vec<u8>)
    ensures
        final(buf)@.len() == 0,
{
    buf.zeroize();
}

/// Overwrites characters with zeros and empties the vector through
/// `zeroize::Zeroize::zeroize`.
///
/// Claimed: the vector is empty afterwards.
#[verifier::external_body]
pub(crate) fn wipe_chars(chars: &mut Vec<char>)
    ensures
        final(chars)@.len() == 0,
{
    chars.zeroize();
}

/// Overwrites a string with zeros and empties it through
/// `zeroize::Zeroize::zeroize`.
///
/// Claimed: the string is empty afterwards.
#[verifier::external_body]
pub(crate) fn wipe_text(text: &mut String)
    ensures
        final(text)@.len() == 0,
{
    text.zeroize();
}

/// Reads bytes as UTF-8 text with `core::str::from_utf8`.
///
/// Claimed: the bytes are accepted exactly when they are valid UTF-8, and the
/// text is then the characters that they encode.
#[verifier::external_body]
pub(crate) fn utf8_text(bytes: &[u8]) -> (res: Option<&str>)
    ensures
        res is Some <==> valid_utf8(bytes@),
        res matches Some(text) ==> text@ == decode_utf8(bytes@),
{
    core::str::from_utf8(bytes).ok()
}

} // verus!
