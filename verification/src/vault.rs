//! Encryption and decryption of format version 2.
use vstd::prelude::*;
use vstd::utf8::*;

use crate::error::{Error, Result};
use crate::header::{
    be_u32_bytes, be_u32_value, header_bytes, header_error, header_of, lemma_be_u32_roundtrip,
    lemma_header_decode_encode, magic_seq, Header, KdfParams, BLOCK_LEN, HEADER_LEN, KEY_LEN,
    LEN_PREFIX,
    MAGIC, NONCE_LEN, SALT_LEN, TAG_LEN, VERSION,
};
use crate::password::{prepare, prepared_password};
use crate::primitives::{
    aead_open, aead_seal, argon2id_hash, argon2id_v13, random_array, utf8_text, wipe_bytes,
    wipe_key, xchacha20poly1305_open, xchacha20poly1305_seal,
};

verus! {

broadcast use {vstd::utf8::encode_utf8_valid_utf8, vstd::utf8::encode_utf8_decode_utf8};

/// Smallest size of a version-2 file: header, one block and tag (4176 bytes).
pub const MIN_FILE_LEN: usize = HEADER_LEN + BLOCK_LEN + TAG_LEN;

/// Number of 4096-byte blocks that hold the length prefix and a content of
/// `content_len` bytes: at least one.
pub open spec fn block_count(content_len: nat) -> nat {
    (content_len + 4099) as nat / 4096
}

/// Size of the padded inner plaintext for a content of `content_len` bytes.
pub open spec fn padded_len(content_len: nat) -> nat {
    block_count(content_len) * 4096
}

/// The inner plaintext: `u32(len) || content || zero padding`, padded to a
/// multiple of 4096 bytes.
pub open spec fn inner_plaintext(content: Seq<u8>) -> Seq<u8> {
    be_u32_bytes(content.len() as u32) + content + Seq::new(
        (padded_len(content.len()) - 4 - content.len()) as nat,
        |i: int| 0u8,
    )
}

/// The content that an inner plaintext carries, or why it is refused.
pub open spec fn content_of(plaintext: Seq<u8>) -> Result<Seq<char>> {
    if plaintext.len() < 4 {
        Err(Error::MalformedPlaintext)
    } else if be_u32_value(plaintext.subrange(0, 4)) > plaintext.len() - 4 {
        Err(Error::MalformedPlaintext)
    } else {
        let content = plaintext.subrange(4, 4 + be_u32_value(plaintext.subrange(0, 4)));
        if valid_utf8(content) {
            Ok(decode_utf8(content))
        } else {
            Err(Error::InvalidUtf8)
        }
    }
}

/// Whether a content of `content_len` bytes fits the length field and an
/// addressable buffer once padded.
pub open spec fn content_fits(content_len: nat) -> bool {
    content_len <= u32::MAX && padded_len(content_len) <= usize::MAX
}

/// The padding hides the content length: the inner plaintext is a whole
/// number of blocks, at least one, and begins with the length field.
pub proof fn lemma_inner_plaintext_shape(content: Seq<u8>)
    requires
        content.len() <= u32::MAX,
    ensures
        inner_plaintext(content).len() == padded_len(content.len()),
        padded_len(content.len()) % 4096 == 0,
        padded_len(content.len()) >= 4096,
        padded_len(content.len()) >= content.len() + 4,
        padded_len(content.len()) < content.len() + 4 + 4096,
{
    let n = content.len();
    assert(block_count(n) * 4096 >= n + 4 && block_count(n) * 4096 < n + 4 + 4096) by (
    nonlinear_arith)
        requires
            block_count(n) == (n + 4099) / 4096,
    {
    }
    assert((block_count(n) * 4096) % 4096 == 0) by (nonlinear_arith);
    lemma_be_u32_roundtrip(n as u32);
}

/// Reading the inner plaintext of a UTF-8 content gives back the content,
/// byte for byte.
pub proof fn lemma_content_of_inner_plaintext(content: Seq<char>)
    requires
        encode_utf8(content).len() <= u32::MAX,
    ensures
        content_of(inner_plaintext(encode_utf8(content))) == Ok::<Seq<char>, Error>(content),
{
    let bytes = encode_utf8(content);
    let p = inner_plaintext(bytes);
    lemma_inner_plaintext_shape(bytes);
    lemma_be_u32_roundtrip(bytes.len() as u32);
    assert(p.subrange(0, 4) =~= be_u32_bytes(bytes.len() as u32));
    assert(p.subrange(4, 4 + bytes.len() as int) =~= bytes);
}

/// Builds the inner plaintext of a content.
///
/// Fails with [`Error::ContentTooLarge`] when the content does not fit the
/// 32-bit length field or its padded size is not addressable.
fn build_plaintext(content: &str) -> (res: Result<Vec<u8>>)
    ensures
        res is Err <==> !content_fits(encode_utf8(content@).len()),
        res matches Err(e) ==> e == Error::ContentTooLarge,
        res matches Ok(p) ==> p@ == inner_plaintext(encode_utf8(content@)),
{
    let bytes = content.as_bytes();
    let n = bytes.len();
    if n as u64 > u32::MAX as u64 {
        return Err(Error::ContentTooLarge);
    }
    let unpadded = match n.checked_add(LEN_PREFIX) {
        Some(u) => u,
        None => {
            assert(padded_len(n as nat) >= n + 4) by (nonlinear_arith)
                requires
                    padded_len(n as nat) == ((n + 4099) as nat / 4096) * 4096,
            {
            }
            return Err(Error::ContentTooLarge);
        },
    };
    let blocks = unpadded / BLOCK_LEN + if unpadded % BLOCK_LEN != 0 {
        1usize
    } else {
        0usize
    };
    assert(blocks == block_count(n as nat)) by (nonlinear_arith)
        requires
            unpadded == n + 4,
            blocks == unpadded / 4096 + if unpadded % 4096 != 0 {
                1int
            } else {
                0int
            },
    {
    }
    let padded = match blocks.checked_mul(BLOCK_LEN) {
        Some(p) => p,
        None => {
            return Err(Error::ContentTooLarge);
        },
    };
    proof {
        lemma_inner_plaintext_shape(bytes@);
        lemma_be_u32_roundtrip(n as u32);
    }
    let len = n as u32;
    let mut buf: Vec<u8> = Vec::with_capacity(padded);
    buf.push((len / 16777216) as u8);
    buf.push(((len / 65536) % 256) as u8);
    buf.push(((len / 256) % 256) as u8);
    buf.push((len % 256) as u8);
    assert(buf@ =~= be_u32_bytes(len));
    buf.extend_from_slice(bytes);
    let ghost filled = buf@;
    assert(filled =~= be_u32_bytes(len) + bytes@);
    while buf.len() < padded
        invariant
            filled.len() == n + 4,
            n + 4 <= padded,
            padded == padded_len(n as nat),
            buf@.len() <= padded,
            buf@.len() >= n + 4,
            buf@.subrange(0, n + 4) == filled,
            forall|j: int| n + 4 <= j < buf@.len() ==> buf@[j] == 0u8,
        decreases padded - buf.len(),
    {
        buf.push(0u8);
    }
    assert(buf@ =~= inner_plaintext(bytes@));
    Ok(buf)
}

/// Reads the content out of an inner plaintext.
///
/// Checks the length field before slicing: an inconsistent field is refused,
/// never read past the buffer. The padding is not checked.
fn parse_plaintext(plaintext: &[u8]) -> (res: Result<String>)
    ensures
        match res {
            Ok(s) => content_of(plaintext@) == Ok::<Seq<char>, Error>(s@),
            Err(e) => content_of(plaintext@) == Err::<Seq<char>, Error>(e),
        },
{
    if plaintext.len() < LEN_PREFIX {
        return Err(Error::MalformedPlaintext);
    }
    let len: u32 = (plaintext[0] as u32) * 16777216 + (plaintext[1] as u32) * 65536 + (
    plaintext[2] as u32) * 256 + (plaintext[3] as u32);
    assert(len == be_u32_value(plaintext@.subrange(0, 4)));
    let available = plaintext.len() - LEN_PREFIX;
    if len as u64 > available as u64 {
        return Err(Error::MalformedPlaintext);
    }
    let len = len as usize;
    let content = vstd::slice::slice_subrange(plaintext, LEN_PREFIX, LEN_PREFIX + len);
    match utf8_text(content) {
        Some(text) => Ok(text.to_owned()),
        None => Err(Error::InvalidUtf8),
    }
}

/// The key that Argon2id derives from prepared password bytes, a salt and
/// parameters.
pub open spec fn derived_key(password: Seq<u8>, salt: Seq<u8>, kdf: KdfParams) -> Seq<u8> {
    argon2id_v13(password, salt, kdf.memory_kib, kdf.iterations, kdf.parallelism as u32)
}

/// Why deriving a key from these password bytes and parameters fails, if it
/// does.
pub open spec fn derive_error(password: Seq<u8>, kdf: KdfParams) -> Option<Error> {
    if !kdf.is_valid() {
        Some(Error::UnsupportedKdfParameters { reason: kdf.rejection()->0 })
    } else if password.len() > 0xFFFF_FFFF {
        Some(Error::KdfFailure)
    } else {
        None
    }
}

/// The sealed part of a file: the inner plaintext of `content`, encrypted
/// under the derived key and the nonce, with the header as associated data.
pub open spec fn sealed_body(
    content: Seq<u8>,
    password: Seq<u8>,
    kdf: KdfParams,
    salt: Seq<u8>,
    nonce: Seq<u8>,
) -> Seq<u8> {
    xchacha20poly1305_seal(
        derived_key(password, salt, kdf),
        nonce,
        inner_plaintext(content),
        header_bytes(kdf, salt, nonce),
    )
}

/// What a successful write produces: the header followed by the sealed body,
/// `80 + N * 4096` bytes long, whose body opens again to the inner plaintext.
pub open spec fn is_written_file(
    file: Seq<u8>,
    content: Seq<u8>,
    password: Seq<u8>,
    kdf: KdfParams,
    salt: Seq<u8>,
    nonce: Seq<u8>,
) -> bool {
    &&& file == header_bytes(kdf, salt, nonce) + sealed_body(content, password, kdf, salt, nonce)
    &&& file.len() == 64 + padded_len(content.len()) + 16
    &&& xchacha20poly1305_open(
        derived_key(password, salt, kdf),
        nonce,
        sealed_body(content, password, kdf, salt, nonce),
        header_bytes(kdf, salt, nonce),
    ) == Some(inner_plaintext(content))
}

/// Why encrypting `content` with these password bytes and parameters fails,
/// in the order of the checks, if it does. Empty password bytes are refused
/// first, before any derivation.
pub open spec fn encrypt_error(content: Seq<u8>, password: Seq<u8>, kdf: KdfParams) -> Option<
    Error,
> {
    if password.len() == 0 {
        Some(Error::EmptyPassword)
    } else if derive_error(password, kdf) is Some {
        derive_error(password, kdf)
    } else if !content_fits(content.len()) {
        Some(Error::ContentTooLarge)
    } else if padded_len(content.len()) / 64 >= u32::MAX {
        Some(Error::DecryptionFailed)
    } else {
        None
    }
}

/// Whether a file size is `80 + N * 4096` with `N >= 1`.
pub open spec fn valid_file_len(len: nat) -> bool {
    len >= 4176 && (len - 80) % 4096 == 0
}

/// The outcome of decrypting `file` with `password`: the document, or the
/// first check that fails.
pub open spec fn decrypt_result(file: Seq<u8>, password: Seq<char>) -> Result<Seq<char>> {
    if !valid_file_len(file.len()) {
        Err(Error::InvalidLength { actual: file.len() as usize })
    } else if header_error(file.subrange(0, 64)) is Some {
        Err(header_error(file.subrange(0, 64))->0)
    } else if password.len() == 0 {
        Err(Error::EmptyPassword)
    } else if prepared_password(password).len() > 0xFFFF_FFFF {
        Err(Error::KdfFailure)
    } else {
        let header = header_of(file.subrange(0, 64));
        match xchacha20poly1305_open(
            derived_key(prepared_password(password), header.salt, header.kdf),
            header.nonce,
            file.subrange(64, file.len() as int),
            file.subrange(0, 64),
        ) {
            None => Err(Error::DecryptionFailed),
            Some(plaintext) => content_of(plaintext),
        }
    }
}

/// Derives the 256-bit key from prepared password bytes and the salt.
///
/// Argon2id version 0x13 is forced: version 0x10 gives another output.
fn derive_key(password_bytes: &[u8], salt: &[u8; SALT_LEN], kdf: &KdfParams) -> (res: Result<
    [u8; KEY_LEN],
>)
    ensures
        res is Err <==> derive_error(password_bytes@, *kdf) is Some,
        res matches Err(e) ==> derive_error(password_bytes@, *kdf) == Some(e),
        res matches Ok(key) ==> key@ == derived_key(password_bytes@, salt@, *kdf),
{
    kdf.validate()?;
    match argon2id_hash(
        password_bytes,
        salt,
        kdf.memory_kib,
        kdf.iterations,
        kdf.parallelism as u32,
    ) {
        Ok(key) => Ok(key),
        Err(_) => Err(Error::KdfFailure),
    }
}

/// Encrypts a document with the default parameters of this version.
///
/// The content is stored byte for byte: no Unicode normalization, no line
/// ending conversion. Only the password is prepared.
pub fn encrypt(content: &str, pass: &str) -> (res: Result<Vec<u8>>)
    ensures
        write_outcome(content@, pass@, KdfParams::spec_default(), res),
{
    encrypt_with_params(content, pass, KdfParams::default())
}

/// What holds of the outcome of writing `content` with `pass` and `kdf`,
/// whatever the entropy source gave: the password and parameter checks come
/// first; any later failure is one that the inputs call for, or an
/// unavailable entropy source; a success is a written file for some 16-byte
/// salt and 24-byte nonce, which decrypts with `pass` to `content`.
pub open spec fn write_outcome(
    content: Seq<char>,
    pass: Seq<char>,
    kdf: KdfParams,
    res: Result<Vec<u8>>,
) -> bool {
    let bytes = encode_utf8(content);
    let password = prepared_password(pass);
    &&& pass.len() == 0 ==> res == Err::<Vec<u8>, Error>(Error::EmptyPassword)
    &&& pass.len() > 0 && !kdf.is_valid() ==> res == Err::<Vec<u8>, Error>(
        Error::UnsupportedKdfParameters { reason: kdf.rejection()->0 },
    )
    &&& encrypt_error(bytes, password, kdf) is Some ==> res is Err
    &&& res matches Err(e) ==> {
        ||| pass.len() == 0
        ||| !kdf.is_valid()
        ||| e == Error::RandomSourceUnavailable
        ||| encrypt_error(bytes, password, kdf) == Some(e)
    }
    &&& res matches Ok(file) ==> pass.len() > 0 && kdf.is_valid() && encrypt_error(
        bytes,
        password,
        kdf,
    ) is None && exists|salt: Seq<u8>, nonce: Seq<u8>|
        salt.len() == 16 && nonce.len() == 24 && #[trigger] is_written_file(
            file@,
            bytes,
            password,
            kdf,
            salt,
            nonce,
        )
    &&& res matches Ok(file) ==> decrypt_result(file@, pass) == Ok::<Seq<char>, Error>(content)
}

/// Encrypts a document with explicit Argon2id parameters.
///
/// Meant for tests and reference vectors: the normal path is [`encrypt`],
/// which applies the hardened defaults.
pub fn encrypt_with_params(content: &str, pass: &str, kdf: KdfParams) -> (res: Result<Vec<u8>>)
    ensures
        write_outcome(content@, pass@, kdf, res),
{
    let mut password_bytes = prepare(pass)?;
    if let Err(e) = kdf.validate() {
        wipe_bytes(&mut password_bytes);
        return Err(e);
    }
    let salt: [u8; SALT_LEN] = match fill_random() {
        Ok(salt) => salt,
        Err(e) => {
            wipe_bytes(&mut password_bytes);
            return Err(e);
        },
    };
    let nonce: [u8; NONCE_LEN] = match fill_random() {
        Ok(nonce) => nonce,
        Err(e) => {
            wipe_bytes(&mut password_bytes);
            return Err(e);
        },
    };
    let res = encrypt_deterministic(content, password_bytes.as_slice(), kdf, salt, nonce);
    wipe_bytes(&mut password_bytes);
    proof {
        if let Ok(file) = &res {
            assert(is_written_file(
                file@,
                encode_utf8(content@),
                prepared_password(pass@),
                kdf,
                salt@,
                nonce@,
            ));
            lemma_decrypt_after_encrypt(file@, content@, pass@, kdf, salt@, nonce@);
        }
    }
    res
}

/// Encrypts with an imposed salt and nonce.
///
/// Reserved for reference vectors: reusing a (key, nonce) pair on two
/// different contents ruins confidentiality.
pub fn encrypt_deterministic(
    content: &str,
    password_bytes: &[u8],
    kdf: KdfParams,
    salt: [u8; SALT_LEN],
    nonce: [u8; NONCE_LEN],
) -> (res: Result<Vec<u8>>)
    ensures
        res is Err <==> encrypt_error(encode_utf8(content@), password_bytes@, kdf) is Some,
        res matches Err(e) ==> encrypt_error(encode_utf8(content@), password_bytes@, kdf) == Some(
            e,
        ),
        res matches Ok(file) ==> is_written_file(
            file@,
            encode_utf8(content@),
            password_bytes@,
            kdf,
            salt@,
            nonce@,
        ),
        res matches Ok(file) ==> forall|pass: Seq<char>|
            pass.len() > 0 && prepared_password(pass) == password_bytes@ ==> #[trigger] decrypt_result(
                file@,
                pass,
            ) == Ok::<Seq<char>, Error>(content@),
{
    if password_bytes.len() == 0 {
        return Err(Error::EmptyPassword);
    }
    let mut key = derive_key(password_bytes, &salt, &kdf)?;
    let header = Header { kdf, salt, nonce };
    let header_bytes = header.encode();
    let mut plaintext = match build_plaintext(content) {
        Ok(p) => p,
        Err(e) => {
            wipe_key(&mut key);
            return Err(e);
        },
    };
    proof {
        lemma_inner_plaintext_shape(encode_utf8(content@));
    }
    let sealed = aead_seal(&key, &nonce, plaintext.as_slice(), header_bytes.as_slice());
    wipe_key(&mut key);
    wipe_bytes(&mut plaintext);
    let sealed = match sealed {
        Ok(s) => s,
        Err(_) => {
            return Err(Error::DecryptionFailed);
        },
    };
    let mut out: Vec<u8> = Vec::new();
    out.extend_from_slice(header_bytes.as_slice());
    out.extend_from_slice(sealed.as_slice());
    assert(out@ =~= header_bytes@ + sealed@);
    proof {
        assert forall|pass: Seq<char>|
            pass.len() > 0 && prepared_password(pass) == password_bytes@ implies #[trigger] decrypt_result(
            out@,
            pass,
        ) == Ok::<Seq<char>, Error>(content@) by {
            lemma_decrypt_after_encrypt(out@, content@, pass, kdf, salt@, nonce@);
        }
    }
    Ok(out)
}

/// Decrypts a version-2 file.
///
/// Size and header are checked before any derivation. A failed tag is
/// reported as [`Error::DecryptionFailed`], which covers both a wrong
/// password and an altered file.
pub fn decrypt(file: &[u8], pass: &str) -> (res: Result<String>)
    ensures
        match res {
            Ok(s) => decrypt_result(file@, pass@) == Ok::<Seq<char>, Error>(s@),
            Err(e) => decrypt_result(file@, pass@) == Err::<Seq<char>, Error>(e),
        },
{
    if file.len() < MIN_FILE_LEN || (file.len() - HEADER_LEN - TAG_LEN) % BLOCK_LEN != 0 {
        return Err(Error::InvalidLength { actual: file.len() });
    }
    let header_part = vstd::slice::slice_subrange(file, 0, HEADER_LEN);
    let header = Header::decode(header_part)?;
    let mut password_bytes = prepare(pass)?;
    let derived = derive_key(password_bytes.as_slice(), &header.salt, &header.kdf);
    wipe_bytes(&mut password_bytes);
    let mut key = derived?;
    let body = vstd::slice::slice_subrange(file, HEADER_LEN, file.len());
    let opened = aead_open(&key, &header.nonce, body, header_part);
    wipe_key(&mut key);
    let mut plaintext = match opened {
        Ok(p) => p,
        Err(_) => {
            return Err(Error::DecryptionFailed);
        },
    };
    let res = parse_plaintext(plaintext.as_slice());
    wipe_bytes(&mut plaintext);
    res
}

/// Fills an array from the system entropy source.
///
/// A failure is reported rather than ignored: a predictable salt or nonce
/// would be far worse than a visible error.
fn fill_random<const N: usize>() -> (res: Result<[u8; N]>)
    ensures
        res matches Err(e) ==> e == Error::RandomSourceUnavailable,
{
    match random_array::<N>() {
        Ok(bytes) => Ok(bytes),
        Err(_) => Err(Error::RandomSourceUnavailable),
    }
}

/// Reading back a written file with the password that wrote it gives the
/// document, byte for byte.
pub proof fn lemma_decrypt_after_encrypt(
    file: Seq<u8>,
    content: Seq<char>,
    password: Seq<char>,
    kdf: KdfParams,
    salt: Seq<u8>,
    nonce: Seq<u8>,
)
    requires
        password.len() > 0,
        kdf.is_valid(),
        salt.len() == 16,
        nonce.len() == 24,
        encrypt_error(encode_utf8(content), prepared_password(password), kdf) is None,
        is_written_file(file, encode_utf8(content), prepared_password(password), kdf, salt, nonce),
    ensures
        decrypt_result(file, password) == Ok::<Seq<char>, Error>(content),
{
    let bytes = encode_utf8(content);
    let pw = prepared_password(password);
    lemma_inner_plaintext_shape(bytes);
    lemma_header_decode_encode(kdf, salt, nonce);
    lemma_content_of_inner_plaintext(content);
    let h = header_bytes(kdf, salt, nonce);
    assert(file.subrange(0, 64) =~= h);
    assert(file.subrange(64, file.len() as int) =~= sealed_body(bytes, pw, kdf, salt, nonce));
    let n = padded_len(bytes.len());
    assert(valid_file_len(file.len())) by (nonlinear_arith)
        requires
            file.len() == 64 + n + 16,
            n % 4096 == 0,
            n >= 4096,
    {
    }
}

/// Description of a file, readable without the password.
///
/// The header is plaintext by design: these values are not secret, and they
/// say nothing of the content beyond what the file size already shows.
#[derive(Debug, Clone, PartialEq, Eq)]
pub struct FileInfo {
    /// Format version.
    pub version: u8,
    /// Derivation parameters used at the last write.
    pub kdf: KdfParams,
    /// Total file size, in bytes.
    pub file_len: usize,
    /// Number of padding blocks.
    pub blocks: usize,
}

/// Reads the header of a file without deriving a key or decrypting.
pub fn inspect(file: &[u8]) -> (res: Result<FileInfo>)
    ensures
        !valid_file_len(file@.len()) ==> res == Err::<FileInfo, Error>(
            Error::InvalidLength { actual: file@.len() as usize },
        ),
        valid_file_len(file@.len()) && header_error(file@.subrange(0, 64)) is Some ==> res
            == Err::<FileInfo, Error>(header_error(file@.subrange(0, 64))->0),
        res is Ok <==> valid_file_len(file@.len()) && header_error(file@.subrange(0, 64)) is None,
        res matches Ok(info) ==> info == (FileInfo {
            version: 2,
            kdf: header_of(file@.subrange(0, 64)).kdf,
            file_len: file@.len() as usize,
            blocks: ((file@.len() - 80) / 4096) as usize,
        }),
{
    if file.len() < MIN_FILE_LEN || (file.len() - HEADER_LEN - TAG_LEN) % BLOCK_LEN != 0 {
        return Err(Error::InvalidLength { actual: file.len() });
    }
    let header = Header::decode(vstd::slice::slice_subrange(file, 0, HEADER_LEN))?;
    Ok(
        FileInfo {
            version: VERSION,
            kdf: header.kdf,
            file_len: file.len(),
            blocks: (file.len() - HEADER_LEN - TAG_LEN) / BLOCK_LEN,
        },
    )
}

/// Tells whether the file carries the signature of format version 2.
///
/// Lets a caller refuse early, with a clear message, a file that is not a
/// vault, without paying for a key derivation.
pub fn is_v2(file: &[u8]) -> (res: bool)
    ensures
        res == (file@.len() >= 8 && file@.subrange(0, 8) == magic_seq()),
{
    if file.len() < 8 {
        return false;
    }
    let mut i: usize = 0;
    while i < 8
        invariant
            i <= 8,
            file@.len() >= 8,
            forall|j: int| 0 <= j < i ==> file@[j] == magic_seq()[j],
        decreases 8 - i,
    {
        if file[i] != MAGIC[i] {
            assert(file@.subrange(0, 8)[i as int] != magic_seq()[i as int]);
            return false;
        }
        i = i + 1;
    }
    assert(file@.subrange(0, 8) =~= magic_seq());
    true
}

/// Inspecting a written file shows, without the password, the parameters it
/// was written with and as many blocks as the document needs: the length of
/// the document shows only through its block count.
pub proof fn lemma_inspect_written_file(
    file: Seq<u8>,
    content: Seq<u8>,
    password: Seq<u8>,
    kdf: KdfParams,
    salt: Seq<u8>,
    nonce: Seq<u8>,
)
    requires
        kdf.is_valid(),
        salt.len() == 16,
        nonce.len() == 24,
        content.len() <= u32::MAX,
        is_written_file(file, content, password, kdf, salt, nonce),
    ensures
        valid_file_len(file.len()),
        header_error(file.subrange(0, 64)) is None,
        header_of(file.subrange(0, 64)).kdf == kdf,
        (file.len() - 80) / 4096 == block_count(content.len()),
        file.len() == 80 + block_count(content.len()) * 4096,
        file.len() >= 8 && file.subrange(0, 8) == magic_seq(),
{
    lemma_inner_plaintext_shape(content);
    lemma_header_decode_encode(kdf, salt, nonce);
    assert(file.subrange(0, 64) =~= header_bytes(kdf, salt, nonce));
    assert(file.subrange(0, 8) =~= magic_seq());
    let b = block_count(content.len());
    assert(valid_file_len(file.len()) && (file.len() - 80) / 4096 == b) by (nonlinear_arith)
        requires
            file.len() == 80 + b * 4096,
            b >= 1,
    {
    }
}

/// Decryption sees a password only through its prepared bytes: two non-empty
/// passwords that prepare alike open the same files with the same outcome.
pub proof fn lemma_decrypt_sees_prepared_password(file: Seq<u8>, a: Seq<char>, b: Seq<char>)
    requires
        a.len() > 0,
        b.len() > 0,
        prepared_password(a) == prepared_password(b),
    ensures
        decrypt_result(file, a) == decrypt_result(file, b),
{
}

/// Any document of at most `u32::MAX` bytes whose padded size stays
/// addressable is accepted: with a non-empty password of at most
/// `u32::MAX` bytes and valid parameters, encryption raises no error at all,
/// in particular not `ContentTooLarge`.
pub proof fn lemma_documents_up_to_u32_max_are_accepted(
    content: Seq<u8>,
    password: Seq<u8>,
    kdf: KdfParams,
)
    requires
        content.len() <= u32::MAX,
        content.len() + 4100 <= usize::MAX,
        1 <= password.len() <= 0xFFFF_FFFF,
        kdf.is_valid(),
    ensures
        content_fits(content.len()),
        encrypt_error(content, password, kdf) is None,
{
    lemma_inner_plaintext_shape(content);
    let p = padded_len(content.len());
    assert(p / 64 < u32::MAX) by (nonlinear_arith)
        requires
            p < content.len() + 4100,
            content.len() <= u32::MAX,
    {
    }
}

/// Key derivation refuses a password only for its length beyond
/// `u32::MAX` bytes: with valid parameters, any shorter password derives a
/// key, however long it is.
pub proof fn lemma_derivation_accepts_passwords_up_to_u32_max(password: Seq<u8>, kdf: KdfParams)
    requires
        kdf.is_valid(),
        password.len() <= 0xFFFF_FFFF,
    ensures
        derive_error(password, kdf) is None,
{
}

/// Decryption never fails for the key derivation when the prepared password
/// is at most `u32::MAX` bytes long: long passphrases open their files.
pub proof fn lemma_decrypt_derives_for_usual_passwords(file: Seq<u8>, password: Seq<char>)
    requires
        prepared_password(password).len() <= 0xFFFF_FFFF,
    ensures
        decrypt_result(file, password) != Err::<Seq<char>, Error>(Error::KdfFailure),
{
    if valid_file_len(file.len()) && header_error(file.subrange(0, 64)) is None && password.len()
        > 0 {
        let header = header_of(file.subrange(0, 64));
        match xchacha20poly1305_open(
            derived_key(prepared_password(password), header.salt, header.kdf),
            header.nonce,
            file.subrange(64, file.len() as int),
            file.subrange(0, 64),
        ) {
            None => {},
            Some(plaintext) => {
                assert(content_of(plaintext) != Err::<Seq<char>, Error>(Error::KdfFailure));
            },
        }
    }
}

/// The inner plaintext starts with the content length as four big-endian
/// bytes, carries the content right after them and is zero to the end.
pub proof fn lemma_inner_plaintext_layout(content: Seq<u8>)
    requires
        content.len() <= u32::MAX,
    ensures
        be_u32_value(inner_plaintext(content).subrange(0, 4)) == content.len(),
        inner_plaintext(content).subrange(4, 4 + content.len() as int) == content,
        forall|i: int|
            4 + content.len() <= i < inner_plaintext(content).len() ==> #[trigger] inner_plaintext(
                content,
            )[i] == 0,
{
    lemma_inner_plaintext_shape(content);
    lemma_be_u32_roundtrip(content.len() as u32);
    let p = inner_plaintext(content);
    assert(p.subrange(0, 4) =~= be_u32_bytes(content.len() as u32));
    assert(p.subrange(4, 4 + content.len() as int) =~= content);
}

} // verus!
