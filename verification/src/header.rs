//! The 64-byte plaintext header of format version 2.
//!
//! ```text
//! Offset  Size  Field
//!      0     8  Magic "COOCRYPT"
//!      8     1  Format version (2)
//!      9     1  KDF identifier (1 = Argon2id)
//!     10     1  AEAD identifier (1 = XChaCha20-Poly1305)
//!     11     1  Reserved (0)
//!     12     4  Argon2id memory cost in KiB (u32, big-endian)
//!     16     4  Argon2id iterations (u32, big-endian)
//!     20     1  Argon2id parallelism (u8)
//!     21     3  Reserved (0 0 0)
//!     24    16  Salt
//!     40    24  Nonce
//! ```
use vstd::prelude::*;

use crate::error::{Error, Result};

verus! {

/// File signature of format version 2: the ASCII bytes `COOCRYPT`.
pub const MAGIC: [u8; 8] = [0x43, 0x4F, 0x4F, 0x43, 0x52, 0x59, 0x50, 0x54];

/// Format version described by this module.
pub const VERSION: u8 = 2;

/// KDF identifier: Argon2id.
pub const KDF_ARGON2ID: u8 = 1;

/// AEAD identifier: XChaCha20-Poly1305.
pub const AEAD_XCHACHA20POLY1305: u8 = 1;

/// Size of the plaintext header, in bytes.
pub const HEADER_LEN: usize = 64;

/// Size of the Argon2id salt, in bytes.
pub const SALT_LEN: usize = 16;

/// Size of the XChaCha20 nonce, in bytes.
pub const NONCE_LEN: usize = 24;

/// Size of the Poly1305 tag, in bytes.
pub const TAG_LEN: usize = 16;

/// Size of the derived key, in bytes.
pub const KEY_LEN: usize = 32;

/// Padding block size.
pub const BLOCK_LEN: usize = 4096;

/// Size of the length prefix of the inner plaintext.
pub const LEN_PREFIX: usize = 4;

/// Reason given when the parallelism is zero.
pub const REASON_NO_LANES: &'static str = "le parallélisme doit être au moins 1";

/// Reason given when the parallelism exceeds its safety bound.
pub const REASON_TOO_MANY_LANES: &'static str = "parallélisme au-delà de la borne de sûreté";

/// Reason given when the iteration count is zero.
pub const REASON_NO_ITERATIONS: &'static str = "le nombre d'itérations doit être au moins 1";

/// Reason given when the iteration count exceeds its safety bound.
pub const REASON_TOO_MANY_ITERATIONS: &'static str = "nombre d'itérations au-delà de la borne de sûreté";

/// Reason given when the memory cost is below `8 * parallelism` KiB.
pub const REASON_MEMORY_TOO_SMALL: &'static str = "coût mémoire insuffisant pour ce parallélisme";

/// Reason given when the memory cost exceeds its safety bound.
pub const REASON_MEMORY_TOO_LARGE: &'static str = "coût mémoire au-delà de la borne de sûreté";

/// Reason given when the memory cost cannot be addressed on this platform.
pub const REASON_MEMORY_UNADDRESSABLE: &'static str = "coût mémoire inadressable sur cette plateforme";

/// The magic bytes as a sequence.
pub open spec fn magic_seq() -> Seq<u8> {
    seq![0x43u8, 0x4Fu8, 0x4Fu8, 0x43u8, 0x52u8, 0x59u8, 0x50u8, 0x54u8]
}

/// Value of four bytes read as a big-endian unsigned integer.
pub open spec fn be_u32_value(b: Seq<u8>) -> int {
    b[0] * 16777216 + b[1] * 65536 + b[2] * 256 + b[3]
}

/// The four big-endian bytes of `x`.
pub open spec fn be_u32_bytes(x: u32) -> Seq<u8> {
    seq![(x / 16777216) as u8, ((x / 65536) % 256) as u8, ((x / 256) % 256) as u8, (x % 256) as u8]
}

/// Reading back the big-endian bytes of a `u32` gives the `u32`.
pub proof fn lemma_be_u32_roundtrip(x: u32)
    ensures
        be_u32_bytes(x).len() == 4,
        be_u32_value(be_u32_bytes(x)) == x,
{
    assert(be_u32_value(be_u32_bytes(x)) == x) by (nonlinear_arith)
        requires
            be_u32_bytes(x)[0] == x / 16777216,
            be_u32_bytes(x)[1] == (x / 65536) % 256,
            be_u32_bytes(x)[2] == (x / 256) % 256,
            be_u32_bytes(x)[3] == x % 256,
    {
    }
}

/// Writing the value of four bytes back as big-endian gives the same bytes.
pub proof fn lemma_be_u32_bytes_of_value(b: Seq<u8>)
    requires
        b.len() == 4,
    ensures
        0 <= be_u32_value(b) <= u32::MAX,
        be_u32_bytes(be_u32_value(b) as u32) =~= b,
{
    let v = be_u32_value(b);
    let (b0, b1, b2, b3) = (b[0] as int, b[1] as int, b[2] as int, b[3] as int);
    assert(0 <= v <= u32::MAX);
    assert(v / 16777216 == b0 && (v / 65536) % 256 == b1 && (v / 256) % 256 == b2 && v % 256
        == b3) by (nonlinear_arith)
        requires
            v == b0 * 16777216 + b1 * 65536 + b2 * 256 + b3,
            0 <= b0 < 256,
            0 <= b1 < 256,
            0 <= b2 < 256,
            0 <= b3 < 256,
    {
    }
}

/// Argon2id derivation parameters carried by the header.
#[derive(Debug, Clone, Copy, PartialEq, Eq, Structural)]
pub struct KdfParams {
    /// Memory cost, in KiB.
    pub memory_kib: u32,
    /// Number of iterations (time cost).
    pub iterations: u32,
    /// Degree of parallelism (lanes).
    pub parallelism: u8,
}

impl KdfParams {
    /// Default parameters of this version: 128 MiB, t=4, p=4.
    pub open spec fn spec_default() -> KdfParams {
        KdfParams { memory_kib: 131072, iterations: 4, parallelism: 4 }
    }

    /// Largest memory cost accepted when reading, in KiB (4 GiB).
    pub const MAX_MEMORY_KIB: u32 = 4 * 1024 * 1024;

    /// Largest iteration count accepted when reading.
    pub const MAX_ITERATIONS: u32 = 32;

    /// Largest parallelism accepted when reading.
    pub const MAX_PARALLELISM: u8 = 16;

    /// Why these parameters are refused, checked in this order, or `None`
    /// when they lie within the safety bounds.
    pub open spec fn rejection(self) -> Option<&'static str> {
        if self.parallelism == 0 {
            Some(REASON_NO_LANES)
        } else if self.parallelism > 16 {
            Some(REASON_TOO_MANY_LANES)
        } else if self.iterations == 0 {
            Some(REASON_NO_ITERATIONS)
        } else if self.iterations > 32 {
            Some(REASON_TOO_MANY_ITERATIONS)
        } else if self.memory_kib < 8 * self.parallelism {
            Some(REASON_MEMORY_TOO_SMALL)
        } else if self.memory_kib > 4194304 {
            Some(REASON_MEMORY_TOO_LARGE)
        } else if usize::BITS < 64 && self.memory_kib * 1024 > usize::MAX {
            Some(REASON_MEMORY_UNADDRESSABLE)
        } else {
            None
        }
    }

    /// The parameters lie within the safety bounds.
    pub open spec fn is_valid(self) -> bool {
        self.rejection() is None
    }

    /// Checks that the parameters lie within the safety bounds.
    pub fn validate(&self) -> (res: Result<()>)
        ensures
            res is Ok <==> self.is_valid(),
            res matches Err(e) ==> e == (Error::UnsupportedKdfParameters {
                reason: self.rejection()->0,
            }),
    {
        if self.parallelism == 0 {
            return Err(Error::UnsupportedKdfParameters { reason: REASON_NO_LANES });
        }
        if self.parallelism > Self::MAX_PARALLELISM {
            return Err(Error::UnsupportedKdfParameters { reason: REASON_TOO_MANY_LANES });
        }
        if self.iterations == 0 {
            return Err(Error::UnsupportedKdfParameters { reason: REASON_NO_ITERATIONS });
        }
        if self.iterations > Self::MAX_ITERATIONS {
            return Err(Error::UnsupportedKdfParameters { reason: REASON_TOO_MANY_ITERATIONS });
        }
        if self.memory_kib < 8 * (self.parallelism as u32) {
            return Err(Error::UnsupportedKdfParameters { reason: REASON_MEMORY_TOO_SMALL });
        }
        if self.memory_kib > Self::MAX_MEMORY_KIB {
            return Err(Error::UnsupportedKdfParameters { reason: REASON_MEMORY_TOO_LARGE });
        }
        if usize::BITS < 64 && (self.memory_kib as u64) * 1024 > (usize::MAX as u64) {
            return Err(Error::UnsupportedKdfParameters { reason: REASON_MEMORY_UNADDRESSABLE });
        }
        Ok(())
    }
}

/// Abstract value of a header: its parameters, salt and nonce as sequences.
pub struct HeaderView {
    /// Derivation parameters.
    pub kdf: KdfParams,
    /// Argon2id salt.
    pub salt: Seq<u8>,
    /// XChaCha20 nonce.
    pub nonce: Seq<u8>,
}

/// Decoded header of a version-2 file.
#[derive(Debug, Clone, PartialEq, Eq)]
pub struct Header {
    /// Derivation parameters.
    pub kdf: KdfParams,
    /// Argon2id salt, unique per file.
    pub salt: [u8; SALT_LEN],
    /// XChaCha20 nonce, unique per file.
    pub nonce: [u8; NONCE_LEN],
}

impl View for Header {
    type V = HeaderView;

    open spec fn view(&self) -> HeaderView {
        HeaderView { kdf: self.kdf, salt: self.salt@, nonce: self.nonce@ }
    }
}

/// The 64 bytes that encode a header with these parameters, salt and nonce.
pub open spec fn header_bytes(kdf: KdfParams, salt: Seq<u8>, nonce: Seq<u8>) -> Seq<u8> {
    magic_seq() + seq![2u8, 1u8, 1u8, 0u8] + be_u32_bytes(kdf.memory_kib) + be_u32_bytes(
        kdf.iterations,
    ) + seq![kdf.parallelism, 0u8, 0u8, 0u8] + salt + nonce
}

/// Derivation parameters stored in the first 64 bytes of `b`.
pub open spec fn header_kdf(b: Seq<u8>) -> KdfParams {
    KdfParams {
        memory_kib: be_u32_value(b.subrange(12, 16)) as u32,
        iterations: be_u32_value(b.subrange(16, 20)) as u32,
        parallelism: b[20],
    }
}

/// The first check that `b` fails as a header, in the order in which they are
/// made, or `None` when `b` starts with a valid header.
pub open spec fn header_error(b: Seq<u8>) -> Option<Error> {
    if b.len() < 64 {
        Some(Error::InvalidLength { actual: b.len() as usize })
    } else if b.subrange(0, 8) != magic_seq() {
        Some(Error::NotCoocryptFile)
    } else if b[8] != 2 {
        Some(Error::UnsupportedVersion(b[8]))
    } else if b[9] != 1 || b[10] != 1 {
        Some(Error::UnsupportedAlgorithm { kdf: b[9], aead: b[10] })
    } else if b[11] != 0 || b[21] != 0 || b[22] != 0 || b[23] != 0 {
        Some(Error::ReservedBytesNotZero)
    } else if !header_kdf(b).is_valid() {
        Some(Error::UnsupportedKdfParameters { reason: header_kdf(b).rejection()->0 })
    } else {
        None
    }
}

/// The header that a byte sequence with a valid header starts with.
pub open spec fn header_of(b: Seq<u8>) -> HeaderView {
    HeaderView { kdf: header_kdf(b), salt: b.subrange(24, 40), nonce: b.subrange(40, 64) }
}

/// A header encoded with valid parameters, a 16-byte salt and a 24-byte nonce
/// decodes to the same parameters, salt and nonce.
pub proof fn lemma_header_decode_encode(kdf: KdfParams, salt: Seq<u8>, nonce: Seq<u8>)
    requires
        kdf.is_valid(),
        salt.len() == 16,
        nonce.len() == 24,
    ensures
        header_bytes(kdf, salt, nonce).len() == 64,
        header_error(header_bytes(kdf, salt, nonce)) is None,
        header_of(header_bytes(kdf, salt, nonce)) == (HeaderView { kdf, salt, nonce }),
{
    let b = header_bytes(kdf, salt, nonce);
    lemma_be_u32_roundtrip(kdf.memory_kib);
    lemma_be_u32_roundtrip(kdf.iterations);
    assert(b.subrange(0, 8) =~= magic_seq());
    assert(b.subrange(12, 16) =~= be_u32_bytes(kdf.memory_kib));
    assert(b.subrange(16, 20) =~= be_u32_bytes(kdf.iterations));
    assert(header_kdf(b) == kdf);
    assert(b.subrange(24, 40) =~= salt);
    assert(b.subrange(40, 64) =~= nonce);
}

/// Re-encoding the header that a byte sequence starts with gives back its
/// first 64 bytes: nothing in a valid header is lost by decoding it.
pub proof fn lemma_header_encode_decode(b: Seq<u8>)
    requires
        header_error(b) is None,
    ensures
        header_bytes(header_of(b).kdf, header_of(b).salt, header_of(b).nonce) =~= b.subrange(0, 64),
{
    lemma_be_u32_bytes_of_value(b.subrange(12, 16));
    lemma_be_u32_bytes_of_value(b.subrange(16, 20));
    let h = header_of(b);
    let e = header_bytes(h.kdf, h.salt, h.nonce);
    assert(b.subrange(0, 8) =~= magic_seq());
    assert forall|i: int| 0 <= i < 64 implies e[i] == b[i] by {
        if i < 8 {
            assert(b.subrange(0, 8)[i] == b[i]);
        } else if 12 <= i < 16 {
            assert(b.subrange(12, 16)[i - 12] == b[i]);
        } else if 16 <= i < 20 {
            assert(b.subrange(16, 20)[i - 16] == b[i]);
        }
    }
}

impl Header {
    /// Serializes the header into 64 bytes.
    pub fn encode(&self) -> (out: [u8; HEADER_LEN])
        ensures
            out@ == header_bytes(self.kdf, self.salt@, self.nonce@),
    {
        let mut out = [0u8; HEADER_LEN];
        let mut i: usize = 0;
        while i < 8
            invariant
                i <= 8,
                forall|j: int| 0 <= j < i ==> out@[j] == magic_seq()[j],
                forall|j: int| 8 <= j < 64 ==> out@[j] == 0,
            decreases 8 - i,
        {
            out[i] = MAGIC[i];
            i = i + 1;
        }
        out[8] = VERSION;
        out[9] = KDF_ARGON2ID;
        out[10] = AEAD_XCHACHA20POLY1305;
        let m = self.kdf.memory_kib;
        out[12] = (m / 16777216) as u8;
        out[13] = ((m / 65536) % 256) as u8;
        out[14] = ((m / 256) % 256) as u8;
        out[15] = (m % 256) as u8;
        let t = self.kdf.iterations;
        out[16] = (t / 16777216) as u8;
        out[17] = ((t / 65536) % 256) as u8;
        out[18] = ((t / 256) % 256) as u8;
        out[19] = (t % 256) as u8;
        out[20] = self.kdf.parallelism;
        let mut k: usize = 0;
        while k < SALT_LEN
            invariant
                k <= 16,
                forall|j: int| 0 <= j < 24 ==> out@[j] == header_bytes(
                    self.kdf,
                    self.salt@,
                    self.nonce@,
                )[j],
                forall|j: int| 0 <= j < k ==> out@[24 + j] == self.salt@[j],
            decreases 16 - k,
        {
            out[24 + k] = self.salt[k];
            k = k + 1;
        }
        let mut k: usize = 0;
        while k < NONCE_LEN
            invariant
                k <= 24,
                forall|j: int| 0 <= j < 24 ==> out@[j] == header_bytes(
                    self.kdf,
                    self.salt@,
                    self.nonce@,
                )[j],
                forall|j: int| 0 <= j < 16 ==> out@[24 + j] == self.salt@[j],
                forall|j: int| 0 <= j < k ==> out@[40 + j] == self.nonce@[j],
            decreases 24 - k,
        {
            out[40 + k] = self.nonce[k];
            k = k + 1;
        }
        assert(out@ =~= header_bytes(self.kdf, self.salt@, self.nonce@));
        out
    }

    /// Decodes and checks a header.
    ///
    /// Makes every check that precedes key derivation: length, magic, version,
    /// algorithm identifiers, reserved bytes and parameter bounds.
    pub fn decode(bytes: &[u8]) -> (res: Result<Header>)
        ensures
            res is Err <==> header_error(bytes@) is Some,
            res matches Err(e) ==> header_error(bytes@) == Some(e),
            res matches Ok(h) ==> h@ == header_of(bytes@),
    {
        if bytes.len() < HEADER_LEN {
            return Err(Error::InvalidLength { actual: bytes.len() });
        }
        let mut i: usize = 0;
        while i < 8
            invariant
                i <= 8,
                bytes@.len() >= 64,
                forall|j: int| 0 <= j < i ==> bytes@[j] == magic_seq()[j],
            decreases 8 - i,
        {
            if bytes[i] != MAGIC[i] {
                assert(bytes@.subrange(0, 8)[i as int] != magic_seq()[i as int]);
                return Err(Error::NotCoocryptFile);
            }
            i = i + 1;
        }
        assert(bytes@.subrange(0, 8) =~= magic_seq());
        if bytes[8] != VERSION {
            return Err(Error::UnsupportedVersion(bytes[8]));
        }
        if bytes[9] != KDF_ARGON2ID || bytes[10] != AEAD_XCHACHA20POLY1305 {
            return Err(Error::UnsupportedAlgorithm { kdf: bytes[9], aead: bytes[10] });
        }
        if bytes[11] != 0 || bytes[21] != 0 || bytes[22] != 0 || bytes[23] != 0 {
            return Err(Error::ReservedBytesNotZero);
        }
        let memory_kib: u32 = (bytes[12] as u32) * 16777216 + (bytes[13] as u32) * 65536 + (
        bytes[14] as u32) * 256 + (bytes[15] as u32);
        let iterations: u32 = (bytes[16] as u32) * 16777216 + (bytes[17] as u32) * 65536 + (
        bytes[18] as u32) * 256 + (bytes[19] as u32);
        let kdf = KdfParams { memory_kib, iterations, parallelism: bytes[20] };
        assert(kdf == header_kdf(bytes@));
        match kdf.validate() {
            Err(e) => {
                return Err(e);
            },
            Ok(()) => {},
        }
        let mut salt = [0u8; SALT_LEN];
        let mut k: usize = 0;
        while k < SALT_LEN
            invariant
                k <= 16,
                bytes@.len() >= 64,
                forall|j: int| 0 <= j < k ==> salt@[j] == bytes@[24 + j],
            decreases 16 - k,
        {
            salt[k] = bytes[24 + k];
            k = k + 1;
        }
        let mut nonce = [0u8; NONCE_LEN];
        let mut k: usize = 0;
        while k < NONCE_LEN
            invariant
                k <= 24,
                bytes@.len() >= 64,
                forall|j: int| 0 <= j < k ==> nonce@[j] == bytes@[40 + j],
            decreases 24 - k,
        {
            nonce[k] = bytes[40 + k];
            k = k + 1;
        }
        assert(salt@ =~= bytes@.subrange(24, 40));
        assert(nonce@ =~= bytes@.subrange(40, 64));
        Ok(Header { kdf, salt, nonce })
    }
}

impl Default for KdfParams {
    /// Default parameters of this version: 128 MiB, t=4, p=4.
    ///
    /// Used on every write, including the rewrite of a file created with
    /// weaker parameters: hardening is automatic.
    fn default() -> (p: KdfParams)
        ensures
            p == KdfParams::spec_default(),
    {
        KdfParams { memory_kib: 131072, iterations: 4, parallelism: 4 }
    }
}

} // verus!
