use vstd::prelude::*;
use vstd::string::StringExecFns;

verus! {

/// Errors of the vault format.
///
/// No variant separates "wrong password" from "altered file": authenticated
/// encryption cannot tell the two apart, by design.
#[derive(Debug, Clone, PartialEq, Eq)]
pub enum Error {
    /// The password is empty. Refused when writing as when reading.
    EmptyPassword,
    /// The file is too short, or its size is not `80 + N * 4096`.
    InvalidLength {
        /// Size of the examined file.
        actual: usize,
    },
    /// The first eight bytes are not `COOCRYPT`.
    NotCoocryptFile,
    /// Format version not known to this implementation.
    UnsupportedVersion(u8),
    /// Unknown KDF or AEAD identifier.
    UnsupportedAlgorithm {
        /// KDF identifier read from the header.
        kdf: u8,
        /// AEAD identifier read from the header.
        aead: u8,
    },
    /// A reserved header byte is not zero.
    ReservedBytesNotZero,
    /// Argon2id parameters outside the safety bounds, or not addressable on
    /// this platform. Deliberately distinct from [`Error::DecryptionFailed`].
    UnsupportedKdfParameters {
        /// Why the parameters were refused.
        reason: &'static str,
    },
    /// The authentication tag did not verify: wrong password or altered file.
    DecryptionFailed,
    /// The length field of the decrypted plaintext exceeds the room available.
    MalformedPlaintext,
    /// The decrypted content is not valid UTF-8.
    InvalidUtf8,
    /// The content does not fit the 32-bit length field.
    ContentTooLarge,
    /// The Argon2id derivation failed.
    KdfFailure,
    /// The system entropy source is unavailable.
    RandomSourceUnavailable,
}

/// Result type of the crate.
pub type Result<T> = core::result::Result<T, Error>;

/// The decimal digit character for `d`, which is below ten.
pub open spec fn digit_char(d: nat) -> char {
    if d == 0 {
        '0'
    } else if d == 1 {
        '1'
    } else if d == 2 {
        '2'
    } else if d == 3 {
        '3'
    } else if d == 4 {
        '4'
    } else if d == 5 {
        '5'
    } else if d == 6 {
        '6'
    } else if d == 7 {
        '7'
    } else if d == 8 {
        '8'
    } else {
        '9'
    }
}

/// The decimal writing of `n`, without leading zeros.
pub open spec fn decimal(n: nat) -> Seq<char>
    decreases n,
{
    if n < 10 {
        seq![digit_char(n)]
    } else {
        decimal(n / 10) + seq![digit_char(n % 10)]
    }
}

/// The message shown to a user for an error.
///
/// None of them tells a wrong password from an altered file.
pub open spec fn error_text(e: Error) -> Seq<char> {
    match e {
        Error::EmptyPassword => "le mot de passe ne peut pas être vide"@,
        Error::InvalidLength { actual } => "taille de fichier invalide ("@ + decimal(actual as nat)
            + " octets) : ce n'est pas un fichier .coocrypt v2"@,
        Error::NotCoocryptFile => "signature de fichier absente ou inconnue"@,
        Error::UnsupportedVersion(v) => "version de format non supportée : "@ + decimal(v as nat),
        Error::UnsupportedAlgorithm { kdf, aead } => "algorithme non supporté (kdf="@ + decimal(
            kdf as nat,
        ) + ", aead="@ + decimal(aead as nat) + ")"@,
        Error::ReservedBytesNotZero => "octets réservés non nuls dans l'en-tête"@,
        Error::UnsupportedKdfParameters { reason } => "paramètres de dérivation non supportés : "@
            + reason@,
        Error::DecryptionFailed => "mot de passe incorrect ou fichier altéré"@,
        Error::MalformedPlaintext => "contenu déchiffré incohérent"@,
        Error::InvalidUtf8 => "le contenu déchiffré n'est pas de l'UTF-8 valide"@,
        Error::ContentTooLarge => "contenu trop volumineux"@,
        Error::KdfFailure => "échec de la dérivation de clé"@,
        Error::RandomSourceUnavailable => "source d'entropie système indisponible"@,
    }
}

/// The one-character string of a decimal digit.
fn digit_str(d: u64) -> (s: &'static str)
    requires
        d < 10,
    ensures
        s@ == seq![digit_char(d as nat)],
{
    proof {
        reveal_strlit("0");
        reveal_strlit("1");
        reveal_strlit("2");
        reveal_strlit("3");
        reveal_strlit("4");
        reveal_strlit("5");
        reveal_strlit("6");
        reveal_strlit("7");
        reveal_strlit("8");
        reveal_strlit("9");
    }
    if d == 0 {
        "0"
    } else if d == 1 {
        "1"
    } else if d == 2 {
        "2"
    } else if d == 3 {
        "3"
    } else if d == 4 {
        "4"
    } else if d == 5 {
        "5"
    } else if d == 6 {
        "6"
    } else if d == 7 {
        "7"
    } else if d == 8 {
        "8"
    } else {
        "9"
    }
}

/// Writes `n` in decimal.
pub fn decimal_string(n: u64) -> (s: String)
    ensures
        s@ == decimal(n as nat),
    decreases n,
{
    if n < 10 {
        String::from_str(digit_str(n))
    } else {
        let mut s = decimal_string(n / 10);
        s.append(digit_str(n % 10));
        s
    }
}

impl Error {
    /// The message shown to a user for this error.
    pub fn message(&self) -> (text: String)
        ensures
            text@ == error_text(*self),
    {
        match self {
            Error::EmptyPassword => String::from_str("le mot de passe ne peut pas être vide"),
            Error::InvalidLength { actual } => {
                let mut text = String::from_str("taille de fichier invalide (");
                text.append(decimal_string(*actual as u64).as_str());
                text.append(" octets) : ce n'est pas un fichier .coocrypt v2");
                text
            },
            Error::NotCoocryptFile => String::from_str("signature de fichier absente ou inconnue"),
            Error::UnsupportedVersion(v) => {
                let mut text = String::from_str("version de format non supportée : ");
                text.append(decimal_string(*v as u64).as_str());
                text
            },
            Error::UnsupportedAlgorithm { kdf, aead } => {
                let mut text = String::from_str("algorithme non supporté (kdf=");
                text.append(decimal_string(*kdf as u64).as_str());
                text.append(", aead=");
                text.append(decimal_string(*aead as u64).as_str());
                text.append(")");
                text
            },
            Error::ReservedBytesNotZero => String::from_str(
                "octets réservés non nuls dans l'en-tête",
            ),
            Error::UnsupportedKdfParameters { reason } => {
                let mut text = String::from_str("paramètres de dérivation non supportés : ");
                text.append(reason);
                text
            },
            Error::DecryptionFailed => String::from_str("mot de passe incorrect ou fichier altéré"),
            Error::MalformedPlaintext => String::from_str("contenu déchiffré incohérent"),
            Error::InvalidUtf8 => String::from_str(
                "le contenu déchiffré n'est pas de l'UTF-8 valide",
            ),
            Error::ContentTooLarge => String::from_str("contenu trop volumineux"),
            Error::KdfFailure => String::from_str("échec de la dérivation de clé"),
            Error::RandomSourceUnavailable => String::from_str(
                "source d'entropie système indisponible",
            ),
        }
    }
}

} // verus!
