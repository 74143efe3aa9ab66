use coopacrypt::cli::{count_words, is_weak_passphrase, trim_line_end};
use coopacrypt::error::decimal_string;
use coopacrypt::Error;

#[test]
fn messages_des_erreurs() {
    assert_eq!(Error::EmptyPassword.message(), "le mot de passe ne peut pas être vide");
    assert_eq!(
        Error::InvalidLength { actual: 4175 }.message(),
        "taille de fichier invalide (4175 octets) : ce n'est pas un fichier .coocrypt v2"
    );
    assert_eq!(Error::UnsupportedVersion(3).message(), "version de format non supportée : 3");
    assert_eq!(
        Error::UnsupportedAlgorithm { kdf: 2, aead: 17 }.message(),
        "algorithme non supporté (kdf=2, aead=17)"
    );
    assert_eq!(
        Error::UnsupportedKdfParameters { reason: "raison" }.message(),
        "paramètres de dérivation non supportés : raison"
    );
    assert_eq!(Error::DecryptionFailed.message(), "mot de passe incorrect ou fichier altéré");
    assert_eq!(Error::RandomSourceUnavailable.message(), "source d'entropie système indisponible");
}

#[test]
fn ecriture_decimale() {
    assert_eq!(decimal_string(0), "0");
    assert_eq!(decimal_string(7), "7");
    assert_eq!(decimal_string(10), "10");
    assert_eq!(decimal_string(4176), "4176");
    assert_eq!(decimal_string(u64::MAX), u64::MAX.to_string());
}

#[test]
fn phrases_de_passe_courtes() {
    assert_eq!(count_words(""), 0);
    assert_eq!(count_words("  un\tdeux\n trois  "), 3);
    assert_eq!(count_words("mot\u{00A0}mot"), 2);
    assert!(is_weak_passphrase("court"));
    assert!(is_weak_passphrase("unseulmotmaistreslong"));
    assert!(is_weak_passphrase("a b c"));
    assert!(!is_weak_passphrase("correcte cheval batterie"));
    assert!(!is_weak_passphrase("tortue papier lampe soleil nuage"));
}

#[test]
fn fin_de_ligne_retiree() {
    assert_eq!(trim_line_end("secret\n"), "secret");
    assert_eq!(trim_line_end("secret\r\n"), "secret");
    assert_eq!(trim_line_end(" espace autour \r\n\n"), " espace autour ");
    assert_eq!(trim_line_end("\n"), "");
    assert_eq!(trim_line_end("é\rx"), "é\rx");
}
