//! The properties that the frozen reference vectors lock, checked on files
//! written here with the reduced test parameters.

use coopacrypt::{decrypt, encrypt_with_params, prepare_password, KdfParams};

const FAST: KdfParams = KdfParams {
    memory_kib: 64,
    iterations: 1,
    parallelism: 1,
};

#[test]
fn nfc_et_nfd_convergent() {
    let nfc = prepare_password("caf\u{00E9}").unwrap();
    let nfd = prepare_password("cafe\u{0301}").unwrap();
    assert_eq!(nfc, nfd, "la normalisation NFC n'est pas appliquée au mot de passe");

    let file = encrypt_with_params("secret", "caf\u{00E9}", FAST).unwrap();
    assert!(decrypt(&file, "cafe\u{0301}").is_ok());
}

#[test]
fn vectors_nfkc_n_est_pas_applique() {
    let ligature = prepare_password("\u{FB01}n").unwrap();
    let temoin = prepare_password("fin").unwrap();
    assert_ne!(ligature, temoin, "NFKC semble appliqué : « ﬁn » et « fin » ont fusionné");

    let file = encrypt_with_params("secret", "\u{FB01}n", FAST).unwrap();
    assert!(decrypt(&file, "fin").is_err());
}

#[test]
fn le_contenu_traverse_intact() {
    let file = encrypt_with_params("cafe\u{0301}", "pass", FAST).unwrap();
    let out = decrypt(&file, "pass").unwrap();
    assert_eq!(out.as_bytes(), "cafe\u{0301}".as_bytes());
    assert_ne!(out.as_bytes(), "caf\u{00E9}".as_bytes());

    let file = encrypt_with_params("un\r\ndeux\r\n", "pass", FAST).unwrap();
    let out = decrypt(&file, "pass").unwrap();
    assert!(out.contains("\r\n"), "les CRLF ont été convertis");
}

#[test]
fn vectors_le_remplissage_masque_la_longueur() {
    let vide = encrypt_with_params("", "pass", FAST).unwrap();
    let plein = encrypt_with_params(&"a".repeat(4092), "pass", FAST).unwrap();
    let bascule = encrypt_with_params(&"a".repeat(4093), "pass", FAST).unwrap();
    assert_eq!(vide.len(), 4176);
    assert_eq!(plein.len(), 4176);
    assert_eq!(bascule.len(), 8272);
}

#[test]
fn les_parametres_par_defaut_sont_figes() {
    assert_eq!(
        KdfParams::default(),
        KdfParams {
            memory_kib: 131_072,
            iterations: 4,
            parallelism: 4,
        },
        "les paramètres par défaut du code ont changé sans mise à jour du vecteur"
    );
}

#[test]
fn mot_de_passe_espace_insecable() {
    let file = encrypt_with_params("secret", "mot\u{00A0}de passe", FAST).unwrap();
    assert_eq!(decrypt(&file, "mot de passe").unwrap(), "secret");
}
