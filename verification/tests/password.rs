use coopacrypt::password::{map_unicode_spaces, prepare};
use coopacrypt::{prepare_password, Error};

#[test]
fn rejette_le_mot_de_passe_vide() {
    assert_eq!(prepare("").unwrap_err(), Error::EmptyPassword);
}

#[test]
fn nfd_et_nfc_convergent() {
    // "é" précomposé U+00E9 contre "e" + U+0301 combinant.
    let precompose = prepare("caf\u{00E9}").unwrap();
    let decompose = prepare("cafe\u{0301}").unwrap();
    assert_eq!(*precompose, *decompose);
}

#[test]
fn password_nfkc_n_est_pas_applique() {
    let ligature = prepare("\u{FB01}n").unwrap(); // ﬁn
    let ascii = prepare("fin").unwrap();
    assert_ne!(*ligature, *ascii);

    let exposant = prepare("x\u{00B2}").unwrap(); // x²
    let chiffre = prepare("x2").unwrap();
    assert_ne!(*exposant, *chiffre);
}

#[test]
fn les_espaces_unicode_deviennent_ascii() {
    let insecable = prepare("mot\u{00A0}de passe").unwrap();
    let ascii = prepare("mot de passe").unwrap();
    assert_eq!(*insecable, *ascii);
}

#[test]
fn la_casse_et_les_emoji_sont_preserves() {
    assert_ne!(*prepare("Secret").unwrap(), *prepare("secret").unwrap());
    assert_eq!(*prepare("clé🔐").unwrap(), "clé🔐".as_bytes().to_vec());
}

#[test]
fn tous_les_espaces_zs_sont_ramenes() {
    let spaces = "\u{20}\u{A0}\u{1680}\u{2000}\u{2005}\u{200A}\u{202F}\u{205F}\u{3000}";
    let mapped = map_unicode_spaces(spaces);
    assert_eq!(mapped, vec![' '; 9]);
    // Une tabulation et un saut de ligne ne sont pas de la catégorie Zs.
    assert_eq!(map_unicode_spaces("a\tb\n"), vec!['a', '\t', 'b', '\n']);
    // U+200B (espace sans chasse) est de la catégorie Cf : conservé.
    assert_eq!(map_unicode_spaces("\u{200B}"), vec!['\u{200B}']);
}

#[test]
fn la_forme_exposee_est_celle_du_format() {
    assert_eq!(prepare_password("cafe\u{0301}").unwrap(), "café".as_bytes().to_vec());
    assert_eq!(prepare_password("").unwrap_err(), Error::EmptyPassword);
    assert_eq!(prepare_password("a\u{3000}b").unwrap(), b"a b".to_vec());
}
