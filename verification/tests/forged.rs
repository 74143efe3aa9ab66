//! Files sealed here directly with the outside primitives, to reach the
//! checks that only someone who knows the password could trigger.

use argon2::{Algorithm, Argon2, Params, Version};
use chacha20poly1305::aead::{Aead, Payload};
use chacha20poly1305::{KeyInit, XChaCha20Poly1305, XNonce};

use coopacrypt::{
    decrypt, encrypt_deterministic, prepare_password, Error, Header, KdfParams, BLOCK_LEN,
    NONCE_LEN, SALT_LEN,
};

const FAST: KdfParams = KdfParams {
    memory_kib: 64,
    iterations: 1,
    parallelism: 1,
};

const SALT: [u8; SALT_LEN] = [1u8; SALT_LEN];
const NONCE: [u8; NONCE_LEN] = [2u8; NONCE_LEN];

/// Seals an arbitrary inner plaintext under the password "pass".
fn seal(plaintext: &[u8]) -> Vec<u8> {
    let password_bytes = prepare_password("pass").unwrap();
    let params = Params::new(FAST.memory_kib, FAST.iterations, 1, Some(32)).unwrap();
    let mut key = [0u8; 32];
    Argon2::new(Algorithm::Argon2id, Version::V0x13, params)
        .hash_password_into(&password_bytes, &SALT, &mut key)
        .unwrap();
    let header = Header { kdf: FAST, salt: SALT, nonce: NONCE }.encode();
    let sealed = XChaCha20Poly1305::new((&key).into())
        .encrypt(
            XNonce::from_slice(&NONCE),
            Payload {
                msg: plaintext,
                aad: &header,
            },
        )
        .unwrap();
    let mut file = header.to_vec();
    file.extend_from_slice(&sealed);
    file
}

#[test]
fn champ_de_longueur_incoherent() {
    let mut plaintext = vec![0u8; BLOCK_LEN];
    plaintext[0..4].copy_from_slice(&u32::MAX.to_be_bytes());
    let file = seal(&plaintext);
    assert_eq!(decrypt(&file, "pass").unwrap_err(), Error::MalformedPlaintext);
}

#[test]
fn champ_de_longueur_juste_au_dela() {
    let mut plaintext = vec![0u8; BLOCK_LEN];
    plaintext[0..4].copy_from_slice(&4093u32.to_be_bytes());
    let file = seal(&plaintext);
    assert_eq!(decrypt(&file, "pass").unwrap_err(), Error::MalformedPlaintext);

    plaintext[0..4].copy_from_slice(&4092u32.to_be_bytes());
    let file = seal(&plaintext);
    assert_eq!(decrypt(&file, "pass").unwrap(), "\0".repeat(4092));
}

#[test]
fn contenu_qui_n_est_pas_de_l_utf8() {
    let mut plaintext = vec![0u8; BLOCK_LEN];
    plaintext[0..4].copy_from_slice(&2u32.to_be_bytes());
    plaintext[4] = 0xC3;
    plaintext[5] = 0x28;
    let file = seal(&plaintext);
    assert_eq!(decrypt(&file, "pass").unwrap_err(), Error::InvalidUtf8);
}

#[test]
fn le_remplissage_n_est_pas_verifie() {
    let mut plaintext = vec![0xAAu8; BLOCK_LEN];
    plaintext[0..4].copy_from_slice(&3u32.to_be_bytes());
    plaintext[4..7].copy_from_slice(b"abc");
    let file = seal(&plaintext);
    assert_eq!(decrypt(&file, "pass").unwrap(), "abc");
}

#[test]
fn le_fichier_ecrit_est_celui_des_primitives() {
    // Disposition attendue : longueur, contenu, remplissage à zéro.
    let mut plaintext = vec![0u8; BLOCK_LEN];
    plaintext[0..4].copy_from_slice(&7u32.to_be_bytes());
    plaintext[4..11].copy_from_slice(b"# titre");
    let expected = seal(&plaintext);
    let password_bytes = prepare_password("pass").unwrap();
    let produced = encrypt_deterministic("# titre", &password_bytes, FAST, SALT, NONCE).unwrap();
    assert_eq!(produced, expected);
}
