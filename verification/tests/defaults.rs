use coopacrypt::{encrypt, Error, KdfParams};

/// The default parameters cost a full Argon2id derivation at 128 MiB, too slow
/// for a unit test: only the checks made before derivation are exercised here.
#[test]
fn le_chiffrement_par_defaut_refuse_le_mot_de_passe_vide() {
    assert_eq!(encrypt("# Coffre\n", "").unwrap_err(), Error::EmptyPassword);
    assert_eq!(KdfParams::default().validate(), Ok(()));
}
