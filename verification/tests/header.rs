use coopacrypt::{Error, Header, KdfParams, HEADER_LEN, NONCE_LEN, SALT_LEN};

fn sample() -> Header {
    Header {
        kdf: KdfParams::default(),
        salt: [7u8; SALT_LEN],
        nonce: [9u8; NONCE_LEN],
    }
}

#[test]
fn aller_retour() {
    let h = sample();
    assert_eq!(Header::decode(&h.encode()).unwrap(), h);
}

#[test]
fn en_tete_de_64_octets_exactement() {
    assert_eq!(sample().encode().len(), HEADER_LEN);
}

#[test]
fn rejette_un_octet_reserve_non_nul() {
    for offset in [11usize, 21, 22, 23] {
        let mut raw = sample().encode();
        raw[offset] = 1;
        assert_eq!(
            Header::decode(&raw).unwrap_err(),
            Error::ReservedBytesNotZero,
            "offset {offset}"
        );
    }
}

#[test]
fn rejette_les_parametres_hors_bornes() {
    let mut raw = sample().encode();
    raw[12..16].copy_from_slice(&(64u32 * 1024 * 1024).to_be_bytes()); // 64 GiB
    assert!(matches!(
        Header::decode(&raw).unwrap_err(),
        Error::UnsupportedKdfParameters { .. }
    ));
}

#[test]
fn rejette_un_magic_inconnu() {
    let mut raw = sample().encode();
    raw[0] = b'X';
    assert_eq!(Header::decode(&raw).unwrap_err(), Error::NotCoocryptFile);
}

#[test]
fn encodage_exact_de_l_en_tete() {
    let h = Header {
        kdf: KdfParams { memory_kib: 0x0102_0304, iterations: 0x0A0B_0C0D, parallelism: 7 },
        salt: [0x11; SALT_LEN],
        nonce: [0x22; NONCE_LEN],
    };
    let raw = h.encode();
    assert_eq!(&raw[0..8], b"COOCRYPT");
    assert_eq!(&raw[8..12], &[2, 1, 1, 0]);
    assert_eq!(&raw[12..16], &[1, 2, 3, 4]);
    assert_eq!(&raw[16..20], &[0x0A, 0x0B, 0x0C, 0x0D]);
    assert_eq!(&raw[20..24], &[7, 0, 0, 0]);
    assert_eq!(&raw[24..40], &[0x11; 16]);
    assert_eq!(&raw[40..64], &[0x22; 24]);
}

#[test]
fn decodage_refuse_chaque_defaut_dans_l_ordre() {
    let good = sample().encode();
    assert_eq!(
        Header::decode(&good[..63]).unwrap_err(),
        Error::InvalidLength { actual: 63 }
    );
    let mut raw = good;
    raw[8] = 3;
    assert_eq!(Header::decode(&raw).unwrap_err(), Error::UnsupportedVersion(3));
    let mut raw = good;
    raw[9] = 2;
    assert_eq!(
        Header::decode(&raw).unwrap_err(),
        Error::UnsupportedAlgorithm { kdf: 2, aead: 1 }
    );
    let mut raw = good;
    raw[10] = 5;
    assert_eq!(
        Header::decode(&raw).unwrap_err(),
        Error::UnsupportedAlgorithm { kdf: 1, aead: 5 }
    );
    let mut raw = good;
    raw[20] = 0;
    assert_eq!(
        Header::decode(&raw).unwrap_err(),
        Error::UnsupportedKdfParameters { reason: "le parallélisme doit être au moins 1" }
    );
}

#[test]
fn les_bornes_de_surete() {
    let ok = KdfParams { memory_kib: 64, iterations: 1, parallelism: 1 };
    assert_eq!(ok.validate(), Ok(()));
    assert_eq!(KdfParams::default().validate(), Ok(()));
    let cases = [
        (KdfParams { parallelism: 0, ..ok }, "le parallélisme doit être au moins 1"),
        (KdfParams { parallelism: 17, memory_kib: 1024, ..ok }, "parallélisme au-delà de la borne de sûreté"),
        (KdfParams { iterations: 0, ..ok }, "le nombre d'itérations doit être au moins 1"),
        (KdfParams { iterations: 33, ..ok }, "nombre d'itérations au-delà de la borne de sûreté"),
        (KdfParams { memory_kib: 7, ..ok }, "coût mémoire insuffisant pour ce parallélisme"),
        (KdfParams { memory_kib: 4 * 1024 * 1024 + 1, ..ok }, "coût mémoire au-delà de la borne de sûreté"),
    ];
    for (params, reason) in cases {
        assert_eq!(params.validate(), Err(Error::UnsupportedKdfParameters { reason }));
    }
    let edge = KdfParams { memory_kib: 4 * 1024 * 1024, iterations: 32, parallelism: 16 };
    if usize::BITS >= 64 {
        assert_eq!(edge.validate(), Ok(()));
    }
    assert_eq!(
        KdfParams::default(),
        KdfParams { memory_kib: 131_072, iterations: 4, parallelism: 4 }
    );
}
