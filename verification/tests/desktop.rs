use std::path::PathBuf;

use coopacrypt::assoc::{default_icon, ensure_registered, open_command, registration_skipped, Outcome};
use coopacrypt::desktop::{
    open_vault, session_state, vault_change_password, vault_info, vault_open, vault_save, Progress,
};
use coopacrypt::session::Session;
use coopacrypt::{encrypt_with_params, KdfParams};

const FAST: KdfParams = KdfParams { memory_kib: 64, iterations: 1, parallelism: 1 };

#[test]
fn commande_et_icone_de_l_association() {
    let exe = r"C:\Apps\coopacrypt-app.exe";
    assert_eq!(open_command(exe), "\"C:\\Apps\\coopacrypt-app.exe\" \"%1\"");
    assert_eq!(default_icon(exe), "\"C:\\Apps\\coopacrypt-app.exe\",0");
}

#[test]
fn l_association_deja_a_jour_n_est_pas_reecrite() {
    let exe = r"C:\Apps\app.exe";
    assert_eq!(
        ensure_registered(true, false, false, Some(open_command(exe)), exe),
        Outcome::AlreadyCurrent
    );
    assert_eq!(ensure_registered(true, false, false, None, exe), Outcome::Registered);
    assert_eq!(
        ensure_registered(true, false, false, Some(open_command(r"D:\ancien\app.exe")), exe),
        Outcome::Registered
    );
    // Hors Windows, ou en développement sans forçage : rien n'est écrit.
    assert_eq!(ensure_registered(false, false, false, None, exe), Outcome::Skipped);
    assert_eq!(ensure_registered(true, true, false, None, exe), Outcome::Skipped);
    assert_eq!(ensure_registered(true, true, true, None, exe), Outcome::Registered);
    assert!(registration_skipped(true, false));
    assert!(!registration_skipped(true, true));
    assert!(!registration_skipped(false, false));
}

#[test]
fn ouverture_et_en_tete_pour_la_page() {
    assert_eq!(
        open_vault(b"quelconque", "pass").unwrap_err(),
        "ce fichier n'est pas un coffre .coocrypt"
    );
    let file = encrypt_with_params("# Notes", "pass", FAST).unwrap();
    assert_eq!(open_vault(&file, "pass").unwrap(), "# Notes");
    assert_eq!(
        open_vault(&file, "autre").unwrap_err(),
        "mot de passe incorrect ou fichier altéré"
    );
    let info = vault_info(&file).unwrap();
    assert_eq!(info.version, 2);
    assert_eq!(info.memory_kib, 64);
    assert_eq!(info.iterations, 1);
    assert_eq!(info.parallelism, 1);
    assert_eq!(info.blocks, 1);
    assert_eq!(info.file_len, 4176);
    assert!(!info.up_to_date);
    assert_eq!(
        vault_info(b"court").err().unwrap(),
        "taille de fichier invalide (5 octets) : ce n'est pas un fichier .coocrypt v2"
    );
}

#[test]
fn etat_de_session_pour_la_page() {
    let mut session = Session::default();
    let state = session_state(&mut session, 0);
    assert!(!state.unlocked);
    assert_eq!(state.path, None);
    assert_eq!(state.remaining_secs, None);
    session.unlock(PathBuf::from("coffre.coocrypt"), "pass".to_owned(), 1000);
    let state = session_state(&mut session, 61_000);
    assert!(state.unlocked);
    assert_eq!(state.path.as_deref(), Some("coffre.coocrypt"));
    assert_eq!(state.remaining_secs, Some(540));
}

#[test]
fn progression_par_pourcent() {
    let mut progress = Progress::new();
    assert_eq!(progress.advance(10, None), None);
    assert_eq!(progress.advance(10, Some(0)), None);
    assert_eq!(progress.advance(5, Some(1000)), Some(2));
    assert_eq!(progress.advance(4, Some(1000)), None);
    assert_eq!(progress.advance(1, Some(1000)), Some(3));
    assert_eq!(progress.advance(2000, Some(1000)), Some(100));
}

#[test]
fn l_ouverture_deverrouille_la_session_seulement_en_cas_de_succes() {
    let file = encrypt_with_params("# Notes", "pass", FAST).unwrap();
    let mut session = Session::default();
    let path = PathBuf::from("coffre.coocrypt");

    assert_eq!(
        vault_open(&mut session, path.clone(), &file, "autre", 0).unwrap_err(),
        "mot de passe incorrect ou fichier altéré"
    );
    assert!(!session.is_unlocked(0));
    assert!(vault_open(&mut session, path.clone(), b"rien", "pass", 0).is_err());
    assert!(!session.is_unlocked(0));

    assert_eq!(vault_open(&mut session, path.clone(), &file, "pass", 5).unwrap(), "# Notes");
    let (p, password) = session.credentials(10).unwrap();
    assert_eq!(p, path);
    assert_eq!(password, "pass");
}

#[test]
fn enregistrer_exige_une_session_ouverte() {
    let mut session = Session::default();
    assert_eq!(vault_save(&mut session, "x", 0).unwrap_err(), "session verrouillée");
    assert_eq!(
        vault_change_password(&session, "x", "neuf").unwrap_err(),
        "session verrouillée"
    );
}

#[test]
fn le_changement_de_mot_de_passe_rechiffre_pour_le_chemin_ouvert() {
    let mut session = Session::default();
    session.unlock(PathBuf::from("coffre.coocrypt"), "ancien".to_owned(), 0);
    // Le mot de passe vide est refusé avant toute dérivation.
    assert_eq!(
        vault_change_password(&session, "x", "").unwrap_err(),
        "le mot de passe ne peut pas être vide"
    );
    // Une session expirée refuse l'enregistrement.
    assert_eq!(
        vault_save(&mut session, "x", 600_000).unwrap_err(),
        "session verrouillée"
    );
}
