use std::path::PathBuf;

use coopacrypt::session::{Session, IDLE_TIMEOUT_MS};

/// Horloge de départ arbitraire, en millisecondes.
const T0: u64 = 1_000_000;

fn session_ouverte() -> Session {
    let mut session = Session::default();
    session.unlock(
        PathBuf::from("coffre.coocrypt"),
        "phrase de passe".to_owned(),
        T0,
    );
    session
}

#[test]
fn une_session_neuve_est_verrouillee() {
    let mut session = Session::default();
    assert!(!session.is_unlocked(T0));
    assert!(session.path().is_none());
    assert!(session.credentials(T0).is_none());
}

#[test]
fn le_deverrouillage_expose_les_identifiants() {
    let mut session = session_ouverte();
    assert!(session.is_unlocked(T0));
    let (path, password) = session.credentials(T0).expect("session déverrouillée");
    assert_eq!(path, PathBuf::from("coffre.coocrypt"));
    assert_eq!(password, "phrase de passe");
}

#[test]
fn le_verrouillage_coupe_tout_acces() {
    let mut session = session_ouverte();
    session.lock();
    assert!(!session.is_unlocked(T0));
    assert!(session.path().is_none());
    assert!(session.credentials(T0).is_none());
}

#[test]
fn l_echeance_est_repoussee_par_l_activite() {
    let mut session = session_ouverte();
    let avant = session.remaining_secs(T0 + 30_000).unwrap();
    session.touch(T0 + 30_000);
    assert!(session.remaining_secs(T0 + 30_000).unwrap() >= avant);
    assert_eq!(avant, 570);
    assert_eq!(session.remaining_secs(T0 + 30_000), Some(600));
}

#[test]
fn une_echeance_depassee_verrouille() {
    let mut session = session_ouverte();
    // Simule une inactivité prolongée sans attendre réellement.
    let plus_tard = T0 + IDLE_TIMEOUT_MS;
    assert!(!session.is_unlocked(plus_tard), "le délai n'a pas été appliqué");
    assert!(session.credentials(plus_tard).is_none());
}

#[test]
fn juste_avant_l_echeance_la_session_reste_ouverte() {
    let mut session = session_ouverte();
    assert!(session.is_unlocked(T0 + IDLE_TIMEOUT_MS - 1));
    assert_eq!(session.remaining_secs(T0 + IDLE_TIMEOUT_MS - 1), Some(0));
    // Les identifiants repoussent l'échéance.
    assert!(session.credentials(T0 + IDLE_TIMEOUT_MS - 1).is_some());
    assert!(session.is_unlocked(T0 + 2 * IDLE_TIMEOUT_MS - 2));
    // Le chemin se lit sans prolonger la session.
    assert_eq!(session.path(), Some(PathBuf::from("coffre.coocrypt")));
    assert!(!session.is_unlocked(T0 + 3 * IDLE_TIMEOUT_MS));
    assert!(session.path().is_none());
}

#[test]
fn une_horloge_qui_recule_ne_verrouille_pas() {
    let mut session = session_ouverte();
    assert_eq!(session.remaining_secs(T0 - 5_000), Some(600));
}
