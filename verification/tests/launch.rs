use std::path::PathBuf;

use coopacrypt::launch::{from_args, Pending};

fn args(list: &[&str]) -> Vec<String> {
    list.iter().map(|s| (*s).to_owned()).collect()
}

#[test]
fn le_chemin_est_pris_apres_le_nom_du_programme() {
    let found = from_args(args(&["coopacrypt-app.exe", r"C:\coffres\perso.coocrypt"]));
    assert_eq!(found, Some(PathBuf::from(r"C:\coffres\perso.coocrypt")));
}

#[test]
fn sans_argument_il_n_y_a_rien_a_ouvrir() {
    assert_eq!(from_args(args(&["coopacrypt-app.exe"])), None);
}

#[test]
fn le_nom_du_programme_n_est_jamais_retenu() {
    assert_eq!(from_args(args(&[r"C:\Program Files\app.exe"])), None);
}

#[test]
fn les_options_sont_ignorees() {
    let found = from_args(args(&[
        "coopacrypt-app",
        "--no-sandbox",
        "-v",
        "/home/x/perso.coocrypt",
    ]));
    assert_eq!(found, Some(PathBuf::from("/home/x/perso.coocrypt")));
}

#[test]
fn un_argument_vide_n_est_pas_un_chemin() {
    let found = from_args(args(&["app", "", "vrai.coocrypt"]));
    assert_eq!(found, Some(PathBuf::from("vrai.coocrypt")));
}

#[test]
fn un_fichier_sans_extension_reste_recevable() {
    let found = from_args(args(&["app", "/tmp/notes"]));
    assert_eq!(found, Some(PathBuf::from("/tmp/notes")));
}

#[test]
fn la_lecture_consomme_le_chemin_en_attente() {
    let mut pending = Pending::default();
    assert_eq!(pending.take(), None);

    pending.set(PathBuf::from("a.coocrypt"));
    assert_eq!(pending.take(), Some(PathBuf::from("a.coocrypt")));
    assert_eq!(pending.take(), None);
}

#[test]
fn le_dernier_chemin_depose_remplace_le_precedent() {
    let mut pending = Pending::default();
    pending.set(PathBuf::from("a.coocrypt"));
    pending.set(PathBuf::from("b.coocrypt"));
    assert_eq!(pending.take(), Some(PathBuf::from("b.coocrypt")));
}

#[test]
fn aucun_argument_du_tout() {
    assert_eq!(from_args(Vec::new()), None);
    assert_eq!(from_args(args(&["app", "-", "--x"])), None);
    // Le premier candidat l'emporte sur les suivants.
    assert_eq!(
        from_args(args(&["app", "un.coocrypt", "deux.coocrypt"])),
        Some(PathBuf::from("un.coocrypt"))
    );
}
