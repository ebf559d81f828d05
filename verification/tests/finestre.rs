use assistente_rs::finestre::{
    chiudi_finestra_titolo, flag_nuova_finestra, leggi_elenco_finestre, leggi_id_da_chiudere,
    nuova_finestra, processo_da_terminare, script_chiusura_macos,
};

#[test]
fn flag_del_browser() {
    assert_eq!(flag_nuova_finestra("FireFox"), "-new-window");
    assert_eq!(flag_nuova_finestra("vivaldi-stable"), "--new-window");
}

#[test]
fn finestra_apparsa() {
    let prima = vec!["1".to_string(), "2".to_string()];
    let dopo = vec!["2".to_string(), "1".to_string(), "7".to_string(), "8".to_string()];
    assert_eq!(nuova_finestra(&prima, &dopo), Some("7".to_string()));
    assert_eq!(nuova_finestra(&prima, &prima), None);
}

#[test]
fn elenco_kdotool() {
    assert_eq!(leggi_elenco_finestre(" 1\n\n 2 \r\n"), vec!["1".to_string(), "2".to_string()]);
    assert_eq!(leggi_elenco_finestre(""), Vec::<String>::new());
}

#[test]
fn id_da_chiudere() {
    assert_eq!(leggi_id_da_chiudere("  \n "), Vec::<String>::new());
    assert_eq!(leggi_id_da_chiudere("\n{a}\n{b}\n"), vec!["{a}".to_string(), "{b}".to_string()]);
}

#[test]
fn titolo_in_minuscolo() {
    assert_eq!(chiudi_finestra_titolo("YouTube"), "youtube");
}

#[test]
fn script_macos() {
    let s = script_chiusura_macos("Il \"Sito\"");
    assert!(s.starts_with("tell application \"System Events\"\n"));
    assert!(s.contains("contains \"Il Sito\" then"));
    assert!(s.ends_with("end tell"));
}

#[test]
fn processi_da_terminare() {
    let args = vec!["/usr/bin/python3".to_string(), "/opt/Strawberry/run.py".to_string()];
    assert!(processo_da_terminare("strawberry", "python3", &args));
    assert!(processo_da_terminare("Vivaldi", "vivaldi-bin", &Vec::new()));
    assert!(!processo_da_terminare("firefox", "vivaldi-bin", &args));
}
