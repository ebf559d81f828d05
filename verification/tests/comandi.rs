use assistente_rs::comandi::{
    adatta_lingua, bookmark_corrisponde, contiene, estrai_dopo, estrai_nome_e_luogo,
    estrai_sorgente_destinazione, normalizza_percorso_vocale, pulisci_comando, rimuovi_wakeword,
};
use assistente_rs::testo::{
    dividi_parole, dividi_pezzi, dividi_righe, rifila, sostituisci, unisci, Separatore,
};

fn v(parole: &[&str]) -> Vec<String> {
    parole.iter().map(|s| s.to_string()).collect()
}

#[test]
fn contiene_trova_una_parola_chiave() {
    assert!(contiene("apri il browser", &v(&["chiudi", "apri"])));
    assert!(!contiene("apri il browser", &v(&["chiudi", "spegni"])));
    assert!(!contiene("apri il browser", &v(&[])));
    assert!(contiene("qualcosa", &v(&[""])));
}

#[test]
fn rimuovi_wakeword_esatta() {
    assert_eq!(rimuovi_wakeword("marco apri firefox", "marco", None), "apri firefox");
    assert_eq!(rimuovi_wakeword("apri marco firefox marco", "marco", None), "apri  firefox");
}

#[test]
fn rimuovi_wakeword_simile() {
    assert_eq!(rimuovi_wakeword("marko   apri firefox", "marco", Some(0)), "apri firefox");
    assert_eq!(rimuovi_wakeword("  apri firefox ", "marco", None), "apri firefox");
}

#[test]
fn pulisci_comando_toglie_punteggiatura() {
    assert_eq!(pulisci_comando("  ...apri firefox!  "), "apri firefox");
    assert_eq!(pulisci_comando("!!!"), "");
    assert_eq!(pulisci_comando("… apri…"), "apri");
    assert_eq!(pulisci_comando("…"), "");
}

#[test]
fn adatta_lingua_corregge_parole_intere() {
    assert_eq!(adatta_lingua("apri crita"), "apri krita");
    assert_eq!(adatta_lingua("apri console"), "apri konsole");
    assert_eq!(adatta_lingua("apri consolle"), "apri consolle");
    assert_eq!(adatta_lingua("spegne il pc e apri dolfin"), "spegni il pc e apri dolphin");
    assert_eq!(adatta_lingua("apri mito"), "apri mitology");
}

#[test]
fn normalizza_percorso_parlato() {
    assert_eq!(
        normalizza_percorso_vocale("slash home slash riccardo slash foto punto jpg"),
        "/home/riccardo/foto.jpg"
    );
    assert_eq!(normalizza_percorso_vocale("barra tmp barra mio trattino basso file"), "/tmp/mio_file");
    assert_eq!(normalizza_percorso_vocale("a trattino b underscore c"), "a-b_c");
    assert_eq!(normalizza_percorso_vocale(""), "");
}

#[test]
fn normalizza_percorso_gia_scritto() {
    assert_eq!(normalizza_percorso_vocale("/home/riccardo/foto.jpg"), "/home/riccardo/foto.jpg");
}

#[test]
fn estrai_dopo_parola_piu_a_destra() {
    let chiavi = v(&["cartella", "crea"]);
    assert_eq!(
        estrai_dopo("crea cartella /home/riccardo/nuova", &chiavi),
        Some("/home/riccardo/nuova".to_string())
    );
    assert_eq!(estrai_dopo("crea cartella   ", &chiavi), None);
    assert_eq!(estrai_dopo("apri firefox", &chiavi), None);
    assert_eq!(estrai_dopo("crea cartella x crea y", &chiavi), Some("y".to_string()));
    assert_eq!(estrai_dopo("crea x", &v(&["", "crea"])), Some("x".to_string()));
}

#[test]
fn estrai_nome_e_luogo_separa() {
    assert_eq!(
        estrai_nome_e_luogo("nuovo in Scaricati"),
        Some(("nuovo".to_string(), "scaricati".to_string()))
    );
    assert_eq!(
        estrai_nome_e_luogo("foto dentro Documenti "),
        Some(("foto".to_string(), "documenti".to_string()))
    );
    assert_eq!(estrai_nome_e_luogo("nuovo"), None);
    assert_eq!(estrai_nome_e_luogo(" in scaricati"), None);
}

#[test]
fn estrai_sorgente_destinazione_separa() {
    let verbi = v(&["sposta", "muovi"]);
    assert_eq!(
        estrai_sorgente_destinazione("sposta foto.jpg in documenti", &verbi),
        Some(("foto.jpg".to_string(), "documenti".to_string()))
    );
    assert_eq!(
        estrai_sorgente_destinazione("muovi a verso b", &verbi),
        Some(("a".to_string(), "b".to_string()))
    );
    assert_eq!(estrai_sorgente_destinazione("sposta foto.jpg", &verbi), None);
}

#[test]
fn bookmark_nome_intero() {
    assert!(bookmark_corrisponde("apri YouTube", "Youtube", &v(&[])));
}

#[test]
fn bookmark_parola_chiave_intera() {
    let stop = v(&["della", "per"]);
    assert!(bookmark_corrisponde("apri la posta", "Posta Mail Aziendale", &stop));
    assert!(!bookmark_corrisponde("apri gmail", "Posta Mail Aziendale", &stop));
    assert!(!bookmark_corrisponde("apri la pagina della rete", "Pagina della Rete X", &v(&["pagina", "della", "rete"])));
    assert!(!bookmark_corrisponde("apri tv", "TV: notizie", &stop));
    assert!(bookmark_corrisponde("apri notizie", "TV: notizie", &stop));
}

#[test]
fn testo_divisioni_e_sostituzioni() {
    assert_eq!(dividi_parole("  a  bb\tc "), v(&["a", "bb", "c"]));
    assert_eq!(dividi_pezzi("a,b,,c", Separatore::NonAlfanumerico), v(&["a", "b", "", "c"]));
    assert_eq!(dividi_righe("a\r\nb\n\nc\n"), v(&["a", "b", "", "c"]));
    assert_eq!(sostituisci("aXbXc", "X", "--"), "a--b--c");
    assert_eq!(sostituisci("abc", "", "-"), "-a-b-c-");
    assert_eq!(unisci(&v(&["a", "b", "c"]), ", "), "a, b, c");
    assert_eq!(rifila("\u{3000} x \u{a0}"), "x");
}
