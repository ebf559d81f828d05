use assistente_rs::esecuzione::{parole_comando, Azione, Riconoscimento};
use assistente_rs::intento::{Chiusura, ChiusuraBookmark, IntentHandler};
use assistente_rs::messaggi::{kw, lista_frasi, messaggio, messaggio_casuale, Messages, Sezione, Voce};

fn lista(parole: &[&str]) -> Voce {
    Voce::Lista(parole.iter().map(|s| Some(s.to_string())).collect())
}

fn testo(s: &str) -> Voce {
    Voce::Testo(s.to_string())
}

fn messaggi_di_prova() -> Messages {
    let c = |k: &str, p: &[&str]| (k.to_string(), lista(p));
    let t = |k: &str, s: &str| (k.to_string(), testo(s));
    Messages {
        welcome_messages: vec!["ciao".to_string(), "eccomi".to_string()],
        goodbye_messages: vec!["arrivederci".to_string()],
        error_messages: vec![
            t("command_not_recognized", "non ho capito"),
            t("program_not_found", "non trovo {program}"),
            t("ai_not_configured", "AI non configurata"),
        ],
        other_messages: vec![
            t("log_comando", "comando: {comando}"),
            t("log_attivato_comando", "{botname} esegue {comando}"),
            t("command_confirmation", "confermi?"),
            t("shutdown_cancelled", "annullato"),
            (
                "shutdown_executed".to_string(),
                Voce::Lista(vec![Some("spengo".to_string()), None]),
            ),
            t("reboot_executed", "riavvio"),
            t("muted_confirmation", "zitto"),
            t("waiting_wakeword", "di' {botname}"),
            t("youtube_opened", "youtube aperto"),
            t("youtube_closed", "youtube chiuso"),
            t("program_opened", "apro {programma}"),
            t("program_closed", "chiudo {programma}"),
            t("browser_opened", "browser aperto"),
        ],
        commands: vec![
            c("open", &["apri"]),
            c("close", &["chiudi"]),
            c("turnoff", &["spegni"]),
            c("restart", &["riavvia"]),
            c("exit", &["esci"]),
            c("search", &["cerca"]),
            c("reply", &["sì", "conferma"]),
            c("mute", &["stai zitto"]),
            c("move", &["sposta"]),
            c("create", &["crea"]),
            c("delete", &["cancella"]),
            c("upvol", &["alza"]),
            c("downvol", &["abbassa"]),
            c("setvol", &["imposta"]),
            c("silent", &["silenzia"]),
            c("update", &["aggiorna"]),
        ],
        objects: vec![
            c("pc", &["computer", "pc"]),
            c("program", &["assistente"]),
            c("internet", &["internet", "browser"]),
            c("music", &["musica"]),
            c("folder", &["cartella"]),
            c("filemanager", &["file", "gestore"]),
            c("bookmark_stopwords", &["della"]),
            ("list".to_string(), Voce::Altro),
        ],
    }
}

fn gestore() -> IntentHandler {
    IntentHandler::new(
        "marco".to_string(),
        "Marco".to_string(),
        messaggi_di_prova(),
        "programmi.txt".to_string(),
        "bookmarks.txt".to_string(),
        "stazioni.csv".to_string(),
    )
}

#[test]
fn messaggi_e_parole_chiave() {
    let m = messaggi_di_prova();
    assert_eq!(kw(&m, Sezione::Comandi, "reply"), vec!["sì".to_string(), "conferma".to_string()]);
    assert_eq!(kw(&m, Sezione::Oggetti, "list"), Vec::<String>::new());
    assert_eq!(kw(&m, Sezione::Comandi, "inesistente"), Vec::<String>::new());
    assert_eq!(messaggio(&m, Sezione::Altri, "reboot_executed", "x"), "riavvio");
    assert_eq!(messaggio(&m, Sezione::Altri, "manca", "[missing]"), "[missing]");
    assert_eq!(
        lista_frasi(&m, Sezione::Altri, "shutdown_executed"),
        vec!["spengo".to_string(), "".to_string()]
    );
}

#[test]
fn parole_chiave_in_minuscolo() {
    let mut m = messaggi_di_prova();
    m.commands.push(("grande".to_string(), Voce::Lista(vec![Some("APRI".to_string()), None])));
    assert_eq!(kw(&m, Sezione::Comandi, "grande"), vec!["apri".to_string()]);
}

#[test]
fn messaggio_casuale_sceglie_dalla_lista() {
    let l = vec!["a".to_string(), "b".to_string(), "c".to_string()];
    assert_eq!(messaggio_casuale(&l, 0), "a");
    assert_eq!(messaggio_casuale(&l, 4), "b");
    assert_eq!(messaggio_casuale(&Vec::new(), 7), "");
}

#[test]
fn stand_by_ignora_senza_wakeword() {
    let mut h = gestore();
    assert!(matches!(h.comrecon("apri firefox", None), Riconoscimento::Ignora));
    assert!(!h.active);
}

#[test]
fn wakeword_attiva_ed_esegue() {
    let mut h = gestore();
    match h.comrecon("Marco, apri firefox!", None) {
        Riconoscimento::Esegui { notifica, registro, comando } => {
            assert_eq!(notifica, Some("🤖 Marco attivo".to_string()));
            assert_eq!(registro, Some("🤖 Marco esegue apri firefox".to_string()));
            assert_eq!(comando, "apri firefox");
        }
        _ => panic!("atteso Esegui"),
    }
    assert!(h.active);
}

#[test]
fn wakeword_sola_da_il_benvenuto() {
    let mut h = gestore();
    match h.comrecon("Marco...", None) {
        Riconoscimento::Benvenuto { notifica, benvenuti } => {
            assert_eq!(notifica, Some("🤖 Marco attivo".to_string()));
            assert_eq!(benvenuti.len(), 2);
        }
        _ => panic!("atteso Benvenuto"),
    }
    for forma in ["marco", "marco!", "marco…", "Marco …"] {
        let mut h = gestore();
        assert!(
            matches!(h.comrecon(forma, None), Riconoscimento::Benvenuto { .. }),
            "{}",
            forma
        );
        assert!(h.active);
    }
}

#[test]
fn attivo_toglie_la_parola_simile() {
    let mut h = gestore();
    h.active = true;
    let parole = parole_comando("Marko apri firefox");
    assert_eq!(parole, vec!["marko".to_string(), "apri".to_string(), "firefox".to_string()]);
    match h.comrecon("Marko apri firefox", Some(0)) {
        Riconoscimento::Esegui { comando, notifica, .. } => {
            assert_eq!(comando, "apri firefox");
            assert_eq!(notifica, None);
        }
        _ => panic!("atteso Esegui"),
    }
    match h.comrecon("Marko apri firefox", Some(9)) {
        Riconoscimento::Esegui { comando, .. } => assert_eq!(comando, "marko apri firefox"),
        _ => panic!("atteso Esegui"),
    }
}

#[test]
fn comando_dalla_gui() {
    let mut h = gestore();
    match h.comrecon("__GUI____GUI__Apri Firefox", None) {
        Riconoscimento::Esegui { comando, notifica, registro } => {
            assert_eq!(comando, "Apri Firefox");
            assert!(notifica.is_none() && registro.is_none());
        }
        _ => panic!("atteso Esegui"),
    }
    assert!(!h.active);
}

#[test]
fn spegnimento_con_conferma() {
    let mut h = gestore();
    let e = h.esegui("Spegni il computer", "", "");
    assert_eq!(e.riga_log, "📝 comando: spegni il computer");
    assert!(matches!(e.azione, Azione::ChiediConferma(ref m) if m == "confermi?"));
    assert!(h.awaiting_shutdown);
    let e = h.esegui("sì", "", "");
    match e.azione {
        Azione::Spegni { messaggi, saluti } => {
            assert_eq!(messaggi, vec!["spengo".to_string(), "".to_string()]);
            assert_eq!(saluti, vec!["arrivederci".to_string()]);
        }
        _ => panic!("atteso Spegni"),
    }
    assert!(!h.awaiting_shutdown);
}

#[test]
fn il_no_annulla_la_conferma() {
    let mut h = gestore();
    h.esegui("riavvia il pc", "", "");
    assert!(h.awaiting_reboot);
    let e = h.esegui("no", "", "");
    assert!(matches!(e.azione, Azione::ConfermaAnnullata(ref m) if m == "annullato"));
    assert!(!h.awaiting_reboot && !h.awaiting_shutdown && h.awaiting_delete.is_none());
}

#[test]
fn altro_comando_fa_cadere_la_conferma() {
    let mut h = gestore();
    h.esegui("spegni il pc", "", "");
    let e = h.esegui("apri musica", "", "");
    assert!(e.annulla_conferma);
    assert!(!h.awaiting_shutdown);
    assert!(matches!(e.azione, Azione::ApriMusica(_)));
}

#[test]
fn cancellazione_chiede_conferma() {
    let mut h = gestore();
    let e = h.esegui("cancella file foto in scaricati", "", "");
    match e.azione {
        Azione::PreparaCancellazione { nome_luogo, percorso, conferma } => {
            assert_eq!(nome_luogo, Some(("foto".to_string(), "scaricati".to_string())));
            assert_eq!(percorso, "fotoinscaricati");
            assert_eq!(conferma, "confermi?");
        }
        _ => panic!("atteso PreparaCancellazione"),
    }
    h.attendi_cancellazione("/home/u/Scaricati/foto".to_string());
    let e = h.esegui("conferma", "", "");
    assert!(matches!(e.azione, Azione::CancellaFile(ref p) if p == "/home/u/Scaricati/foto"));
    assert!(h.awaiting_delete.is_none());
}

#[test]
fn sposta_e_crea_cartella() {
    let mut h = gestore();
    match h.esegui("sposta slash tmp slash a punto txt in Documenti", "", "").azione {
        Azione::SpostaFile { sorgente, luogo, destinazione } => {
            assert_eq!(sorgente, "/tmp/a.txt");
            assert_eq!(luogo, "documenti");
            assert_eq!(destinazione, "documenti");
        }
        _ => panic!("atteso SpostaFile"),
    }
    match h.esegui("crea cartella slash tmp slash nuova", "", "").azione {
        Azione::CreaCartella { nome_luogo, percorso } => {
            assert_eq!(nome_luogo, None);
            assert_eq!(percorso, "/tmp/nuova");
        }
        _ => panic!("atteso CreaCartella"),
    }
    assert!(matches!(h.esegui("sposta tutto", "", "").azione, Azione::Parla(ref m) if m == "non ho capito"));
}

#[test]
fn stai_zitto_torna_in_stand_by() {
    let mut h = gestore();
    h.active = true;
    h.esegui("spegni il pc", "", "");
    match h.esegui("stai zitto", "", "").azione {
        Azione::Silenzio { messaggio, attesa } => {
            assert_eq!(messaggio, "zitto");
            assert_eq!(attesa, "di' Marco");
        }
        _ => panic!("atteso Silenzio"),
    }
    assert!(!h.active && !h.awaiting_shutdown);
}

#[test]
fn youtube_apre_e_cerca() {
    let mut h = gestore();
    match h.esegui("apri youtube", "", "").azione {
        Azione::ApriYoutube { messaggio, url, chiave } => {
            assert_eq!(messaggio, "youtube aperto");
            assert_eq!(url, "https://www.youtube.com");
            assert_eq!(chiave, "youtube");
        }
        _ => panic!("atteso ApriYoutube"),
    }
    assert!(h.youtube_open);
    match h.esegui("cerca su youtube gatti neri & cani", "", "").azione {
        Azione::CercaYoutubeWeb(url) => {
            assert_eq!(url, "https://www.youtube.com/results?search_query=gatti%20neri%20%26%20cani")
        }
        _ => panic!("atteso CercaYoutubeWeb"),
    }
    match h.esegui("cerca perché", "", "chiave").azione {
        Azione::CercaYoutubeApi { query, segna_aperto } => {
            assert_eq!(query, "cerca perché");
            assert!(!segna_aperto);
        }
        _ => panic!("atteso CercaYoutubeApi"),
    }
    match h.esegui("cerca perché", "", "").azione {
        Azione::CercaYoutubeWeb(url) => {
            assert_eq!(url, "https://www.youtube.com/results?search_query=cerca%20perch%C3%A9")
        }
        _ => panic!("atteso CercaYoutubeWeb"),
    }
}

#[test]
fn ricerca_senza_youtube_aperto_va_all_ai() {
    let mut h = gestore();
    assert!(matches!(h.esegui("cerca gatti", "", "").azione, Azione::Parla(ref m) if m == "AI non configurata"));
    assert!(matches!(h.esegui("cerca gatti", "k", "").azione, Azione::AgenteAi { .. }));
}

#[test]
fn apri_e_chiudi_bookmark_tracciato() {
    let mut h = gestore();
    let righe = vec![
        "# commento".to_string(),
        "senza uguale".to_string(),
        " Youtube = https://www.youtube.com ".to_string(),
        "Posta=https://posta.example".to_string(),
    ];
    let e = h.esegui("apri youtube per favore", "", "");
    assert!(matches!(e.azione, Azione::ApriYoutube { .. }));
    let a = h.apri_bookmark("apri youtube", &righe).expect("bookmark");
    assert_eq!(a.nome, "Youtube");
    assert_eq!(a.url, "https://www.youtube.com");
    assert!(a.dedicata);
    assert_eq!(a.chiave, "youtube");
    assert_eq!(a.messaggio, "apro Youtube");
    h.registra_finestra(&a.chiave, "0x42");
    match h.chiudi_bookmark("chiudi youtube", &righe) {
        Some(ChiusuraBookmark { id, titolo, messaggio }) => {
            assert_eq!(id, Some("0x42".to_string()));
            assert_eq!(titolo, "Youtube");
            assert_eq!(messaggio, "youtube chiuso");
        }
        None => panic!("atteso un bookmark"),
    }
    assert!(!h.youtube_open);
    match h.chiudi_bookmark("chiudi youtube", &righe) {
        Some(ChiusuraBookmark { id, .. }) => assert_eq!(id, None),
        None => panic!("atteso un bookmark"),
    }
}

#[test]
fn nessun_bookmark_nominato_nulla_cambia() {
    let mut h = gestore();
    h.youtube_open = true;
    h.registra_finestra("posta", "0x7");
    let righe = vec!["Posta=https://posta.example".to_string()];
    assert!(h.chiudi_bookmark("chiudi il browser", &righe).is_none());
    assert!(h.apri_bookmark("apri il browser", &righe).is_none());
    assert!(h.youtube_open);
    assert_eq!(h.wakeword, "marco");
    assert_eq!(h.listabookmarks, "bookmarks.txt");
    assert_eq!(h.listaprogrammi, "programmi.txt");
    assert_eq!(h.stations_csv, "stazioni.csv");
    assert_eq!(h.finestre_bookmark, vec![("posta".to_string(), "0x7".to_string())]);
}

#[test]
fn finestre_una_per_chiave() {
    let mut h = gestore();
    h.registra_finestra("youtube", "0x1");
    h.registra_finestra("posta", "0x2");
    h.registra_finestra("youtube", "0x3");
    assert_eq!(h.finestre_bookmark.len(), 2);
    assert_eq!(h.prendi_finestra("youtube"), Some("0x3".to_string()));
    assert_eq!(h.prendi_finestra("youtube"), None);
    assert_eq!(h.prendi_finestra("posta"), Some("0x2".to_string()));
}

#[test]
fn annuncio_fallito_annulla_l_effetto() {
    let mut h = gestore();
    h.active = true;
    let e = h.esegui("stai zitto", "", "");
    assert!(!h.active);
    h.annuncio_fallito(&e.azione, true, false);
    assert!(h.active);

    let e = h.esegui("spegni il computer", "", "");
    assert!(h.awaiting_shutdown);
    h.annuncio_fallito(&e.azione, true, false);
    assert!(!h.awaiting_shutdown && !h.awaiting_reboot);

    let e = h.esegui("apri youtube", "", "");
    assert!(h.youtube_open);
    h.annuncio_fallito(&e.azione, true, false);
    assert!(!h.youtube_open);

    h.youtube_open = true;
    let e = h.esegui("alza il volume", "", "");
    h.annuncio_fallito(&e.azione, false, false);
    assert!(h.youtube_open);
    assert!(h.active);
}

#[test]
fn chiudi_senza_bookmark() {
    let mut h = gestore();
    h.youtube_open = true;
    let righe: Vec<String> = Vec::new();
    assert!(h.chiudi_bookmark("chiudi il browser", &righe).is_none());
    assert!(h.youtube_open);
    assert!(matches!(h.chiudi_oggetto("chiudi il browser"), Chiusura::Browser(_)));
    assert!(!h.youtube_open);
    h.youtube_open = true;
    assert!(matches!(h.chiudi_oggetto("chiudi la musica"), Chiusura::Musica(_)));
    assert!(h.youtube_open);
    match h.chiudi_oggetto("chiudi gimp") {
        Chiusura::Programma { chiuso, non_riconosciuto } => {
            assert_eq!(chiuso, "chiudo {programma}");
            assert_eq!(non_riconosciuto, "non ho capito");
        }
        _ => panic!("atteso Programma"),
    }
}

#[test]
fn apri_programma_e_uscita() {
    let mut h = gestore();
    match h.esegui("apri gimp", "", "").azione {
        Azione::Apri { comando, aperto, non_trovato } => {
            assert_eq!(comando, "apri gimp");
            assert_eq!(aperto, "apro {programma}");
            assert_eq!(non_trovato, "non trovo apri gimp");
        }
        _ => panic!("atteso Apri"),
    }
    match h.esegui("  esci ", "", "").azione {
        Azione::Esci { prefisso, .. } => assert_eq!(prefisso, "🤖 Marco: "),
        _ => panic!("atteso Esci"),
    }
    assert!(matches!(h.esegui("apri gestore file", "", "").azione, Azione::ApriGestoreFile));
    assert!(matches!(h.esegui("alza il volume", "", "").azione, Azione::Volume { .. }));
    assert!(matches!(h.esegui("chiudi gimp", "", "").azione, Azione::Chiudi(ref c) if c == "chiudi gimp"));
    assert!(matches!(h.esegui("aggiorna il pc", "", "").azione, Azione::Aggiorna { completo: false, .. }));
}

#[test]
fn radio() {
    let mut h = gestore();
    assert!(matches!(h.esegui("spegni la radio", "", "").azione, Azione::RadioStop(_)));
    assert!(matches!(h.esegui("radio volume", "", "").azione, Azione::Volume { .. }));
    assert!(matches!(h.esegui("metti radio deejay", "", "").azione, Azione::RadioCerca(ref c) if c == "metti radio deejay"));
}

#[test]
fn correzioni_prima_di_decidere() {
    let mut h = gestore();
    let e = h.esegui("Spegne il PC", "", "");
    assert_eq!(e.riga_log, "📝 comando: spegni il pc");
    assert!(h.awaiting_shutdown);
}
