use assistente_rs::agente::{
    dopo_azione, lista_programmi_per_ai, pianifica_azione, pianifica_piano, AzioneAi, ComandoAi,
};

fn azione(tipo: &str) -> AzioneAi {
    AzioneAi {
        action: Some(tipo.to_string()),
        program: None,
        url: None,
        text: None,
        key: None,
        keys: None,
        ms: None,
    }
}

#[test]
fn programmi_per_ai() {
    let righe: Vec<String> = [
        "# elenco",
        "Gimp=gimp",
        "Editor = kate --new",
        "Script=/usr/local/bin/x",
        "Altro Gimp=gimp -n",
        "",
        "Kate due=kate",
        "Vuoto=",
        "Firefox=firefox",
    ]
    .iter()
    .map(|s| s.to_string())
    .collect();
    assert_eq!(
        lista_programmi_per_ai(&righe, 150),
        "Gimp (gimp), Editor (kate), Firefox (firefox)"
    );
    assert_eq!(lista_programmi_per_ai(&righe, 2), "Gimp (gimp), Editor (kate)");
    assert_eq!(lista_programmi_per_ai(&righe, 0), "");
    assert_eq!(lista_programmi_per_ai(&righe, 1), "Gimp (gimp)");
    assert_eq!(lista_programmi_per_ai(&Vec::new(), 5), "");
}

#[test]
fn apri_programma_solo_nome_nudo() {
    let mut a = azione("open_program");
    a.program = Some(" gimp ".to_string());
    assert!(matches!(pianifica_azione(&a), ComandoAi::Avvia(ref p) if p == "gimp"));
    a.program = Some("/bin/rm".to_string());
    assert!(matches!(pianifica_azione(&a), ComandoAi::Nessuno));
    a.program = Some("rm -rf".to_string());
    assert!(matches!(pianifica_azione(&a), ComandoAi::Nessuno));
    a.program = None;
    assert!(matches!(pianifica_azione(&a), ComandoAi::Nessuno));
}

#[test]
fn apri_url_solo_http() {
    let mut a = azione("open_url");
    a.url = Some("https://www.google.it".to_string());
    assert!(matches!(pianifica_azione(&a), ComandoAi::ApriUrl(ref u) if u == "https://www.google.it"));
    a.url = Some("file:///etc/passwd".to_string());
    assert!(matches!(pianifica_azione(&a), ComandoAi::Nessuno));
}

#[test]
fn testo_tasti_attesa() {
    let mut a = azione("type_text");
    a.text = Some(" ciao ".to_string());
    assert!(matches!(pianifica_azione(&a), ComandoAi::Digita(ref t) if t == " ciao "));
    let mut a = azione("key");
    a.key = Some(" Return ".to_string());
    assert!(matches!(pianifica_azione(&a), ComandoAi::Tasto(ref t) if t == "Return"));
    let mut a = azione("wait");
    a.ms = Some(60_000);
    assert!(matches!(pianifica_azione(&a), ComandoAi::Attendi(10_000)));
    a.ms = None;
    assert!(matches!(pianifica_azione(&a), ComandoAi::Attendi(0)));
    assert!(matches!(pianifica_azione(&azione("volare")), ComandoAi::Nessuno));
}

#[test]
fn combinazione_di_tasti() {
    let mut a = azione("hotkey");
    a.keys = Some(vec![Some("ctrl".to_string()), Some("Shift".to_string()), Some("t".to_string())]);
    match pianifica_azione(&a) {
        ComandoAi::Combinazione(args) => assert_eq!(
            args,
            vec!["-M", "ctrl", "-M", "shift", "-k", "t", "-m", "shift", "-m", "ctrl"]
                .iter()
                .map(|s| s.to_string())
                .collect::<Vec<String>>()
        ),
        _ => panic!("attesa Combinazione"),
    }
    a.keys = Some(vec![Some("a".to_string()), Some("b".to_string())]);
    assert!(matches!(pianifica_azione(&a), ComandoAi::Nessuno));
    a.keys = Some(vec![Some("ctrl".to_string())]);
    assert!(matches!(pianifica_azione(&a), ComandoAi::Nessuno));
    a.keys = Some(vec![]);
    assert!(matches!(pianifica_azione(&a), ComandoAi::Nessuno));
}

#[test]
fn piano_intero() {
    assert!(pianifica_piano(&None).is_empty());
    let mut a = azione("open_url");
    a.url = Some("http://x".to_string());
    let p = pianifica_piano(&Some(vec![a, azione("boh")]));
    assert_eq!(p.len(), 2);
    assert!(matches!(p[1], ComandoAi::Nessuno));
}

#[test]
fn il_piano_si_ferma_al_primo_fallimento() {
    assert_eq!(dopo_azione(0, true), Some(1));
    assert_eq!(dopo_azione(4, true), Some(5));
    assert_eq!(dopo_azione(2, false), None);
}
