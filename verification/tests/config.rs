use assistente_rs::config::{
    espandi_config, expand_tilde, percorsi_config, scegli_percorso, unisci_percorso, Config,
};

#[test]
fn espande_la_tilde() {
    assert_eq!(expand_tilde("~/.local/bin/piper", Some("/home/u")), "/home/u/.local/bin/piper");
    assert_eq!(expand_tilde("~/x", Some("/home/u/")), "/home/u/x");
    assert_eq!(expand_tilde("~/x", None), "~/x");
    assert_eq!(expand_tilde("/opt/piper", Some("/home/u")), "/opt/piper");
    assert_eq!(expand_tilde("~x", Some("/home/u")), "~x");
    assert_eq!(expand_tilde("~//etc", Some("/home/u")), "/etc");
    assert_eq!(expand_tilde("~", Some("/home/u")), "/home/u");
    assert_eq!(expand_tilde("~", None), "~");
}

#[test]
fn unisce_i_percorsi() {
    assert_eq!(unisci_percorso("config", "config.json"), "config/config.json");
    assert_eq!(unisci_percorso("", "a"), "a");
    assert_eq!(unisci_percorso("a", ""), "a/");
    assert_eq!(unisci_percorso("a", "/b"), "/b");
}

#[test]
fn candidati_in_ordine() {
    assert_eq!(
        percorsi_config(Some("/home/u"), "config.json"),
        vec![
            "/home/u/.config/assistente-rs/config.json".to_string(),
            "/usr/share/assistente/config/config.json".to_string(),
            "config/config.json".to_string(),
        ]
    );
    assert_eq!(percorsi_config(None, ".env").len(), 2);
}

#[test]
fn sceglie_il_primo_esistente() {
    let c = percorsi_config(Some("/home/u"), "config.json");
    assert_eq!(scegli_percorso(&c, &vec![true, true, false]), c[0]);
    assert_eq!(scegli_percorso(&c, &vec![false, true, false]), c[1]);
    assert_eq!(scegli_percorso(&c, &vec![false, false, false]), c[2]);
}

#[test]
fn config_espansa() {
    let cfg = Config {
        botname: "MA.R.CO".to_string(),
        wakeword: "marco".to_string(),
        sleep_time: 30,
        deltavolume: 10,
        layout: "uniwindow".to_string(),
        musicplayer: "strawberry".to_string(),
        browser: "vivaldi-stable".to_string(),
        whisper_model: Some("~/.local/share/assistente/whisper/ggml-medium.bin".to_string()),
        piper_bin: Some("/usr/bin/piper".to_string()),
        piper_model: None,
    };
    let e = espandi_config(cfg, Some("/home/r"));
    assert_eq!(
        e.whisper_model,
        Some("/home/r/.local/share/assistente/whisper/ggml-medium.bin".to_string())
    );
    assert_eq!(e.piper_bin, Some("/usr/bin/piper".to_string()));
    assert_eq!(e.piper_model, None);
    assert_eq!(e.sleep_time, 30);
}
