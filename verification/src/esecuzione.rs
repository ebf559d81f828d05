use vstd::prelude::*;
use crate::testo;
use crate::testo::{rifila, rifilato, sostituisci, sostituito};
use crate::messaggi::{frasi_di, kw, lista_frasi, messaggio, parole_chiave, testo_o, Messages, Sezione};
use crate::comandi::{
    adatta_lingua, adattato, contiene, contiene_una, corretto, estrai_dopo, estrai_nome_e_luogo,
    estrai_sorgente_destinazione, estratto_dopo, nome_e_luogo, normalizza_percorso_vocale,
    percorso_normalizzato, sorgente_destinazione,
};
use crate::esterni::{codifica_url, in_minuscolo, minuscolo, url_codificato};
use crate::intento::IntentHandler;

verus! {

// ─── What a command asks for ─────────────────────────────────────────────────

/// What the assistant has to do for a recognised command. Each variant holds
/// the phrases and arguments the caller needs to carry it out.
pub enum Azione {
    /// Say the phrase.
    Parla(String),
    /// The pending confirmation was refused: leave confirmation mode and say the phrase.
    ConfermaAnnullata(String),
    /// Shutdown confirmed: leave confirmation mode, say a phrase of `messaggi`
    /// and one of `saluti`, then shut the computer down.
    Spegni { messaggi: Vec<String>, saluti: Vec<String> },
    /// Reboot confirmed: leave confirmation mode, say the phrase, reboot.
    Riavvia(String),
    /// Deletion confirmed: leave confirmation mode, delete the path, report.
    CancellaFile(String),
    /// Back to stand-by: say `messaggio`, show `attesa`.
    Silenzio { messaggio: String, attesa: String },
    /// Move `sorgente` to the common folder named `luogo` when it is one,
    /// else to `destinazione`.
    SpostaFile { sorgente: String, luogo: String, destinazione: String },
    /// Create `nome` inside the common folder `luogo` when `nome_luogo` is set
    /// and the folder is known, else the path `percorso`.
    CreaCartella { nome_luogo: Option<(String, String)>, percorso: String },
    /// Ask to confirm the deletion of the path chosen as for `CreaCartella`.
    PreparaCancellazione { nome_luogo: Option<(String, String)>, percorso: String, conferma: String },
    /// Say the phrase and stop the radio.
    RadioStop(String),
    /// Show the list of stations and say the phrase.
    RadioLista(String),
    /// Change the volume as the command says, with the configured step.
    Volume {
        comando: String,
        setvol: Vec<String>,
        upvol: Vec<String>,
        downvol: Vec<String>,
        silent: Vec<String>,
        impostato: String,
        alzato: String,
        abbassato: String,
        azzerato: String,
        non_riconosciuto: String,
    },
    /// Find the station the command names and play it.
    RadioCerca(String),
    /// Say `messaggio`, open `url` in a dedicated window tracked under `chiave`.
    ApriYoutube { messaggio: String, url: String, chiave: String },
    /// Search Youtube through its API; when it succeeds and `segna_aperto`
    /// holds, Youtube counts as open.
    CercaYoutubeApi { query: String, segna_aperto: bool },
    /// Open the Youtube search page `url` in the browser.
    CercaYoutubeWeb(String),
    /// Say `messaggio` and update the system (fully when `completo`).
    Aggiorna { messaggio: String, completato: String, completo: bool },
    /// Say the phrase and wait for a spoken confirmation.
    ChiediConferma(String),
    /// Say goodbye with one of `saluti` (printed after `prefisso`) and exit.
    Esci { saluti: Vec<String>, prefisso: String },
    /// Open the file manager.
    ApriGestoreFile,
    /// Open the browser and say the phrase.
    ApriBrowser(String),
    /// Start the music player and say the phrase, where `{musicprog}` stands
    /// for the player.
    ApriMusica(String),
    /// Open the bookmark the command names, else the program: say `aperto`
    /// with `{programma}` replaced, or `non_trovato`.
    Apri { comando: String, aperto: String, non_trovato: String },
    /// Close what the command names: the bookmark it names
    /// (`IntentHandler::chiudi_bookmark`), else what its keywords name
    /// (`IntentHandler::chiudi_oggetto`).
    Chiudi(String),
    /// Ask the AI agent for a plan of actions and run it.
    AgenteAi {
        comando: String,
        botname: String,
        nessuna_azione: String,
        azione_fallita: String,
        errore_servizio: String,
    },
}

pub open spec fn coppia(o: Option<(String, String)>) -> Option<(Seq<char>, Seq<char>)> {
    match o {
        Some((a, b)) => Some((a@, b@)),
        None => None,
    }
}

/// `Azione` with every string taken as its characters.
pub enum AzioneSpec {
    Parla(Seq<char>),
    ConfermaAnnullata(Seq<char>),
    Spegni { messaggi: Seq<Seq<char>>, saluti: Seq<Seq<char>> },
    Riavvia(Seq<char>),
    CancellaFile(Seq<char>),
    Silenzio { messaggio: Seq<char>, attesa: Seq<char> },
    SpostaFile { sorgente: Seq<char>, luogo: Seq<char>, destinazione: Seq<char> },
    CreaCartella { nome_luogo: Option<(Seq<char>, Seq<char>)>, percorso: Seq<char> },
    PreparaCancellazione {
        nome_luogo: Option<(Seq<char>, Seq<char>)>,
        percorso: Seq<char>,
        conferma: Seq<char>,
    },
    RadioStop(Seq<char>),
    RadioLista(Seq<char>),
    Volume {
        comando: Seq<char>,
        setvol: Seq<Seq<char>>,
        upvol: Seq<Seq<char>>,
        downvol: Seq<Seq<char>>,
        silent: Seq<Seq<char>>,
        impostato: Seq<char>,
        alzato: Seq<char>,
        abbassato: Seq<char>,
        azzerato: Seq<char>,
        non_riconosciuto: Seq<char>,
    },
    RadioCerca(Seq<char>),
    ApriYoutube { messaggio: Seq<char>, url: Seq<char>, chiave: Seq<char> },
    CercaYoutubeApi { query: Seq<char>, segna_aperto: bool },
    CercaYoutubeWeb(Seq<char>),
    Aggiorna { messaggio: Seq<char>, completato: Seq<char>, completo: bool },
    ChiediConferma(Seq<char>),
    Esci { saluti: Seq<Seq<char>>, prefisso: Seq<char> },
    ApriGestoreFile,
    ApriBrowser(Seq<char>),
    ApriMusica(Seq<char>),
    Apri { comando: Seq<char>, aperto: Seq<char>, non_trovato: Seq<char> },
    Chiudi(Seq<char>),
    AgenteAi {
        comando: Seq<char>,
        botname: Seq<char>,
        nessuna_azione: Seq<char>,
        azione_fallita: Seq<char>,
        errore_servizio: Seq<char>,
    },
}

impl View for Azione {
    type V = AzioneSpec;

    open spec fn view(&self) -> AzioneSpec {
        match self {
            Azione::Parla(s) => AzioneSpec::Parla(s@),
            Azione::ConfermaAnnullata(s) => AzioneSpec::ConfermaAnnullata(s@),
            Azione::Spegni { messaggi, saluti } => AzioneSpec::Spegni {
                messaggi: messaggi.deep_view(),
                saluti: saluti.deep_view(),
            },
            Azione::Riavvia(s) => AzioneSpec::Riavvia(s@),
            Azione::CancellaFile(s) => AzioneSpec::CancellaFile(s@),
            Azione::Silenzio { messaggio, attesa } => AzioneSpec::Silenzio {
                messaggio: messaggio@,
                attesa: attesa@,
            },
            Azione::SpostaFile { sorgente, luogo, destinazione } => AzioneSpec::SpostaFile {
                sorgente: sorgente@,
                luogo: luogo@,
                destinazione: destinazione@,
            },
            Azione::CreaCartella { nome_luogo, percorso } => AzioneSpec::CreaCartella {
                nome_luogo: coppia(*nome_luogo),
                percorso: percorso@,
            },
            Azione::PreparaCancellazione { nome_luogo, percorso, conferma } =>
                AzioneSpec::PreparaCancellazione {
                nome_luogo: coppia(*nome_luogo),
                percorso: percorso@,
                conferma: conferma@,
            },
            Azione::RadioStop(s) => AzioneSpec::RadioStop(s@),
            Azione::RadioLista(s) => AzioneSpec::RadioLista(s@),
            Azione::Volume {
                comando,
                setvol,
                upvol,
                downvol,
                silent,
                impostato,
                alzato,
                abbassato,
                azzerato,
                non_riconosciuto,
            } => AzioneSpec::Volume {
                comando: comando@,
                setvol: setvol.deep_view(),
                upvol: upvol.deep_view(),
                downvol: downvol.deep_view(),
                silent: silent.deep_view(),
                impostato: impostato@,
                alzato: alzato@,
                abbassato: abbassato@,
                azzerato: azzerato@,
                non_riconosciuto: non_riconosciuto@,
            },
            Azione::RadioCerca(s) => AzioneSpec::RadioCerca(s@),
            Azione::ApriYoutube { messaggio, url, chiave } => AzioneSpec::ApriYoutube {
                messaggio: messaggio@,
                url: url@,
                chiave: chiave@,
            },
            Azione::CercaYoutubeApi { query, segna_aperto } => AzioneSpec::CercaYoutubeApi {
                query: query@,
                segna_aperto: *segna_aperto,
            },
            Azione::CercaYoutubeWeb(s) => AzioneSpec::CercaYoutubeWeb(s@),
            Azione::Aggiorna { messaggio, completato, completo } => AzioneSpec::Aggiorna {
                messaggio: messaggio@,
                completato: completato@,
                completo: *completo,
            },
            Azione::ChiediConferma(s) => AzioneSpec::ChiediConferma(s@),
            Azione::Esci { saluti, prefisso } => AzioneSpec::Esci {
                saluti: saluti.deep_view(),
                prefisso: prefisso@,
            },
            Azione::ApriGestoreFile => AzioneSpec::ApriGestoreFile,
            Azione::ApriBrowser(s) => AzioneSpec::ApriBrowser(s@),
            Azione::ApriMusica(s) => AzioneSpec::ApriMusica(s@),
            Azione::Apri { comando, aperto, non_trovato } => AzioneSpec::Apri {
                comando: comando@,
                aperto: aperto@,
                non_trovato: non_trovato@,
            },
            Azione::Chiudi(s) => AzioneSpec::Chiudi(s@),
            Azione::AgenteAi {
                comando,
                botname,
                nessuna_azione,
                azione_fallita,
                errore_servizio,
            } => AzioneSpec::AgenteAi {
                comando: comando@,
                botname: botname@,
                nessuna_azione: nessuna_azione@,
                azione_fallita: azione_fallita@,
                errore_servizio: errore_servizio@,
            },
        }
    }
}

// ─── Shorthands over the messages file ───────────────────────────────────────

pub open spec fn kc(m: &Messages, k: Seq<char>) -> Seq<Seq<char>> {
    parole_chiave(m, Sezione::Comandi, k)
}

pub open spec fn ko(m: &Messages, k: Seq<char>) -> Seq<Seq<char>> {
    parole_chiave(m, Sezione::Oggetti, k)
}

pub open spec fn altro(m: &Messages, k: Seq<char>, ripiego: Seq<char>) -> Seq<char> {
    testo_o(m, Sezione::Altri, k, ripiego)
}

pub open spec fn errore(m: &Messages, k: Seq<char>, ripiego: Seq<char>) -> Seq<char> {
    testo_o(m, Sezione::Errori, k, ripiego)
}

pub open spec fn non_riconosciuto(m: &Messages) -> Seq<char> {
    errore(m, "command_not_recognized"@, "[missing: error_messages.command_not_recognized]"@)
}

pub open spec fn conferma(m: &Messages) -> Seq<char> {
    altro(m, "command_confirmation"@, "[missing: other_messages.command_confirmation]"@)
}

// ─── The state a command changes ─────────────────────────────────────────────

/// The part of the handler state that commands change.
pub struct Stato {
    pub active: bool,
    pub youtube_open: bool,
    pub spegnimento: bool,
    pub riavvio: bool,
    pub cancellazione: Option<Seq<char>>,
}

pub open spec fn percorso(o: Option<String>) -> Option<Seq<char>> {
    match o {
        Some(p) => Some(p@),
        None => None,
    }
}

pub open spec fn stato(h: &IntentHandler) -> Stato {
    Stato {
        active: h.active,
        youtube_open: h.youtube_open,
        spegnimento: h.awaiting_shutdown,
        riavvio: h.awaiting_reboot,
        cancellazione: percorso(h.awaiting_delete),
    }
}

/// A confirmation is pending.
pub open spec fn in_attesa(s: Stato) -> bool {
    s.spegnimento || s.riavvio || s.cancellazione is Some
}

/// `s` with no confirmation pending.
pub open spec fn senza_attese(s: Stato) -> Stato {
    Stato {
        active: s.active,
        youtube_open: s.youtube_open,
        spegnimento: false,
        riavvio: false,
        cancellazione: None,
    }
}

/// The command as the handler reads it: lower-cased, then phonetically corrected.
pub open spec fn normalizzato(comando: Seq<char>) -> Seq<char> {
    adattato(minuscolo(comando))
}

/// The log line printed and shown for every command.
pub open spec fn riga_log(m: &Messages, c: Seq<char>) -> Seq<char> {
    "📝 "@ + sostituito(
        altro(m, "log_comando"@, "[missing: other_messages.log_comando]"@),
        "{comando}"@,
        c,
    )
}

} // verus!

verus! {

// ─── The decision, stated ────────────────────────────────────────────────────

pub open spec fn azione_sposta(m: &Messages, c: Seq<char>) -> AzioneSpec {
    match sorgente_destinazione(c, kc(m, "move"@)) {
        Some((a, b)) => AzioneSpec::SpostaFile {
            sorgente: percorso_normalizzato(a),
            luogo: minuscolo(rifilato(b)),
            destinazione: percorso_normalizzato(b),
        },
        None => AzioneSpec::Parla(non_riconosciuto(m)),
    }
}

pub open spec fn azione_crea(m: &Messages, c: Seq<char>) -> AzioneSpec {
    match estratto_dopo(c, ko(m, "folder"@) + kc(m, "create"@)) {
        Some(t) => AzioneSpec::CreaCartella {
            nome_luogo: nome_e_luogo(t),
            percorso: percorso_normalizzato(t),
        },
        None => AzioneSpec::Parla(non_riconosciuto(m)),
    }
}

pub open spec fn azione_cancella(m: &Messages, c: Seq<char>) -> AzioneSpec {
    match estratto_dopo(c, ko(m, "folder"@).push("file"@) + kc(m, "delete"@)) {
        Some(t) => AzioneSpec::PreparaCancellazione {
            nome_luogo: nome_e_luogo(t),
            percorso: percorso_normalizzato(t),
            conferma: conferma(m),
        },
        None => AzioneSpec::Parla(non_riconosciuto(m)),
    }
}

pub open spec fn chiede_volume(m: &Messages, c: Seq<char>) -> bool {
    ||| testo::contiene(c, "volume"@)
    ||| contiene_una(c, kc(m, "upvol"@))
    ||| contiene_una(c, kc(m, "downvol"@))
    ||| contiene_una(c, kc(m, "setvol"@))
    ||| contiene_una(c, kc(m, "silent"@))
}

pub open spec fn azione_volume(m: &Messages, c: Seq<char>) -> AzioneSpec {
    AzioneSpec::Volume {
        comando: c,
        setvol: kc(m, "setvol"@),
        upvol: kc(m, "upvol"@),
        downvol: kc(m, "downvol"@),
        silent: kc(m, "silent"@),
        impostato: altro(m, "volume_set"@, "[missing: other_messages.volume_set]"@),
        alzato: altro(m, "volume_increased"@, "[missing: other_messages.volume_increased]"@),
        abbassato: altro(m, "volume_decreased"@, "[missing: other_messages.volume_decreased]"@),
        azzerato: altro(m, "volume_muted"@, "[missing: other_messages.volume_muted]"@),
        non_riconosciuto: non_riconosciuto(m),
    }
}

pub open spec fn azione_radio(m: &Messages, c: Seq<char>) -> AzioneSpec {
    if contiene_una(c, kc(m, "turnoff"@)) || contiene_una(c, kc(m, "close"@)) {
        AzioneSpec::RadioStop(altro(m, "radio_closed"@, ""@))
    } else if contiene_una(c, ko(m, "list"@)) {
        AzioneSpec::RadioLista(altro(m, "radio_list"@, ""@))
    } else if chiede_volume(m, c) {
        azione_volume(m, c)
    } else {
        AzioneSpec::RadioCerca(c)
    }
}

pub open spec fn vuole_cercare(m: &Messages, c: Seq<char>) -> bool {
    contiene_una(c, kc(m, "search"@)) || testo::contiene(c, "cerca"@)
}

/// The command is about Youtube: it names it, or it is a search while Youtube
/// is open; and it does not ask to close.
pub open spec fn vuole_youtube(s: Stato, m: &Messages, c: Seq<char>) -> bool {
    (testo::contiene(c, "youtube"@) || (s.youtube_open && vuole_cercare(m, c))) && !contiene_una(
        c,
        kc(m, "close"@),
    )
}

pub open spec fn con_youtube(s: Stato, aperto: bool) -> Stato {
    Stato {
        active: s.active,
        youtube_open: aperto,
        spegnimento: s.spegnimento,
        riavvio: s.riavvio,
        cancellazione: s.cancellazione,
    }
}

/// The Youtube search text: the command without "cerca su youtube" (any
/// case), trimmed.
pub open spec fn ricerca_youtube(c: Seq<char>) -> Seq<char> {
    rifilato(corretto(c, "(?i)cerca su youtube"@, ""@))
}

pub open spec fn decidi_youtube(s: Stato, m: &Messages, c: Seq<char>, yt_vuota: bool) -> (Stato, AzioneSpec) {
    if contiene_una(c, kc(m, "open"@)) && !vuole_cercare(m, c) {
        (
            con_youtube(s, true),
            AzioneSpec::ApriYoutube {
                messaggio: altro(m, "youtube_opened"@, ""@),
                url: "https://www.youtube.com"@,
                chiave: "youtube"@,
            },
        )
    } else if !yt_vuota {
        (
            s,
            AzioneSpec::CercaYoutubeApi {
                query: ricerca_youtube(c),
                segna_aperto: testo::contiene(c, "youtube"@),
            },
        )
    } else {
        (
            s,
            AzioneSpec::CercaYoutubeWeb(
                "https://www.youtube.com/results?search_query="@ + url_codificato(
                    ricerca_youtube(c),
                ),
            ),
        )
    }
}

/// The command is just one of the exit words.
pub open spec fn solo_uscita(m: &Messages, c: Seq<char>) -> bool {
    exists|i: int| 0 <= i < kc(m, "exit"@).len() && rifilato(c) == kc(m, "exit"@)[i]
}

/// Every file-manager keyword is in the command.
pub open spec fn gestore_file(m: &Messages, c: Seq<char>) -> bool {
    forall|i: int| 0 <= i < ko(m, "filemanager"@).len() ==> testo::contiene(c, ko(m, "filemanager"@)[i])
}

pub open spec fn decidi_apri(s: Stato, m: &Messages, c: Seq<char>) -> (Stato, AzioneSpec) {
    if gestore_file(m, c) {
        (s, AzioneSpec::ApriGestoreFile)
    } else if contiene_una(c, ko(m, "internet"@)) {
        (
            con_youtube(s, s.youtube_open || testo::contiene(c, "youtube"@)),
            AzioneSpec::ApriBrowser(altro(m, "browser_opened"@, ""@)),
        )
    } else if contiene_una(c, ko(m, "music"@)) {
        (s, AzioneSpec::ApriMusica(altro(m, "music_player_opened"@, ""@)))
    } else {
        (
            s,
            AzioneSpec::Apri {
                comando: c,
                aperto: altro(m, "program_opened"@, "[missing: other_messages.program_opened]"@),
                non_trovato: sostituito(
                    errore(m, "program_not_found"@, "[missing: error_messages.program_not_found]"@),
                    "{program}"@,
                    c,
                ),
            },
        )
    }
}

pub open spec fn azione_ai(m: &Messages, bot: Seq<char>, c: Seq<char>, api_vuota: bool) -> AzioneSpec {
    if !api_vuota {
        AzioneSpec::AgenteAi {
            comando: c,
            botname: bot,
            nessuna_azione: errore(m, "ai_no_action"@, "[missing: error_messages.ai_no_action]"@),
            azione_fallita: errore(
                m,
                "ai_action_failed"@,
                "[missing: error_messages.ai_action_failed]"@,
            ),
            errore_servizio: errore(
                m,
                "ai_service_error"@,
                "[missing: error_messages.ai_service_error]"@,
            ),
        }
    } else {
        AzioneSpec::Parla(
            errore(m, "ai_not_configured"@, "[missing: error_messages.ai_not_configured]"@),
        )
    }
}

/// What a command asks for once no confirmation is pending, in order of
/// precedence; the local intents always come before the AI agent.
pub open spec fn decidi_comando(
    s: Stato,
    m: &Messages,
    bot: Seq<char>,
    c: Seq<char>,
    api_vuota: bool,
    yt_vuota: bool,
) -> (Stato, AzioneSpec) {
    if contiene_una(c, kc(m, "mute"@)) {
        (
            Stato {
                active: false,
                youtube_open: s.youtube_open,
                spegnimento: false,
                riavvio: false,
                cancellazione: None,
            },
            AzioneSpec::Silenzio {
                messaggio: altro(
                    m,
                    "muted_confirmation"@,
                    "[missing: other_messages.muted_confirmation]"@,
                ),
                attesa: sostituito(
                    altro(m, "waiting_wakeword"@, "[missing: other_messages.waiting_wakeword]"@),
                    "{botname}"@,
                    bot,
                ),
            },
        )
    } else if contiene_una(c, kc(m, "move"@)) {
        (s, azione_sposta(m, c))
    } else if contiene_una(c, kc(m, "create"@)) && contiene_una(c, ko(m, "folder"@)) {
        (s, azione_crea(m, c))
    } else if contiene_una(c, kc(m, "delete"@)) {
        (s, azione_cancella(m, c))
    } else if testo::contiene(c, "radio"@) {
        (s, azione_radio(m, c))
    } else if vuole_youtube(s, m, c) {
        decidi_youtube(s, m, c, yt_vuota)
    } else if chiede_volume(m, c) {
        (s, azione_volume(m, c))
    } else if contiene_una(c, kc(m, "update"@)) && contiene_una(c, ko(m, "pc"@)) {
        (
            s,
            AzioneSpec::Aggiorna {
                messaggio: altro(m, "update_in_progress"@, ""@),
                completato: altro(
                    m,
                    "update_completed"@,
                    "[missing: other_messages.update_completed]"@,
                ),
                completo: contiene_una(c, ko(m, "update_full"@)),
            },
        )
    } else if contiene_una(c, kc(m, "turnoff"@)) && contiene_una(c, ko(m, "pc"@)) {
        (
            Stato {
                active: s.active,
                youtube_open: s.youtube_open,
                spegnimento: true,
                riavvio: s.riavvio,
                cancellazione: s.cancellazione,
            },
            AzioneSpec::ChiediConferma(conferma(m)),
        )
    } else if contiene_una(c, kc(m, "restart"@)) && contiene_una(c, ko(m, "pc"@)) {
        (
            Stato {
                active: s.active,
                youtube_open: s.youtube_open,
                spegnimento: s.spegnimento,
                riavvio: true,
                cancellazione: s.cancellazione,
            },
            AzioneSpec::ChiediConferma(conferma(m)),
        )
    } else if (contiene_una(c, kc(m, "exit"@)) && contiene_una(c, ko(m, "program"@))) || solo_uscita(
        m,
        c,
    ) {
        (
            s,
            AzioneSpec::Esci {
                saluti: m.goodbye_messages.deep_view(),
                prefisso: "🤖 "@ + bot + ": "@,
            },
        )
    } else if contiene_una(c, kc(m, "open"@)) {
        decidi_apri(s, m, c)
    } else if contiene_una(c, kc(m, "close"@)) {
        (s, AzioneSpec::Chiudi(c))
    } else {
        (s, azione_ai(m, bot, c, api_vuota))
    }
}

/// The whole decision for a command `c` (already normalised): first the
/// pending confirmation, then the command. The `bool` says that a pending
/// confirmation was dropped because the command is about something else.
pub open spec fn decidi(
    s: Stato,
    m: &Messages,
    bot: Seq<char>,
    c: Seq<char>,
    api_vuota: bool,
    yt_vuota: bool,
) -> (Stato, bool, AzioneSpec) {
    if in_attesa(s) {
        if testo::contiene(c, "no"@) {
            (
                senza_attese(s),
                false,
                AzioneSpec::ConfermaAnnullata(altro(m, "shutdown_cancelled"@, ""@)),
            )
        } else if contiene_una(c, kc(m, "reply"@)) {
            if s.spegnimento {
                (
                    Stato {
                        active: s.active,
                        youtube_open: s.youtube_open,
                        spegnimento: false,
                        riavvio: s.riavvio,
                        cancellazione: s.cancellazione,
                    },
                    false,
                    AzioneSpec::Spegni {
                        messaggi: frasi_di(m, Sezione::Altri, "shutdown_executed"@),
                        saluti: m.goodbye_messages.deep_view(),
                    },
                )
            } else if s.riavvio {
                (
                    Stato {
                        active: s.active,
                        youtube_open: s.youtube_open,
                        spegnimento: s.spegnimento,
                        riavvio: false,
                        cancellazione: s.cancellazione,
                    },
                    false,
                    AzioneSpec::Riavvia(altro(m, "reboot_executed"@, ""@)),
                )
            } else {
                (
                    Stato {
                        active: s.active,
                        youtube_open: s.youtube_open,
                        spegnimento: s.spegnimento,
                        riavvio: s.riavvio,
                        cancellazione: None,
                    },
                    false,
                    AzioneSpec::CancellaFile(s.cancellazione->0),
                )
            }
        } else {
            let (s2, a) = decidi_comando(senza_attese(s), m, bot, c, api_vuota, yt_vuota);
            (s2, true, a)
        }
    } else {
        let (s2, a) = decidi_comando(s, m, bot, c, api_vuota, yt_vuota);
        (s2, false, a)
    }
}

} // verus!

verus! {

// ─── The decision, carried out ───────────────────────────────────────────────

fn non_riconosciuto_di(m: &Messages) -> (r: String)
    ensures
        r@ == non_riconosciuto(m),
{
    messaggio(
        m,
        Sezione::Errori,
        "command_not_recognized",
        "[missing: error_messages.command_not_recognized]",
    )
}

fn conferma_di(m: &Messages) -> (r: String)
    ensures
        r@ == conferma(m),
{
    messaggio(m, Sezione::Altri, "command_confirmation", "[missing: other_messages.command_confirmation]")
}

fn unisci_elenchi(mut a: Vec<String>, mut b: Vec<String>) -> (r: Vec<String>)
    ensures
        r.deep_view() == a.deep_view() + b.deep_view(),
{
    let ghost da = a.deep_view();
    let ghost db = b.deep_view();
    a.append(&mut b);
    assert(a.deep_view() =~= da + db);
    a
}

fn azione_sposta_di(m: &Messages, c: &str) -> (r: Azione)
    ensures
        r@ == azione_sposta(m, c@),
{
    let verbi = kw(m, Sezione::Comandi, "move");
    match estrai_sorgente_destinazione(c, &verbi) {
        Some((a, b)) => {
            let sorgente = normalizza_percorso_vocale(a.as_str());
            let t = rifila(b.as_str());
            let luogo = in_minuscolo(t.as_str());
            let destinazione = normalizza_percorso_vocale(b.as_str());
            Azione::SpostaFile { sorgente, luogo, destinazione }
        },
        None => Azione::Parla(non_riconosciuto_di(m)),
    }
}

fn azione_crea_di(m: &Messages, c: &str) -> (r: Azione)
    ensures
        r@ == azione_crea(m, c@),
{
    let chiavi = unisci_elenchi(kw(m, Sezione::Oggetti, "folder"), kw(m, Sezione::Comandi, "create"));
    match estrai_dopo(c, &chiavi) {
        Some(t) => {
            let nome_luogo = estrai_nome_e_luogo(t.as_str());
            let percorso = normalizza_percorso_vocale(t.as_str());
            Azione::CreaCartella { nome_luogo, percorso }
        },
        None => Azione::Parla(non_riconosciuto_di(m)),
    }
}

fn azione_cancella_di(m: &Messages, c: &str) -> (r: Azione)
    ensures
        r@ == azione_cancella(m, c@),
{
    let mut cartella = kw(m, Sezione::Oggetti, "folder");
    let ghost prima = cartella.deep_view();
    cartella.push(String::from_str("file"));
    assert(cartella.deep_view() =~= prima.push("file"@));
    let chiavi = unisci_elenchi(cartella, kw(m, Sezione::Comandi, "delete"));
    match estrai_dopo(c, &chiavi) {
        Some(t) => {
            let nome_luogo = estrai_nome_e_luogo(t.as_str());
            let percorso = normalizza_percorso_vocale(t.as_str());
            Azione::PreparaCancellazione { nome_luogo, percorso, conferma: conferma_di(m) }
        },
        None => Azione::Parla(non_riconosciuto_di(m)),
    }
}

fn chiede_volume_di(m: &Messages, c: &str) -> (r: bool)
    ensures
        r == chiede_volume(m, c@),
{
    testo::contiene_testo(c, "volume") || contiene(c, &kw(m, Sezione::Comandi, "upvol")) || contiene(
        c,
        &kw(m, Sezione::Comandi, "downvol"),
    ) || contiene(c, &kw(m, Sezione::Comandi, "setvol")) || contiene(
        c,
        &kw(m, Sezione::Comandi, "silent"),
    )
}

fn azione_volume_di(m: &Messages, c: &str) -> (r: Azione)
    ensures
        r@ == azione_volume(m, c@),
{
    Azione::Volume {
        comando: String::from_str(c),
        setvol: kw(m, Sezione::Comandi, "setvol"),
        upvol: kw(m, Sezione::Comandi, "upvol"),
        downvol: kw(m, Sezione::Comandi, "downvol"),
        silent: kw(m, Sezione::Comandi, "silent"),
        impostato: messaggio(m, Sezione::Altri, "volume_set", "[missing: other_messages.volume_set]"),
        alzato: messaggio(
            m,
            Sezione::Altri,
            "volume_increased",
            "[missing: other_messages.volume_increased]",
        ),
        abbassato: messaggio(
            m,
            Sezione::Altri,
            "volume_decreased",
            "[missing: other_messages.volume_decreased]",
        ),
        azzerato: messaggio(m, Sezione::Altri, "volume_muted", "[missing: other_messages.volume_muted]"),
        non_riconosciuto: non_riconosciuto_di(m),
    }
}

fn azione_radio_di(m: &Messages, c: &str) -> (r: Azione)
    ensures
        r@ == azione_radio(m, c@),
{
    if contiene(c, &kw(m, Sezione::Comandi, "turnoff")) || contiene(c, &kw(m, Sezione::Comandi, "close")) {
        Azione::RadioStop(messaggio(m, Sezione::Altri, "radio_closed", ""))
    } else if contiene(c, &kw(m, Sezione::Oggetti, "list")) {
        Azione::RadioLista(messaggio(m, Sezione::Altri, "radio_list", ""))
    } else if chiede_volume_di(m, c) {
        azione_volume_di(m, c)
    } else {
        Azione::RadioCerca(String::from_str(c))
    }
}

fn vuole_cercare_di(m: &Messages, c: &str) -> (r: bool)
    ensures
        r == vuole_cercare(m, c@),
{
    contiene(c, &kw(m, Sezione::Comandi, "search")) || testo::contiene_testo(c, "cerca")
}

fn solo_uscita_di(m: &Messages, c: &str) -> (r: bool)
    ensures
        r == solo_uscita(m, c@),
{
    let uscita = kw(m, Sezione::Comandi, "exit");
    let t = rifila(c);
    let mut i: usize = 0;
    while i < uscita.len()
        invariant
            i <= uscita@.len(),
            uscita.deep_view() == kc(m, "exit"@),
            t@ == rifilato(c@),
            forall|j: int| 0 <= j < i ==> t@ != kc(m, "exit"@)[j],
        decreases uscita@.len() - i,
    {
        assert(uscita.deep_view()[i as int] == uscita@[i as int]@);
        if testo::uguali_testo(t.as_str(), uscita[i].as_str()) {
            return true;
        }
        i = i + 1;
    }
    false
}

fn gestore_file_di(m: &Messages, c: &str) -> (r: bool)
    ensures
        r == gestore_file(m, c@),
{
    let parole = kw(m, Sezione::Oggetti, "filemanager");
    let mut i: usize = 0;
    while i < parole.len()
        invariant
            i <= parole@.len(),
            parole.deep_view() == ko(m, "filemanager"@),
            forall|j: int| 0 <= j < i ==> testo::contiene(c@, ko(m, "filemanager"@)[j]),
        decreases parole@.len() - i,
    {
        assert(parole.deep_view()[i as int] == parole@[i as int]@);
        if !testo::contiene_testo(c, parole[i].as_str()) {
            return false;
        }
        i = i + 1;
    }
    true
}

fn azione_ai_di(m: &Messages, bot: &str, c: &str, api_key: &str) -> (r: Azione)
    ensures
        r@ == azione_ai(m, bot@, c@, api_key@.len() == 0),
{
    if api_key.unicode_len() > 0 {
        Azione::AgenteAi {
            comando: String::from_str(c),
            botname: String::from_str(bot),
            nessuna_azione: messaggio(
                m,
                Sezione::Errori,
                "ai_no_action",
                "[missing: error_messages.ai_no_action]",
            ),
            azione_fallita: messaggio(
                m,
                Sezione::Errori,
                "ai_action_failed",
                "[missing: error_messages.ai_action_failed]",
            ),
            errore_servizio: messaggio(
                m,
                Sezione::Errori,
                "ai_service_error",
                "[missing: error_messages.ai_service_error]",
            ),
        }
    } else {
        Azione::Parla(
            messaggio(
                m,
                Sezione::Errori,
                "ai_not_configured",
                "[missing: error_messages.ai_not_configured]",
            ),
        )
    }
}

} // verus!

verus! {

/// What `esegui` hands back for one command.
pub struct Esito {
    /// The log line, to print and to show.
    pub riga_log: String,
    /// A pending confirmation was dropped: confirmation mode must be left.
    pub annulla_conferma: bool,
    pub azione: Azione,
}

/// The handler fields that commands never change.
pub open spec fn invariato(a: &IntentHandler, b: &IntentHandler) -> bool {
    &&& a.wakeword == b.wakeword
    &&& a.botname == b.botname
    &&& a.messages == b.messages
    &&& a.listaprogrammi == b.listaprogrammi
    &&& a.listabookmarks == b.listabookmarks
    &&& a.stations_csv == b.stations_csv
    &&& a.finestre_bookmark == b.finestre_bookmark
}

impl IntentHandler {
    fn decidi_youtube_di(&mut self, c: &str, yt_key: &str) -> (r: Azione)
        ensures
            (stato(final(self)), r@) == decidi_youtube(
                stato(old(self)),
                &old(self).messages,
                c@,
                yt_key@.len() == 0,
            ),
            invariato(old(self), final(self)),
    {
        let m = &self.messages;
        if contiene(c, &kw(m, Sezione::Comandi, "open")) && !vuole_cercare_di(m, c) {
            let messaggio = messaggio(m, Sezione::Altri, "youtube_opened", "");
            self.youtube_open = true;
            return Azione::ApriYoutube {
                messaggio,
                url: String::from_str("https://www.youtube.com"),
                chiave: String::from_str("youtube"),
            };
        }
        let corretta = crate::comandi::correggi(String::from_str(c), "(?i)cerca su youtube", "");
        let query = rifila(corretta.as_str());
        if yt_key.unicode_len() > 0 {
            Azione::CercaYoutubeApi { query, segna_aperto: testo::contiene_testo(c, "youtube") }
        } else {
            let mut url = String::from_str("https://www.youtube.com/results?search_query=");
            let codificata = codifica_url(query.as_str());
            url.append(codificata.as_str());
            Azione::CercaYoutubeWeb(url)
        }
    }

    fn decidi_apri_di(&mut self, c: &str) -> (r: Azione)
        ensures
            (stato(final(self)), r@) == decidi_apri(stato(old(self)), &old(self).messages, c@),
            invariato(old(self), final(self)),
    {
        let m = &self.messages;
        if gestore_file_di(m, c) {
            Azione::ApriGestoreFile
        } else if contiene(c, &kw(m, Sezione::Oggetti, "internet")) {
            let messaggio = messaggio(m, Sezione::Altri, "browser_opened", "");
            if testo::contiene_testo(c, "youtube") {
                self.youtube_open = true;
            }
            Azione::ApriBrowser(messaggio)
        } else if contiene(c, &kw(m, Sezione::Oggetti, "music")) {
            Azione::ApriMusica(messaggio(m, Sezione::Altri, "music_player_opened", ""))
        } else {
            let aperto = messaggio(
                m,
                Sezione::Altri,
                "program_opened",
                "[missing: other_messages.program_opened]",
            );
            let t = messaggio(
                m,
                Sezione::Errori,
                "program_not_found",
                "[missing: error_messages.program_not_found]",
            );
            let non_trovato = sostituisci(t.as_str(), "{program}", c);
            Azione::Apri { comando: String::from_str(c), aperto, non_trovato }
        }
    }

    fn decidi_comando_di(&mut self, c: &str, api_key: &str, yt_key: &str) -> (r: Azione)
        ensures
            (stato(final(self)), r@) == decidi_comando(
                stato(old(self)),
                &old(self).messages,
                old(self).botname@,
                c@,
                api_key@.len() == 0,
                yt_key@.len() == 0,
            ),
            invariato(old(self), final(self)),
    {
        let m = &self.messages;
        if contiene(c, &kw(m, Sezione::Comandi, "mute")) {
            let messaggio_muto = messaggio(
                m,
                Sezione::Altri,
                "muted_confirmation",
                "[missing: other_messages.muted_confirmation]",
            );
            let t = messaggio(
                m,
                Sezione::Altri,
                "waiting_wakeword",
                "[missing: other_messages.waiting_wakeword]",
            );
            let attesa = sostituisci(t.as_str(), "{botname}", self.botname.as_str());
            self.active = false;
            self.awaiting_shutdown = false;
            self.awaiting_reboot = false;
            self.awaiting_delete = None;
            return Azione::Silenzio { messaggio: messaggio_muto, attesa };
        }
        if contiene(c, &kw(m, Sezione::Comandi, "move")) {
            return azione_sposta_di(m, c);
        }
        if contiene(c, &kw(m, Sezione::Comandi, "create")) && contiene(
            c,
            &kw(m, Sezione::Oggetti, "folder"),
        ) {
            return azione_crea_di(m, c);
        }
        if contiene(c, &kw(m, Sezione::Comandi, "delete")) {
            return azione_cancella_di(m, c);
        }
        if testo::contiene_testo(c, "radio") {
            return azione_radio_di(m, c);
        }
        let cercare = vuole_cercare_di(m, c);
        let chiudere = contiene(c, &kw(m, Sezione::Comandi, "close"));
        if (testo::contiene_testo(c, "youtube") || (self.youtube_open && cercare)) && !chiudere {
            return self.decidi_youtube_di(c, yt_key);
        }
        if chiede_volume_di(m, c) {
            return azione_volume_di(m, c);
        }
        let pc = kw(m, Sezione::Oggetti, "pc");
        if contiene(c, &kw(m, Sezione::Comandi, "update")) && contiene(c, &pc) {
            return Azione::Aggiorna {
                messaggio: messaggio(m, Sezione::Altri, "update_in_progress", ""),
                completato: messaggio(
                    m,
                    Sezione::Altri,
                    "update_completed",
                    "[missing: other_messages.update_completed]",
                ),
                completo: contiene(c, &kw(m, Sezione::Oggetti, "update_full")),
            };
        }
        if contiene(c, &kw(m, Sezione::Comandi, "turnoff")) && contiene(c, &pc) {
            let msg = conferma_di(m);
            self.awaiting_shutdown = true;
            return Azione::ChiediConferma(msg);
        }
        if contiene(c, &kw(m, Sezione::Comandi, "restart")) && contiene(c, &pc) {
            let msg = conferma_di(m);
            self.awaiting_reboot = true;
            return Azione::ChiediConferma(msg);
        }
        if (contiene(c, &kw(m, Sezione::Comandi, "exit")) && contiene(
            c,
            &kw(m, Sezione::Oggetti, "program"),
        )) || solo_uscita_di(m, c) {
            let mut prefisso = String::from_str("🤖 ");
            prefisso.append(self.botname.as_str());
            prefisso.append(": ");
            return Azione::Esci { saluti: m.goodbye_messages.clone(), prefisso };
        }
        if contiene(c, &kw(m, Sezione::Comandi, "open")) {
            return self.decidi_apri_di(c);
        }
        if chiudere {
            return Azione::Chiudi(String::from_str(c));
        }
        azione_ai_di(m, self.botname.as_str(), c, api_key)
    }

    /// Decides what to do for a recognised command. The command is
    /// lower-cased and phonetically corrected; a pending confirmation is
    /// settled first ("no" refuses it, a reply keyword accepts it, anything
    /// else drops it and is handled as a new command); then the local intents
    /// are tried in order, and only what none of them recognises goes to the
    /// AI agent (when `api_key` is set). `yt_key` selects the Youtube API
    /// search over the plain search page.
    pub fn esegui(&mut self, comando: &str, api_key: &str, yt_key: &str) -> (r: Esito)
        ensures
            ({
                let c = normalizzato(comando@);
                let (s2, annulla, a) = decidi(
                    stato(old(self)),
                    &old(self).messages,
                    old(self).botname@,
                    c,
                    api_key@.len() == 0,
                    yt_key@.len() == 0,
                );
                &&& stato(final(self)) == s2
                &&& r.annulla_conferma == annulla
                &&& r.azione@ == a
                &&& r.riga_log@ == riga_log(&old(self).messages, c)
            }),
            invariato(old(self), final(self)),
    {
        let cl = in_minuscolo(comando);
        let c = adatta_lingua(cl.as_str());
        let t = messaggio(&self.messages, Sezione::Altri, "log_comando", "[missing: other_messages.log_comando]");
        let log = sostituisci(t.as_str(), "{comando}", c.as_str());
        let mut riga_log = String::from_str("📝 ");
        riga_log.append(log.as_str());
        let mut annulla_conferma = false;
        if self.awaiting_shutdown || self.awaiting_reboot || self.awaiting_delete.is_some() {
            if testo::contiene_testo(c.as_str(), "no") {
                let msg = messaggio(&self.messages, Sezione::Altri, "shutdown_cancelled", "");
                self.awaiting_shutdown = false;
                self.awaiting_reboot = false;
                self.awaiting_delete = None;
                return Esito { riga_log, annulla_conferma, azione: Azione::ConfermaAnnullata(msg) };
            }
            if contiene(c.as_str(), &kw(&self.messages, Sezione::Comandi, "reply")) {
                if self.awaiting_shutdown {
                    let messaggi = lista_frasi(&self.messages, Sezione::Altri, "shutdown_executed");
                    let saluti = self.messages.goodbye_messages.clone();
                    self.awaiting_shutdown = false;
                    return Esito {
                        riga_log,
                        annulla_conferma,
                        azione: Azione::Spegni { messaggi, saluti },
                    };
                }
                if self.awaiting_reboot {
                    let msg = messaggio(&self.messages, Sezione::Altri, "reboot_executed", "");
                    self.awaiting_reboot = false;
                    return Esito { riga_log, annulla_conferma, azione: Azione::Riavvia(msg) };
                }
                let percorso = match &self.awaiting_delete {
                    Some(p) => p.clone(),
                    None => String::new(),
                };
                self.awaiting_delete = None;
                return Esito { riga_log, annulla_conferma, azione: Azione::CancellaFile(percorso) };
            }
            self.awaiting_shutdown = false;
            self.awaiting_reboot = false;
            self.awaiting_delete = None;
            annulla_conferma = true;
        }
        let azione = self.decidi_comando_di(c.as_str(), api_key, yt_key);
        Esito { riga_log, annulla_conferma, azione }
    }

    /// Records the path whose deletion waits for a spoken confirmation.
    pub fn attendi_cancellazione(&mut self, percorso: String)
        ensures
            final(self).awaiting_delete == Some(percorso),
            final(self).awaiting_shutdown == old(self).awaiting_shutdown,
            final(self).awaiting_reboot == old(self).awaiting_reboot,
            final(self).active == old(self).active,
            final(self).youtube_open == old(self).youtube_open,
            invariato(old(self), final(self)),
    {
        self.awaiting_delete = Some(percorso);
    }

    /// After a Youtube API search: when it succeeded and the command named
    /// Youtube, Youtube counts as open.
    pub fn esito_ricerca_youtube(&mut self, riuscita: bool, segna_aperto: bool)
        ensures
            final(self).youtube_open == (old(self).youtube_open || (riuscita && segna_aperto)),
            final(self).active == old(self).active,
            final(self).awaiting_shutdown == old(self).awaiting_shutdown,
            final(self).awaiting_reboot == old(self).awaiting_reboot,
            final(self).awaiting_delete == old(self).awaiting_delete,
            invariato(old(self), final(self)),
    {
        if riuscita && segna_aperto {
            self.youtube_open = true;
        }
    }

    /// When saying the phrase of `azione` fails, what the phrase announced
    /// does not happen: going to stand-by (the active flag goes back to
    /// `attivo_prima`), opening Youtube or the browser (the Youtube flag goes
    /// back to `youtube_prima`), or waiting for a confirmation (nothing stays
    /// pending). After any other action nothing changes.
    pub fn annuncio_fallito(&mut self, azione: &Azione, attivo_prima: bool, youtube_prima: bool)
        ensures
            match azione@ {
                AzioneSpec::Silenzio { .. } => final(self).active == attivo_prima
                    && final(self).youtube_open == old(self).youtube_open
                    && final(self).awaiting_shutdown == old(self).awaiting_shutdown
                    && final(self).awaiting_reboot == old(self).awaiting_reboot
                    && final(self).awaiting_delete == old(self).awaiting_delete,
                AzioneSpec::ChiediConferma(_) => !final(self).awaiting_shutdown
                    && !final(self).awaiting_reboot
                    && final(self).awaiting_delete == old(self).awaiting_delete
                    && final(self).active == old(self).active
                    && final(self).youtube_open == old(self).youtube_open,
                AzioneSpec::ApriYoutube { .. } | AzioneSpec::ApriBrowser(_) =>
                    final(self).youtube_open == youtube_prima
                    && final(self).active == old(self).active
                    && final(self).awaiting_shutdown == old(self).awaiting_shutdown
                    && final(self).awaiting_reboot == old(self).awaiting_reboot
                    && final(self).awaiting_delete == old(self).awaiting_delete,
                _ => *final(self) == *old(self),
            },
            invariato(old(self), final(self)),
    {
        match azione {
            Azione::Silenzio { .. } => {
                self.active = attivo_prima;
            },
            Azione::ChiediConferma(_) => {
                self.awaiting_shutdown = false;
                self.awaiting_reboot = false;
            },
            Azione::ApriYoutube { .. } | Azione::ApriBrowser(_) => {
                self.youtube_open = youtube_prima;
            },
            _ => {},
        }
    }
}

} // verus!

verus! {

// ─── Wakeword recognition ────────────────────────────────────────────────────

/// `s` with every leading repetition of the non-empty prefix `p` removed
/// (`str::trim_start_matches`).
pub open spec fn senza_prefissi(s: Seq<char>, p: Seq<char>) -> Seq<char>
    decreases s.len(),
{
    if p.len() > 0 && testo::occorre_a(s, p, 0) {
        senza_prefissi(s.subrange(p.len() as int, s.len() as int), p)
    } else {
        s
    }
}

/// `str::trim_start_matches` with a non-empty string pattern.
pub fn togli_prefissi(s: &str, p: &str) -> (r: String)
    requires
        p@.len() > 0,
    ensures
        r@ == senza_prefissi(s@, p@),
{
    let v = testo::caratteri(s);
    let pv = testo::caratteri(p);
    let n = v.len();
    let mut i: usize = 0;
    assert(s@.subrange(0, n as int) =~= s@);
    while i <= n && testo::coincide_a(&v, &pv, i)
        invariant
            v@ == s@,
            pv@ == p@,
            p@.len() > 0,
            n == s@.len(),
            i <= n,
            senza_prefissi(s@, p@) == senza_prefissi(s@.subrange(i as int, n as int), p@),
        decreases n - i,
    {
        let ghost r = s@.subrange(i as int, n as int);
        assert(testo::occorre_a(r, p@, 0)) by {
            assert(r.subrange(0, p@.len() as int) =~= s@.subrange(i as int, i + p@.len()));
        }
        assert(r.subrange(p@.len() as int, r.len() as int) =~= s@.subrange(i + p@.len(), n as int));
        i = i + pv.len();
    }
    let ghost r = s@.subrange(i as int, n as int);
    assert(!testo::occorre_a(r, p@, 0)) by {
        if testo::occorre_a(r, p@, 0) {
            assert(r.subrange(0, p@.len() as int) =~= s@.subrange(i as int, i + p@.len()));
        }
    }
    testo::sottostringa(s, i, n)
}

/// What `comrecon` asks for.
pub enum Riconoscimento {
    /// In stand-by and the wakeword was not said: nothing to do.
    Ignora,
    /// Show `notifica` (when set), then say one of `benvenuti`.
    Benvenuto { notifica: Option<String>, benvenuti: Vec<String> },
    /// Show `notifica` and print `registro` (when set), then run `comando`
    /// through `esegui`.
    Esegui { notifica: Option<String>, registro: Option<String>, comando: String },
}

pub open spec fn testo_opz(o: Option<String>) -> Option<Seq<char>> {
    match o {
        Some(t) => Some(t@),
        None => None,
    }
}

/// The notice shown when the wakeword wakes the assistant up.
pub open spec fn notifica_attivo(bot: Seq<char>) -> Seq<char> {
    "🤖 "@ + bot + " attivo"@
}

/// What a recognised utterance asks for, and whether the assistant is active
/// afterwards. A GUI command (`__GUI__` prefix) runs as it is. In stand-by
/// only an utterance holding the wakeword counts: it wakes the assistant and
/// the rest of it, cleaned, is the command (or a welcome, when nothing is
/// left). Once active, every utterance is cleaned of the wakeword (exactly,
/// or of the word `simile` judged close to it) and run.
pub open spec fn riconosciuto(
    active: bool,
    m: &Messages,
    bot: Seq<char>,
    wakeword: Seq<char>,
    comando: Seq<char>,
    simile: Option<int>,
    r: Riconoscimento,
) -> bool {
    let gui = "__GUI__"@;
    let cl = minuscolo(comando);
    let benvenuti = m.welcome_messages.deep_view();
    if testo::occorre_a(comando, gui, 0) {
        r matches Riconoscimento::Esegui { notifica, registro, comando: cmd } && notifica is None
            && registro is None && cmd@ == senza_prefissi(comando, gui)
    } else if !active {
        if testo::contiene(cl, wakeword) {
            let pulito = crate::comandi::pulito(crate::comandi::senza_wakeword(cl, wakeword, None));
            if pulito.len() == 0 {
                r matches Riconoscimento::Benvenuto { notifica, benvenuti: b } && testo_opz(notifica)
                    == Some(notifica_attivo(bot)) && b.deep_view() == benvenuti
            } else {
                r matches Riconoscimento::Esegui { notifica, registro, comando: cmd } && testo_opz(
                    notifica,
                ) == Some(notifica_attivo(bot)) && testo_opz(registro) == Some(
                    "🤖 "@ + sostituito(
                        sostituito(
                            altro(
                                m,
                                "log_attivato_comando"@,
                                "[missing: other_messages.log_attivato_comando]"@,
                            ),
                            "{botname}"@,
                            bot,
                        ),
                        "{comando}"@,
                        pulito,
                    ),
                ) && cmd@ == pulito
            }
        } else {
            r is Ignora
        }
    } else {
        let pulito = crate::comandi::pulito(crate::comandi::senza_wakeword(cl, wakeword, simile));
        if pulito.len() == 0 {
            r matches Riconoscimento::Benvenuto { notifica, benvenuti: b } && notifica is None
                && b.deep_view() == benvenuti
        } else {
            r matches Riconoscimento::Esegui { notifica, registro, comando: cmd } && notifica is None
                && registro is None && cmd@ == pulito
        }
    }
}

/// Whether a GUI command or the assistant was awake or woken up.
pub open spec fn attivo_dopo(active: bool, wakeword: Seq<char>, comando: Seq<char>) -> bool {
    if testo::occorre_a(comando, "__GUI__"@, 0) {
        active
    } else {
        active || testo::contiene(minuscolo(comando), wakeword)
    }
}

/// The position of the word close to the wakeword, when it is one of the
/// words of the utterance.
pub open spec fn posizione_valida(simile: Option<usize>, cl: Seq<char>) -> Option<int> {
    match simile {
        Some(p) => if p < testo::parole(cl).len() {
            Some(p as int)
        } else {
            None
        },
        None => None,
    }
}

/// The words of the lower-cased utterance, among which the caller looks for
/// the one phonetically close to the wakeword.
pub fn parole_comando(comando: &str) -> (r: Vec<String>)
    ensures
        r.deep_view() == testo::parole(minuscolo(comando@)),
{
    let cl = in_minuscolo(comando);
    testo::dividi_parole(cl.as_str())
}

impl IntentHandler {
    /// Decides what a recognised utterance asks for. The phonetic comparison
    /// with the wakeword is made by the caller: `simile` is the position,
    /// among `parole_comando(comando)`, of the first word close to the
    /// wakeword (a position past the last word counts as none).
    pub fn comrecon(&mut self, comando: &str, simile: Option<usize>) -> (r: Riconoscimento)
        ensures
            riconosciuto(
                old(self).active,
                &old(self).messages,
                old(self).botname@,
                old(self).wakeword@,
                comando@,
                posizione_valida(simile, minuscolo(comando@)),
                r,
            ),
            final(self).active == attivo_dopo(old(self).active, old(self).wakeword@, comando@),
            final(self).youtube_open == old(self).youtube_open,
            final(self).awaiting_shutdown == old(self).awaiting_shutdown,
            final(self).awaiting_reboot == old(self).awaiting_reboot,
            final(self).awaiting_delete == old(self).awaiting_delete,
            invariato(old(self), final(self)),
    {
        let v = testo::caratteri(comando);
        let mut gui: Vec<char> = Vec::new();
        gui.push('_');
        gui.push('_');
        gui.push('G');
        gui.push('U');
        gui.push('I');
        gui.push('_');
        gui.push('_');
        proof {
            reveal_strlit("__GUI__");
        }
        assert(gui@ =~= "__GUI__"@);
        if testo::coincide_a(&v, &gui, 0) {
            let cmd = togli_prefissi(comando, "__GUI__");
            return Riconoscimento::Esegui { notifica: None, registro: None, comando: cmd };
        }
        let cl = in_minuscolo(comando);
        if !self.active {
            if testo::contiene_testo(cl.as_str(), self.wakeword.as_str()) {
                self.active = true;
                let mut notifica = String::from_str("🤖 ");
                notifica.append(self.botname.as_str());
                notifica.append(" attivo");
                let senza = crate::comandi::rimuovi_wakeword(cl.as_str(), self.wakeword.as_str(), None);
                let pulito = crate::comandi::pulisci_comando(senza.as_str());
                if pulito.unicode_len() == 0 {
                    return Riconoscimento::Benvenuto {
                        notifica: Some(notifica),
                        benvenuti: self.messages.welcome_messages.clone(),
                    };
                }
                let t = messaggio(
                    &self.messages,
                    Sezione::Altri,
                    "log_attivato_comando",
                    "[missing: other_messages.log_attivato_comando]",
                );
                let t = sostituisci(t.as_str(), "{botname}", self.botname.as_str());
                let t = sostituisci(t.as_str(), "{comando}", pulito.as_str());
                let mut registro = String::from_str("🤖 ");
                registro.append(t.as_str());
                return Riconoscimento::Esegui {
                    notifica: Some(notifica),
                    registro: Some(registro),
                    comando: pulito,
                };
            }
            return Riconoscimento::Ignora;
        }
        let parole = testo::dividi_parole(cl.as_str());
        let simile = match simile {
            Some(p) => if p < parole.len() {
                Some(p)
            } else {
                None
            },
            None => None,
        };
        let senza = crate::comandi::rimuovi_wakeword(cl.as_str(), self.wakeword.as_str(), simile);
        let pulito = crate::comandi::pulisci_comando(senza.as_str());
        if pulito.unicode_len() == 0 {
            Riconoscimento::Benvenuto {
                notifica: None,
                benvenuti: self.messages.welcome_messages.clone(),
            }
        } else {
            Riconoscimento::Esegui { notifica: None, registro: None, comando: pulito }
        }
    }
}

} // verus!
