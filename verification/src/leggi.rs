use vstd::prelude::*;
use crate::testo;
use crate::testo::{occorre_a, parole, parole_acc, se_non_vuota, sostituito, sostituito_da, spazio, unito};
use crate::messaggi::Messages;
use crate::comandi::{contiene_una, corrisponde, percorso_normalizzato, simbolo};
use crate::esecuzione::{
    attivo_dopo, chiede_volume, decidi, in_attesa, kc, riconosciuto, vuole_cercare, AzioneSpec,
    Riconoscimento, Stato,
};
use crate::esterni::minuscolo;

verus! {

// ─── Confirmations ───────────────────────────────────────────────────────────

/// At most one of shutdown, reboot and deletion waits for a confirmation.
pub open spec fn al_piu_una_attesa(s: Stato) -> bool {
    &&& !(s.spegnimento && s.riavvio)
    &&& !(s.spegnimento && s.cancellazione is Some)
    &&& !(s.riavvio && s.cancellazione is Some)
}

/// Whatever the command, at most one confirmation stays pending when at most
/// one was pending before.
pub proof fn una_conferma_alla_volta(
    s: Stato,
    m: &Messages,
    bot: Seq<char>,
    c: Seq<char>,
    api_vuota: bool,
    yt_vuota: bool,
)
    requires
        al_piu_una_attesa(s),
    ensures
        al_piu_una_attesa(decidi(s, m, bot, c, api_vuota, yt_vuota).0),
{
}

/// A shutdown, a reboot or a deletion happens only when it was pending and
/// the command confirms it (holds a reply keyword, and no "no").
pub proof fn solo_dopo_conferma(
    s: Stato,
    m: &Messages,
    bot: Seq<char>,
    c: Seq<char>,
    api_vuota: bool,
    yt_vuota: bool,
)
    ensures
        ({
            let a = decidi(s, m, bot, c, api_vuota, yt_vuota).2;
            let confermato = contiene_una(c, kc(m, "reply"@)) && !testo::contiene(c, "no"@);
            &&& a is Spegni ==> s.spegnimento && confermato
            &&& a is Riavvia ==> s.riavvio && !s.spegnimento && confermato
            &&& a matches AzioneSpec::CancellaFile(p) ==> s.cancellazione == Some(p) && !s.spegnimento
                && !s.riavvio && confermato
        }),
{
}

/// "No" withdraws whatever is pending, and nothing else happens.
pub proof fn il_no_annulla(
    s: Stato,
    m: &Messages,
    bot: Seq<char>,
    c: Seq<char>,
    api_vuota: bool,
    yt_vuota: bool,
)
    requires
        in_attesa(s),
        testo::contiene(c, "no"@),
    ensures
        !in_attesa(decidi(s, m, bot, c, api_vuota, yt_vuota).0),
        decidi(s, m, bot, c, api_vuota, yt_vuota).2 is ConfermaAnnullata,
        decidi(s, m, bot, c, api_vuota, yt_vuota).0.active == s.active,
{
}

/// A command about something else drops the pending confirmation (and says
/// so), then is handled as a new command.
pub proof fn altro_comando_lascia_cadere(
    s: Stato,
    m: &Messages,
    bot: Seq<char>,
    c: Seq<char>,
    api_vuota: bool,
    yt_vuota: bool,
)
    requires
        in_attesa(s),
        !testo::contiene(c, "no"@),
        !contiene_una(c, kc(m, "reply"@)),
    ensures
        decidi(s, m, bot, c, api_vuota, yt_vuota).1,
        !(decidi(s, m, bot, c, api_vuota, yt_vuota).2 is Spegni),
        !(decidi(s, m, bot, c, api_vuota, yt_vuota).2 is Riavvia),
        !(decidi(s, m, bot, c, api_vuota, yt_vuota).2 is CancellaFile),
{
}

/// A deletion request leaves exactly one thing to confirm: the deletion
/// itself, recorded once its path is known.
pub proof fn cancellazione_richiesta_da_sola(
    s: Stato,
    m: &Messages,
    bot: Seq<char>,
    c: Seq<char>,
    api_vuota: bool,
    yt_vuota: bool,
)
    ensures
        decidi(s, m, bot, c, api_vuota, yt_vuota).2 is PreparaCancellazione ==> !in_attesa(
            decidi(s, m, bot, c, api_vuota, yt_vuota).0,
        ),
{
}

/// "Stai zitto" puts the assistant back in stand-by, exactly as the
/// inactivity timeout does: nothing stays pending and nothing is closed.
pub proof fn silenzio_torna_in_attesa(
    s: Stato,
    m: &Messages,
    bot: Seq<char>,
    c: Seq<char>,
    api_vuota: bool,
    yt_vuota: bool,
)
    requires
        !in_attesa(s) || (!testo::contiene(c, "no"@) && !contiene_una(c, kc(m, "reply"@))),
        contiene_una(c, kc(m, "mute"@)),
    ensures
        !decidi(s, m, bot, c, api_vuota, yt_vuota).0.active,
        !in_attesa(decidi(s, m, bot, c, api_vuota, yt_vuota).0),
        decidi(s, m, bot, c, api_vuota, yt_vuota).0.youtube_open == s.youtube_open,
        decidi(s, m, bot, c, api_vuota, yt_vuota).2 is Silenzio,
{
}

// ─── Precedence of the intents ───────────────────────────────────────────────

/// The local intents always come first: only a command that none of them
/// recognises reaches the AI agent, and only when a key is configured.
pub proof fn ai_per_ultima(
    s: Stato,
    m: &Messages,
    bot: Seq<char>,
    c: Seq<char>,
    api_vuota: bool,
    yt_vuota: bool,
)
    ensures
        decidi(s, m, bot, c, api_vuota, yt_vuota).2 is AgenteAi ==> {
            &&& !api_vuota
            &&& !contiene_una(c, kc(m, "mute"@))
            &&& !contiene_una(c, kc(m, "move"@))
            &&& !contiene_una(c, kc(m, "delete"@))
            &&& !testo::contiene(c, "radio"@)
            &&& !chiede_volume(m, c)
            &&& !contiene_una(c, kc(m, "open"@))
            &&& !contiene_una(c, kc(m, "close"@))
        },
{
}

/// The Youtube flag only continues a search: a command that does not name
/// Youtube is a Youtube command only when Youtube is open and it is a search.
pub proof fn youtube_solo_se_nominato(
    s: Stato,
    m: &Messages,
    bot: Seq<char>,
    c: Seq<char>,
    api_vuota: bool,
    yt_vuota: bool,
)
    ensures
        ({
            let a = decidi(s, m, bot, c, api_vuota, yt_vuota).2;
            (a is ApriYoutube || a is CercaYoutubeApi || a is CercaYoutubeWeb) ==> (testo::contiene(
                c,
                "youtube"@,
            ) || (s.youtube_open && vuole_cercare(m, c))) && !contiene_una(c, kc(m, "close"@))
        }),
{
}

// ─── Wakeword ────────────────────────────────────────────────────────────────

/// In stand-by, an utterance without the wakeword (and not from the GUI) is
/// ignored and the assistant stays in stand-by.
pub proof fn senza_wakeword_niente(
    m: &Messages,
    bot: Seq<char>,
    wakeword: Seq<char>,
    comando: Seq<char>,
    simile: Option<int>,
    r: Riconoscimento,
)
    requires
        riconosciuto(false, m, bot, wakeword, comando, simile, r),
        !occorre_a(comando, "__GUI__"@, 0),
        !testo::contiene(minuscolo(comando), wakeword),
    ensures
        r is Ignora,
        !attivo_dopo(false, wakeword, comando),
{
}

/// Once active, the assistant stays active until a command sends it back to
/// stand-by.
pub proof fn attivo_resta_attivo(wakeword: Seq<char>, comando: Seq<char>)
    ensures
        attivo_dopo(true, wakeword, comando),
{
}

// ─── Spoken paths ────────────────────────────────────────────────────────────

/// Replacing a pattern that does not occur leaves the text as it is.
pub proof fn lemma_sostituito_senza_occorrenze(s: Seq<char>, da: Seq<char>, a: Seq<char>, k: int)
    requires
        da.len() > 0,
        0 <= k <= s.len(),
        forall|j: int| k <= j ==> !occorre_a(s, da, j),
    ensures
        sostituito_da(s, da, a, k) == s.subrange(k, s.len() as int),
    decreases s.len() - k,
{
    if k < s.len() {
        lemma_sostituito_senza_occorrenze(s, da, a, k + 1);
        assert(s.subrange(k, s.len() as int) =~= seq![s[k]] + s.subrange(k + 1, s.len() as int));
    } else {
        assert(s.subrange(k, s.len() as int) =~= Seq::<char>::empty());
    }
}

proof fn lemma_una_parola(s: Seq<char>, cur: Seq<char>)
    requires
        cur.len() + s.len() > 0,
        forall|i: int| 0 <= i < s.len() ==> !spazio(s[i]),
    ensures
        parole_acc(s, cur) == seq![cur + s],
    decreases s.len(),
{
    if s.len() == 0 {
        assert(cur + s =~= cur);
    } else {
        assert(!spazio(s[0]));
        lemma_una_parola(s.drop_first(), cur.push(s[0]));
        assert(cur.push(s[0]) + s.drop_first() =~= cur + s);
    }
}

/// A path already written with its symbols (one word, no spoken keyword)
/// passes unchanged.
pub proof fn percorso_scritto_invariato(t: Seq<char>)
    requires
        t.len() > 0,
        forall|i: int| 0 <= i < t.len() ==> !spazio(t[i]),
        t != "slash"@,
        t != "barra"@,
        t != "punto"@,
        t != "trattino"@,
        t != "underscore"@,
    ensures
        percorso_normalizzato(t) == t,
{
    reveal_strlit("trattino basso");
    let da = "trattino basso"@;
    assert forall|j: int| 0 <= j implies !occorre_a(t, da, j) by {
        if occorre_a(t, da, j) {
            assert(t.subrange(j, j + da.len())[8] == ' ');
            assert(t[j + 8] == ' ');
        }
    }
    lemma_sostituito_senza_occorrenze(t, da, "underscore"@, 0);
    assert(t.subrange(0, t.len() as int) =~= t);
    lemma_una_parola(t, seq![]);
    assert(seq![] + t =~= t);
    let ws = parole(t);
    assert(ws.map_values(|w: Seq<char>| simbolo(w)) =~= seq![t]);
}

// ─── Bookmarks and windows ───────────────────────────────────────────────────

/// A command that contains the whole name of a bookmark (ignoring case)
/// names it, whatever its stop words.
pub proof fn nome_intero_basta(comando: Seq<char>, nome: Seq<char>, stop: Seq<Seq<char>>)
    requires
        testo::contiene(minuscolo(comando), minuscolo(nome)),
    ensures
        corrisponde(comando, nome, stop),
{
}

/// The tracked window of a bookmark is one that was not there before it was
/// opened; no window is tracked when every window was already there.
pub proof fn finestra_nuova_davvero(prima: Seq<Seq<char>>, dopo: Seq<Seq<char>>, k: int)
    requires
        0 <= k,
    ensures
        crate::finestre::nuova_da(prima, dopo, k) matches Some(id) ==> dopo.contains(id)
            && !prima.contains(id),
        crate::finestre::nuova_da(prima, dopo, k) is None ==> forall|j: int|
            k <= j < dopo.len() ==> prima.contains(#[trigger] dopo[j]),
    decreases dopo.len() - k,
{
    if k < dopo.len() && prima.contains(dopo[k]) {
        finestra_nuova_davvero(prima, dopo, k + 1);
    }
}

// ─── The AI agent ────────────────────────────────────────────────────────────

/// The programs offered to the agent have distinct, bare executables, and
/// there are at most `max` of them.
pub proof fn programmi_distinti(righe: Seq<Seq<char>>, max: nat)
    ensures
        ({
            let v = crate::agente::voci_programmi(righe, max);
            &&& v.len() <= max
            &&& forall|i: int, j: int|
                0 <= i < j < v.len() ==> #[trigger] v[i].1 != #[trigger] v[j].1
            &&& forall|i: int|
                0 <= i < v.len() ==> #[trigger] v[i].1.len() > 0 && !testo::contiene(
                    v[i].1,
                    seq!['/'],
                )
        }),
    decreases righe.len(),
{
    if righe.len() > 0 {
        programmi_distinti(righe.drop_last(), max);
        let prec = crate::agente::voci_programmi(righe.drop_last(), max);
        if prec.len() < max {
            if let Some((n, b)) = crate::agente::programma(righe.last()) {
                if !crate::agente::eseguibili(prec).contains(b) {
                    let v = prec.push((n, b));
                    assert forall|i: int| 0 <= i < prec.len() implies #[trigger] prec[i].1 != b by {
                        assert(crate::agente::eseguibili(prec)[i] == prec[i].1);
                    }
                    assert forall|i: int, j: int|
                        0 <= i < j < v.len() implies #[trigger] v[i].1 != #[trigger] v[j].1 by {
                        if j == v.len() - 1 {
                            assert(v[i] == prec[i]);
                        } else {
                            assert(v[i] == prec[i]);
                            assert(v[j] == prec[j]);
                        }
                    }
                    assert forall|i: int| 0 <= i < v.len() implies #[trigger] v[i].1.len() > 0
                        && !testo::contiene(v[i].1, seq!['/']) by {
                        if i < prec.len() {
                            assert(v[i] == prec[i]);
                        }
                    }
                }
            }
        }
    }
}

/// What the agent may do is limited: it starts only bare program names
/// (no `/`, no space), opens only http(s) URLs and waits at most ten seconds.
pub proof fn azioni_ai_limitate(a: crate::agente::AzioneAi)
    ensures
        crate::agente::pianificato(a) matches crate::agente::ComandoAiSpec::Avvia(p) ==> p.len() > 0
            && !testo::contiene(p, "/"@) && !testo::contiene(p, " "@),
        crate::agente::pianificato(a) matches crate::agente::ComandoAiSpec::ApriUrl(u) ==> occorre_a(
            u,
            "https://"@,
            0,
        ) || occorre_a(u, "http://"@, 0),
        crate::agente::pianificato(a) matches crate::agente::ComandoAiSpec::Attendi(ms) ==> ms
            <= 10000,
{
}

} // verus!

verus! {

// ─── Opening the browser ─────────────────────────────────────────────────────

/// No confirmation is pending, and no intent that comes before "open" and
/// "close" claims the command: it is not a mute, move, create-folder, delete,
/// radio, Youtube, volume, update, shutdown, reboot or exit command.
pub open spec fn nessun_intento_prima(s: Stato, m: &Messages, c: Seq<char>) -> bool {
    let ko = |k: Seq<char>| crate::esecuzione::ko(m, k);
    &&& !s.spegnimento
    &&& !s.riavvio
    &&& s.cancellazione is None
    &&& !contiene_una(c, kc(m, "mute"@))
    &&& !contiene_una(c, kc(m, "move"@))
    &&& !(contiene_una(c, kc(m, "create"@)) && contiene_una(c, ko("folder"@)))
    &&& !contiene_una(c, kc(m, "delete"@))
    &&& !testo::contiene(c, "radio"@)
    &&& !testo::contiene(c, "youtube"@)
    &&& !(s.youtube_open && (contiene_una(c, kc(m, "search"@)) || testo::contiene(c, "cerca"@)))
    &&& !testo::contiene(c, "volume"@)
    &&& !contiene_una(c, kc(m, "upvol"@))
    &&& !contiene_una(c, kc(m, "downvol"@))
    &&& !contiene_una(c, kc(m, "setvol"@))
    &&& !contiene_una(c, kc(m, "silent"@))
    &&& !(contiene_una(c, kc(m, "update"@)) && contiene_una(c, ko("pc"@)))
    &&& !(contiene_una(c, kc(m, "turnoff"@)) && contiene_una(c, ko("pc"@)))
    &&& !(contiene_una(c, kc(m, "restart"@)) && contiene_una(c, ko("pc"@)))
    &&& !(contiene_una(c, kc(m, "exit"@)) && contiene_una(c, ko("program"@)))
    &&& forall|i: int| 0 <= i < kc(m, "exit"@).len() ==> testo::rifilato(c) != kc(m, "exit"@)[i]
}

/// A phrase of `other_messages`.
pub open spec fn frase(m: &Messages, k: Seq<char>, ripiego: Seq<char>) -> Seq<char> {
    crate::messaggi::testo_o(m, crate::messaggi::Sezione::Altri, k, ripiego)
}

/// What an "open" command opens, when no earlier intent claims it: the file
/// manager when it names every file-manager keyword; else the browser when
/// it names the internet or the browser; else the music player when it names
/// music; else the bookmark or program it names. Nothing pending appears and
/// the Youtube flag stays as it was (the command does not name Youtube).
pub proof fn apri_cosa(
    s: Stato,
    m: &Messages,
    bot: Seq<char>,
    c: Seq<char>,
    api_vuota: bool,
    yt_vuota: bool,
)
    requires
        nessun_intento_prima(s, m, c),
        contiene_una(c, kc(m, "open"@)),
    ensures
        ({
            let fm = crate::esecuzione::ko(m, "filemanager"@);
            let tutti_fm = forall|i: int| 0 <= i < fm.len() ==> testo::contiene(c, #[trigger] fm[i]);
            let internet = contiene_una(c, crate::esecuzione::ko(m, "internet"@));
            let musica = contiene_una(c, crate::esecuzione::ko(m, "music"@));
            let d = decidi(s, m, bot, c, api_vuota, yt_vuota);
            &&& d.0 == s
            &&& !d.1
            &&& tutti_fm ==> d.2 == AzioneSpec::ApriGestoreFile
            &&& !tutti_fm && internet ==> d.2 == AzioneSpec::ApriBrowser(
                frase(m, "browser_opened"@, ""@),
            )
            &&& !tutti_fm && !internet && musica ==> d.2 == AzioneSpec::ApriMusica(
                frase(m, "music_player_opened"@, ""@),
            )
            &&& !tutti_fm && !internet && !musica ==> (d.2 matches AzioneSpec::Apri {
                comando,
                aperto,
                ..
            } && comando == c && aperto == frase(
                m,
                "program_opened"@,
                "[missing: other_messages.program_opened]"@,
            ))
        }),
{
}

/// An "open" command that names the internet or the browser opens the
/// browser and says so, whenever no earlier intent claims it and it does not
/// name every file-manager keyword.
pub proof fn apri_internet_apre_il_browser(
    s: Stato,
    m: &Messages,
    bot: Seq<char>,
    c: Seq<char>,
    api_vuota: bool,
    yt_vuota: bool,
)
    requires
        nessun_intento_prima(s, m, c),
        contiene_una(c, kc(m, "open"@)),
        contiene_una(c, crate::esecuzione::ko(m, "internet"@)),
        exists|i: int|
            0 <= i < crate::esecuzione::ko(m, "filemanager"@).len() && !testo::contiene(
                c,
                #[trigger] crate::esecuzione::ko(m, "filemanager"@)[i],
            ),
    ensures
        decidi(s, m, bot, c, api_vuota, yt_vuota) == (
            s,
            false,
            AzioneSpec::ApriBrowser(frase(m, "browser_opened"@, ""@)),
        ),
{
    assert(!crate::esecuzione::gestore_file(m, c));
}

/// A "close" command that is not an "open" command, and that no earlier
/// intent claims, closes what it names; nothing else changes.
pub proof fn chiudi_cosa(
    s: Stato,
    m: &Messages,
    bot: Seq<char>,
    c: Seq<char>,
    api_vuota: bool,
    yt_vuota: bool,
)
    requires
        nessun_intento_prima(s, m, c),
        !contiene_una(c, kc(m, "open"@)),
        contiene_una(c, kc(m, "close"@)),
    ensures
        decidi(s, m, bot, c, api_vuota, yt_vuota) == (s, false, AzioneSpec::Chiudi(c)),
{
}

// ─── Key combinations of the AI agent ────────────────────────────────────────

/// The `wtype` name of a modifier key, from its upper-cased name.
pub open spec fn nome_wtype(u: Seq<char>) -> Option<Seq<char>> {
    if u == "CTRL"@ || u == "CONTROL"@ {
        Some("ctrl"@)
    } else if u == "ALT"@ {
        Some("alt"@)
    } else if u == "SHIFT"@ {
        Some("shift"@)
    } else if u == "SUPER"@ || u == "META"@ || u == "WIN"@ || u == "LOGO"@ {
        Some("logo"@)
    } else {
        None
    }
}

/// A hotkey made of one modifier (ctrl/control, alt, shift, super/meta/win/
/// logo, in any case) and one other non-empty key presses the modifier, the
/// key, and releases the modifier.
pub proof fn modificatore_e_tasto(a: crate::agente::AzioneAi, md: Seq<char>, k: Seq<char>)
    requires
        a.action matches Some(t) && t@ == "hotkey"@,
        a.keys matches Some(ks) && ks@.len() == 2 && testo::rifilato(
            crate::agente::o_vuoto(ks@[0]),
        ) == md && testo::rifilato(crate::agente::o_vuoto(ks@[1])) == k,
        nome_wtype(crate::esterni::maiuscolo(md)) is Some,
        nome_wtype(crate::esterni::maiuscolo(k)) is None,
        k.len() > 0,
    ensures
        ({
            let n = nome_wtype(crate::esterni::maiuscolo(md))->0;
            crate::agente::pianificato(a) == crate::agente::ComandoAiSpec::Combinazione(
                seq!["-M"@, n, "-k"@, k, "-m"@, n],
            )
        }),
{
    let ks = a.keys->0;
    let cv = crate::agente::chiavi(ks@);
    let n = nome_wtype(crate::esterni::maiuscolo(md))->0;
    assert(cv =~= seq![md, k]);
    assert(cv.drop_last() =~= seq![md]);
    assert(cv.drop_last().drop_last() =~= Seq::<Seq<char>>::empty());
    assert(crate::agente::modificatore(md) == Some(n));
    assert(crate::agente::modificatore(k) is None);
    let vuota = Seq::<Seq<char>>::empty();
    assert(crate::agente::tasti(cv.drop_last().drop_last()) == Some((vuota, None::<Seq<char>>)));
    assert(vuota.push(n) =~= seq![n]);
    assert(crate::agente::tasti(cv.drop_last()) == Some((seq![n], None::<Seq<char>>)));
    assert(crate::agente::tasti(cv) == Some((seq![n], Some(k))));
    assert(seq![n].drop_last() =~= vuota);
    assert(crate::agente::premi(vuota) == vuota);
    assert(crate::agente::rilascia(vuota) == vuota);
    assert(crate::agente::premi(seq![n]) =~= seq!["-M"@, n]);
    assert(crate::agente::rilascia(seq![n]) =~= seq!["-m"@, n]);
    assert(seq!["-M"@, n] + seq!["-k"@, k] + seq!["-m"@, n] =~= seq!["-M"@, n, "-k"@, k, "-m"@, n]);
    reveal_strlit("hotkey");
    reveal_strlit("open_program");
    reveal_strlit("open_url");
    reveal_strlit("type_text");
    reveal_strlit("key");
    assert(crate::agente::combinazione(cv) == crate::agente::ComandoAiSpec::Combinazione(
        seq!["-M"@, n, "-k"@, k, "-m"@, n],
    ));
    assert("hotkey"@[0] != "open_program"@[0]);
    assert("hotkey"@[0] != "open_url"@[0]);
    assert("hotkey"@ != "type_text"@);
    assert("hotkey"@ != "key"@);
}

// ─── Bookmark matching ───────────────────────────────────────────────────────

/// A command names a bookmark when any of its whole words (the lower-cased
/// command split at every non-alphanumeric character), wherever it stands,
/// is a trimmed piece of the lower-cased name (split at white space, `:`,
/// `-` and `—`) that is at least three bytes long and not a stop word.
pub proof fn una_parola_chiave_basta(
    comando: Seq<char>,
    nome: Seq<char>,
    stop: Seq<Seq<char>>,
    i: int,
    j: int,
)
    requires
        0 <= i < testo::pezzi(minuscolo(nome), testo::Separatore::Nome).len(),
        0 <= j < testo::pezzi(minuscolo(comando), testo::Separatore::NonAlfanumerico).len(),
        testo::pezzi(minuscolo(comando), testo::Separatore::NonAlfanumerico)[j] == testo::rifilato(
            testo::pezzi(minuscolo(nome), testo::Separatore::Nome)[i],
        ),
        vstd::utf8::encode_utf8(
            testo::rifilato(testo::pezzi(minuscolo(nome), testo::Separatore::Nome)[i]),
        ).len() >= 3,
        !stop.contains(testo::rifilato(testo::pezzi(minuscolo(nome), testo::Separatore::Nome)[i])),
    ensures
        corrisponde(comando, nome, stop),
{
    let t = testo::rifilato(testo::pezzi(minuscolo(nome), testo::Separatore::Nome)[i]);
    if t.len() == 0 {
        assert(t =~= Seq::<char>::empty());
        assert(vstd::utf8::encode_utf8(t).len() == 0);
    }
}

} // verus!

verus! {

// ─── Move commands ───────────────────────────────────────────────────────────

/// Without white space.
pub open spec fn senza_spazi(s: Seq<char>) -> bool {
    forall|q: int| 0 <= q < s.len() ==> !spazio(#[trigger] s[q])
}

/// The three words that separate source and destination.
pub open spec fn separatore(sep: Seq<char>) -> bool {
    sep == " in "@ || sep == " dentro "@ || sep == " verso "@
}

proof fn lemma_trova_prima(s: Seq<char>, p: Seq<char>, i: int, k: int)
    requires
        0 <= k <= i,
        occorre_a(s, p, i),
        forall|j: int| 0 <= j < i ==> !occorre_a(s, p, j),
    ensures
        testo::trova_da(s, p, k) == Some(i),
    decreases i - k,
{
    if k < i {
        lemma_trova_prima(s, p, i, k + 1);
    }
}

proof fn lemma_separatori()
    ensures
        " in "@ =~= seq![' ', 'i', 'n', ' '],
        " dentro "@ =~= seq![' ', 'd', 'e', 'n', 't', 'r', 'o', ' '],
        " verso "@ =~= seq![' ', 'v', 'e', 'r', 's', 'o', ' '],
{
    reveal_strlit(" in ");
    reveal_strlit(" dentro ");
    reveal_strlit(" verso ");
}

/// In `a + sep + b`, a separator `sep2` stands only where `sep` does, and
/// only when it is `sep` itself.
proof fn lemma_dove_separatore(a: Seq<char>, sep: Seq<char>, b: Seq<char>, sep2: Seq<char>, p: int)
    requires
        senza_spazi(a),
        senza_spazi(b),
        separatore(sep),
        separatore(sep2),
        occorre_a(a + sep + b, sep2, p),
    ensures
        p == a.len(),
        sep2 == sep,
{
    lemma_separatori();
    let t = a + sep + b;
    let n2 = sep2.len() as int;
    assert(t.subrange(p, p + n2)[0] == t[p]);
    assert(t.subrange(p, p + n2)[n2 - 1] == t[p + n2 - 1]);
    assert(t[p] == ' ');
    assert(t[p + n2 - 1] == ' ');
    let la = a.len() as int;
    let ls = sep.len() as int;
    assert forall|q: int| 0 <= q < t.len() && t[q] == ' ' implies q == la || q == la + ls - 1 by {
        if q < la {
            assert(t[q] == a[q]);
        } else if q >= la + ls {
            assert(t[q] == b[q - la - ls]);
        } else {
            assert(t[q] == sep[q - la]);
        }
    }
    assert(p == la);
    assert(n2 == ls);
    assert(sep2 =~= t.subrange(p, p + n2));
    assert(sep =~= t.subrange(la, la + ls));
}

proof fn lemma_diviso(a: Seq<char>, sep: Seq<char>, b: Seq<char>, sep2: Seq<char>)
    requires
        senza_spazi(a),
        senza_spazi(b),
        a.len() > 0,
        b.len() > 0,
        separatore(sep),
        separatore(sep2),
    ensures
        crate::comandi::diviso_in_due(a + sep + b, sep2) == if sep2 == sep {
            Some((a, b))
        } else {
            None::<(Seq<char>, Seq<char>)>
        },
{
    lemma_separatori();
    let t = a + sep + b;
    testo::lemma_trova(t, sep2);
    assert forall|j: int| occorre_a(t, sep2, j) implies j == a.len() && sep2 == sep by {
        lemma_dove_separatore(a, sep, b, sep2, j);
    }
    if sep2 == sep {
        assert(t.subrange(a.len() as int, (a.len() + sep.len()) as int) =~= sep);
        lemma_trova_prima(t, sep, a.len() as int, 0);
        assert(t.subrange(0, a.len() as int) =~= a);
        assert(t.subrange((a.len() + sep.len()) as int, t.len() as int) =~= b);
        lemma_rifilato_fisso(a);
        lemma_rifilato_fisso(b);
    }
}

/// Text without white space at its ends is its own trim.
proof fn lemma_rifilato_fisso(s: Seq<char>)
    requires
        senza_spazi(s),
    ensures
        testo::rifilato(s) == s,
{
    assert(testo::togli_inizio(s) == s);
    assert(testo::togli_fine(s) == s);
}

/// Keywords that do not occur are skipped when the move keyword is removed.
proof fn lemma_senza_verbo_salta(cmd: Seq<char>, verbi: Seq<Seq<char>>, kk: int)
    requires
        0 <= kk < verbi.len(),
        forall|j: int| 0 <= j < kk ==> !testo::contiene(cmd, #[trigger] verbi[j]),
    ensures
        crate::comandi::senza_verbo(cmd, verbi) == crate::comandi::senza_verbo(
            cmd,
            verbi.subrange(kk, verbi.len() as int),
        ),
    decreases kk,
{
    if kk > 0 {
        assert(!testo::contiene(cmd, verbi[0]));
        let resto = verbi.drop_first();
        assert forall|j: int| 0 <= j < kk - 1 implies !testo::contiene(cmd, #[trigger] resto[j]) by {
            assert(resto[j] == verbi[j + 1]);
        }
        lemma_senza_verbo_salta(cmd, resto, kk - 1);
        assert(resto.subrange(kk - 1, resto.len() as int) =~= verbi.subrange(kk, verbi.len() as int));
    } else {
        assert(verbi.subrange(0, verbi.len() as int) =~= verbi);
    }
}

/// "<move keyword> <source> in|dentro|verso <destination>", with one-word
/// source and destination, is split into that source and that destination,
/// whatever the separator, when no keyword listed before the one used occurs
/// in the command.
pub proof fn sposta_sorgente_destinazione(
    verbi: Seq<Seq<char>>,
    kk: int,
    a: Seq<char>,
    sep: Seq<char>,
    b: Seq<char>,
)
    requires
        0 <= kk < verbi.len(),
        forall|j: int|
            0 <= j < kk ==> !testo::contiene(verbi[kk] + " "@ + a + sep + b, #[trigger] verbi[j]),
        separatore(sep),
        a.len() > 0,
        b.len() > 0,
        senza_spazi(a),
        senza_spazi(b),
    ensures
        crate::comandi::sorgente_destinazione(verbi[kk] + " "@ + a + sep + b, verbi) == Some((a, b)),
{
    lemma_separatori();
    reveal_strlit(" ");
    let v = verbi[kk];
    let cmd = v + " "@ + a + sep + b;
    lemma_senza_verbo_salta(cmd, verbi, kk);
    let resto = verbi.subrange(kk, verbi.len() as int);
    assert(resto[0] == v);
    assert(cmd.subrange(0, v.len() as int) =~= v);
    lemma_trova_prima(cmd, v, 0, 0);
    let t = a + sep + b;
    assert(cmd.subrange(v.len() as int, cmd.len() as int) =~= seq![' '] + t);
    assert(crate::comandi::senza_verbo(cmd, resto) =~= seq![' '] + t);
    assert((seq![' '] + t).drop_first() =~= t);
    assert(testo::togli_inizio(seq![' '] + t) == testo::togli_inizio(t));
    assert(t[0] == a[0]);
    assert(t.last() == b.last());
    assert(testo::togli_inizio(t) == t);
    assert(testo::togli_fine(t) == t);
    lemma_diviso(a, sep, b, " in "@);
    lemma_diviso(a, sep, b, " dentro "@);
    lemma_diviso(a, sep, b, " verso "@);
}

} // verus!

verus! {

// ─── Cleaning the command after the wakeword ─────────────────────────────────

/// The marks dropped around the command after the wakeword: ASCII
/// punctuation and the ellipsis `…`.
pub open spec fn segno(c: char) -> bool {
    ||| ('!' <= c && c <= '/')
    ||| (':' <= c && c <= '@')
    ||| ('[' <= c && c <= '`')
    ||| ('{' <= c && c <= '~')
    ||| c == '\u{2026}'
}

/// Made of marks only.
pub open spec fn solo_segni(s: Seq<char>) -> bool {
    forall|q: int| 0 <= q < s.len() ==> segno(#[trigger] s[q])
}

/// Neither white space nor a mark at either end.
pub open spec fn estremi_puliti(s: Seq<char>) -> bool {
    s.len() > 0 && !spazio(s[0]) && !segno(s[0]) && !spazio(s.last()) && !segno(s.last())
}

proof fn lemma_via_segni_inizio(p: Seq<char>, x: Seq<char>)
    requires
        solo_segni(p),
    ensures
        crate::comandi::senza_punt_inizio(p + x) == crate::comandi::senza_punt_inizio(x),
    decreases p.len(),
{
    if p.len() > 0 {
        assert(segno(p[0]));
        assert((p + x)[0] == p[0]);
        assert((p + x).drop_first() =~= p.drop_first() + x);
        assert forall|q: int| 0 <= q < p.drop_first().len() implies segno(
            #[trigger] p.drop_first()[q],
        ) by {
            assert(p.drop_first()[q] == p[q + 1]);
        }
        lemma_via_segni_inizio(p.drop_first(), x);
    } else {
        assert(p + x =~= x);
    }
}

proof fn lemma_via_segni_fine(x: Seq<char>, q: Seq<char>)
    requires
        solo_segni(q),
    ensures
        crate::comandi::senza_punt_fine(x + q) == crate::comandi::senza_punt_fine(x),
    decreases q.len(),
{
    if q.len() > 0 {
        assert(segno(q[q.len() - 1]));
        assert((x + q).last() == q.last());
        assert((x + q).drop_last() =~= x + q.drop_last());
        assert forall|i: int| 0 <= i < q.drop_last().len() implies segno(
            #[trigger] q.drop_last()[i],
        ) by {
            assert(q.drop_last()[i] == q[i]);
        }
        lemma_via_segni_fine(x, q.drop_last());
    } else {
        assert(x + q =~= x);
    }
}

/// Marks around a core whose ends are clean are all removed, and the core
/// is kept as it is.
proof fn lemma_pulito_nucleo(p: Seq<char>, core: Seq<char>, q: Seq<char>)
    requires
        solo_segni(p),
        solo_segni(q),
        estremi_puliti(core),
    ensures
        crate::comandi::pulito(p + core + q) == core,
{
    let x = p + core + q;
    if p.len() > 0 {
        assert(x[0] == p[0]);
        assert(segno(p[0]));
    } else {
        assert(x[0] == core[0]);
    }
    if q.len() > 0 {
        assert(x.last() == q.last());
        assert(segno(q[q.len() - 1]));
    } else {
        assert(x.last() == core.last());
    }
    assert(testo::togli_inizio(x) == x);
    assert(testo::togli_fine(x) == x);
    assert(x =~= p + (core + q));
    lemma_via_segni_inizio(p, core + q);
    assert((core + q)[0] == core[0]);
    assert(crate::comandi::senza_punt_inizio(core + q) == core + q);
    lemma_via_segni_fine(core, q);
    assert(crate::comandi::senza_punt_fine(core) == core);
    assert(testo::togli_inizio(core) == core);
    assert(testo::togli_fine(core) == core);
}

/// Marks alone leave nothing.
proof fn lemma_pulito_segni(p: Seq<char>)
    requires
        solo_segni(p),
    ensures
        crate::comandi::pulito(p) == Seq::<char>::empty(),
{
    if p.len() > 0 {
        assert(!spazio(p[0]) && segno(p[0]));
        assert(p.last() == p[p.len() - 1]);
        assert(testo::togli_inizio(p) == p);
        assert(testo::togli_fine(p) == p);
    } else {
        assert(testo::togli_inizio(p) == p);
        assert(testo::togli_fine(p) == p);
    }
    lemma_via_segni_inizio(p, Seq::<char>::empty());
    assert(p + Seq::<char>::empty() =~= p);
}

/// What is handed on for a (non-GUI) utterance is the text left once the
/// wakeword is removed, with the marks around it dropped: when that text is
/// marks, then a core with clean ends, then marks, exactly the core is run;
/// when it is marks only, the assistant says a welcome. This holds awake, and
/// in stand-by for an utterance that holds the wakeword.
pub proof fn comando_ripulito(
    active: bool,
    m: &Messages,
    bot: Seq<char>,
    wakeword: Seq<char>,
    comando: Seq<char>,
    simile: Option<int>,
    r: Riconoscimento,
    p: Seq<char>,
    core: Seq<char>,
    q: Seq<char>,
)
    requires
        riconosciuto(active, m, bot, wakeword, comando, simile, r),
        !occorre_a(comando, "__GUI__"@, 0),
        active || testo::contiene(minuscolo(comando), wakeword),
        solo_segni(p),
        solo_segni(q),
    ensures
        crate::comandi::senza_wakeword(
            minuscolo(comando),
            wakeword,
            if active { simile } else { None },
        ) == p + core + q && estremi_puliti(core) ==> (r matches Riconoscimento::Esegui {
            comando: c,
            ..
        } && c@ == core),
        crate::comandi::senza_wakeword(
            minuscolo(comando),
            wakeword,
            if active { simile } else { None },
        ) == p ==> r is Benvenuto,
{
    let x = crate::comandi::senza_wakeword(
        minuscolo(comando),
        wakeword,
        if active { simile } else { None },
    );
    if x == p + core + q && estremi_puliti(core) {
        lemma_pulito_nucleo(p, core, q);
    }
    if x == p {
        lemma_pulito_segni(p);
    }
}

/// An utterance that is only the wakeword followed by marks ("marco!",
/// "marco...", "marco…") gives a welcome, awake or in stand-by, when the
/// wakeword has no mark in it.
pub proof fn solo_wakeword_benvenuto(
    active: bool,
    m: &Messages,
    bot: Seq<char>,
    wakeword: Seq<char>,
    comando: Seq<char>,
    simile: Option<int>,
    r: Riconoscimento,
    p: Seq<char>,
)
    requires
        riconosciuto(active, m, bot, wakeword, comando, simile, r),
        !occorre_a(comando, "__GUI__"@, 0),
        minuscolo(comando) == wakeword + p,
        wakeword.len() > 0,
        forall|i: int| 0 <= i < wakeword.len() ==> !segno(#[trigger] wakeword[i]),
        solo_segni(p),
    ensures
        r is Benvenuto,
{
    let cl = wakeword + p;
    let w = wakeword;
    assert(cl.subrange(0, w.len() as int) =~= w);
    assert(occorre_a(cl, w, 0));
    testo::lemma_trova(cl, w);
    assert forall|j: int| w.len() <= j implies !occorre_a(cl, w, j) by {
        if occorre_a(cl, w, j) {
            assert(cl.subrange(j, j + w.len())[0] == cl[j]);
            assert(cl[j] == p[j - w.len()]);
            assert(w[0] == cl[j]);
        }
    }
    lemma_sostituito_senza_occorrenze(cl, w, seq![], w.len() as int);
    assert(cl.subrange(w.len() as int, cl.len() as int) =~= p);
    assert(sostituito(cl, w, seq![]) =~= p);
    assert(testo::togli_inizio(p) == p) by {
        if p.len() > 0 {
            assert(segno(p[0]));
        }
    }
    assert(testo::togli_fine(p) == p) by {
        if p.len() > 0 {
            assert(p.last() == p[p.len() - 1]);
            assert(segno(p[p.len() - 1]));
        }
    }
    lemma_pulito_segni(p);
}

} // verus!

verus! {

// ─── The AI agent's simple actions ───────────────────────────────────────────

/// A valid simple action is carried out as asked: a bare program name
/// (trimmed, no `/`, no space) is started, an http(s) URL (trimmed) is
/// opened, a non-empty key (trimmed) is pressed, any text is typed, and a
/// wait of at most ten seconds lasts as asked.
pub proof fn azioni_ai_eseguite(a: crate::agente::AzioneAi)
    ensures
        ({
            let tipo = crate::agente::o_vuoto(a.action);
            let p = testo::rifilato(crate::agente::o_vuoto(a.program));
            let u = testo::rifilato(crate::agente::o_vuoto(a.url));
            let k = testo::rifilato(crate::agente::o_vuoto(a.key));
            let r = crate::agente::pianificato(a);
            &&& tipo == "open_program"@ && p.len() > 0 && !testo::contiene(p, "/"@)
                && !testo::contiene(p, " "@) ==> r == crate::agente::ComandoAiSpec::Avvia(p)
            &&& tipo == "open_url"@ && (occorre_a(u, "https://"@, 0) || occorre_a(u, "http://"@, 0))
                ==> r == crate::agente::ComandoAiSpec::ApriUrl(u)
            &&& tipo == "type_text"@ ==> r == crate::agente::ComandoAiSpec::Digita(
                crate::agente::o_vuoto(a.text),
            )
            &&& tipo == "key"@ && k.len() > 0 ==> r == crate::agente::ComandoAiSpec::Tasto(k)
            &&& tipo == "wait"@ && a.ms is Some && a.ms->0 <= 10000 ==> r
                == crate::agente::ComandoAiSpec::Attendi(a.ms->0)
        }),
{
    reveal_strlit("open_program");
    reveal_strlit("open_url");
    reveal_strlit("type_text");
    reveal_strlit("key");
    reveal_strlit("hotkey");
    reveal_strlit("wait");
    assert("open_url"@[5] != "open_program"@[5]);
    assert("type_text"@[0] != "open_program"@[0]);
    assert("type_text"@[0] != "open_url"@[0]);
    assert("key"@.len() != "open_program"@.len());
    assert("key"@.len() != "open_url"@.len());
    assert("key"@.len() != "type_text"@.len());
    assert("wait"@.len() != "open_program"@.len());
    assert("wait"@.len() != "open_url"@.len());
    assert("wait"@.len() != "type_text"@.len());
    assert("wait"@[0] != "key"@[0]);
    assert("wait"@.len() != "hotkey"@.len());
}

} // verus!
