use vstd::prelude::*;
use crate::testo;
use crate::testo::{caratteri, rifila, rifilato, sostituisci, sostituito, sottostringa};
use crate::messaggi::{kw, messaggio, parole_chiave, testo_o, Messages, Sezione};
use crate::comandi::{bookmark_corrisponde, contiene, contiene_una, corrisponde};
use crate::esterni::{in_minuscolo, minuscolo};

verus! {

// ─── Tracked browser windows ─────────────────────────────────────────────────

/// The window id stored under `chiave` (the first entry with that key).
pub open spec fn finestra_in(v: Seq<(String, String)>, chiave: Seq<char>) -> Option<Seq<char>>
    decreases v.len(),
{
    if v.len() == 0 {
        None
    } else if v[0].0@ == chiave {
        Some(v[0].1@)
    } else {
        finestra_in(v.drop_first(), chiave)
    }
}

pub proof fn lemma_finestra_push(v: Seq<(String, String)>, e: (String, String), k: Seq<char>)
    ensures
        finestra_in(v.push(e), k) == match finestra_in(v, k) {
            Some(x) => Some(x),
            None => if e.0@ == k {
                Some(e.1@)
            } else {
                None
            },
        },
    decreases v.len(),
{
    if v.len() > 0 {
        assert(v.push(e)[0] == v[0]);
        assert(v.push(e).drop_first() =~= v.drop_first().push(e));
        lemma_finestra_push(v.drop_first(), e, k);
    } else {
        assert(v.push(e)[0] == e);
        assert(v.push(e).drop_first() =~= Seq::<(String, String)>::empty());
        assert(finestra_in(v.push(e).drop_first(), k) is None);
    }
}

/// No key occurs twice among the tracked windows.
pub open spec fn chiavi_distinte(v: Seq<(String, String)>) -> bool {
    forall|i: int, j: int| 0 <= i < j < v.len() ==> #[trigger] v[i].0@ != #[trigger] v[j].0@
}

/// `v` without the entries under `chiave`.
fn senza_chiave(v: &Vec<(String, String)>, chiave: &str) -> (r: Vec<(String, String)>)
    ensures
        forall|k: Seq<char>|
            #[trigger] finestra_in(r@, k) == if k == chiave@ {
                None
            } else {
                finestra_in(v@, k)
            },
        forall|a: int| 0 <= a < r@.len() ==> #[trigger] r@[a].0@ != chiave@,
        chiavi_distinte(v@) ==> chiavi_distinte(r@),
{
    let mut out: Vec<(String, String)> = Vec::new();
    let mut i: usize = 0;
    while i < v.len()
        invariant
            i <= v@.len(),
            forall|k: Seq<char>|
                #[trigger] finestra_in(out@, k) == if k == chiave@ {
                    None
                } else {
                    finestra_in(v@.take(i as int), k)
                },
            forall|a: int| 0 <= a < out@.len() ==> #[trigger] out@[a].0@ != chiave@,
            forall|a: int|
                0 <= a < out@.len() ==> exists|j: int| 0 <= j < i && #[trigger] out@[a] == v@[j],
            chiavi_distinte(v@) ==> chiavi_distinte(out@),
        decreases v@.len() - i,
    {
        assert(v@.take(i + 1) =~= v@.take(i as int).push(v@[i as int]));
        let ghost prima = out@;
        if !testo::uguali_testo(v[i].0.as_str(), chiave) {
            let e = (v[i].0.clone(), v[i].1.clone());
            assert(e.0@ == v@[i as int].0@ && e.1@ == v@[i as int].1@);
            proof {
                if chiavi_distinte(v@) {
                    assert forall|a: int| 0 <= a < prima.len() implies #[trigger] prima[a].0@ != e.0@ by {
                        let j = choose|j: int| 0 <= j < i && #[trigger] prima[a] == v@[j];
                        assert(v@[j].0@ != v@[i as int].0@);
                    }
                }
            }
            out.push(e);
            assert(out@[out@.len() - 1] == e);
            assert forall|a: int|
                0 <= a < out@.len() implies exists|j: int| 0 <= j < i + 1 && #[trigger] out@[a] == v@[j] by {
                if a < prima.len() {
                    assert(out@[a] == prima[a]);
                    let j = choose|j: int| 0 <= j < i && #[trigger] prima[a] == v@[j];
                    assert(out@[a] == v@[j]);
                } else {
                    assert(out@[a] == v@[i as int]);
                }
            }
            assert forall|k: Seq<char>|
                #[trigger] finestra_in(out@, k) == if k == chiave@ {
                    None
                } else {
                    finestra_in(v@.take(i + 1), k)
                } by {
                lemma_finestra_push(prima, e, k);
                lemma_finestra_push(v@.take(i as int), v@[i as int], k);
            }
        } else {
            assert forall|k: Seq<char>|
                #[trigger] finestra_in(out@, k) == if k == chiave@ {
                    None
                } else {
                    finestra_in(v@.take(i + 1), k)
                } by {
                lemma_finestra_push(v@.take(i as int), v@[i as int], k);
            }
        }
        i = i + 1;
    }
    assert(v@.take(v@.len() as int) =~= v@);
    out
}

/// The window id stored under `chiave`.
fn cerca_finestra(v: &Vec<(String, String)>, chiave: &str) -> (r: Option<String>)
    ensures
        r matches Some(id) ==> finestra_in(v@, chiave@) == Some(id@),
        r is None ==> finestra_in(v@, chiave@) is None,
{
    let mut i: usize = 0;
    assert(v@.subrange(0, v@.len() as int) =~= v@);
    while i < v.len()
        invariant
            i <= v@.len(),
            finestra_in(v@, chiave@) == finestra_in(v@.subrange(i as int, v@.len() as int), chiave@),
        decreases v@.len() - i,
    {
        let ghost resto = v@.subrange(i as int, v@.len() as int);
        assert(resto.drop_first() =~= v@.subrange(i + 1, v@.len() as int));
        assert(resto[0] == v@[i as int]);
        if testo::uguali_testo(v[i].0.as_str(), chiave) {
            return Some(v[i].1.clone());
        }
        i = i + 1;
    }
    assert(v@.subrange(i as int, v@.len() as int) =~= Seq::<(String, String)>::empty());
    None
}

// ─── The handler ─────────────────────────────────────────────────────────────

/// The state the assistant keeps between recognised commands.
pub struct IntentHandler {
    pub active: bool,
    pub wakeword: String,
    pub botname: String,
    pub messages: Messages,
    pub listaprogrammi: String,
    pub listabookmarks: String,
    pub stations_csv: String,
    pub youtube_open: bool,
    pub awaiting_shutdown: bool,
    pub awaiting_reboot: bool,
    /// Path waiting for a spoken confirmation before it is deleted.
    pub awaiting_delete: Option<String>,
    /// Window id of each bookmark opened in a dedicated window, keyed by its
    /// lower-cased name, so that closing it can target exactly that window.
    pub finestre_bookmark: Vec<(String, String)>,
}

/// Every field but the Youtube flag and the tracked windows is the same.
pub open spec fn resto_invariato(a: &IntentHandler, b: &IntentHandler) -> bool {
    &&& a.active == b.active
    &&& a.wakeword == b.wakeword
    &&& a.botname == b.botname
    &&& a.messages == b.messages
    &&& a.listaprogrammi == b.listaprogrammi
    &&& a.listabookmarks == b.listabookmarks
    &&& a.stations_csv == b.stations_csv
    &&& a.awaiting_shutdown == b.awaiting_shutdown
    &&& a.awaiting_reboot == b.awaiting_reboot
    &&& a.awaiting_delete == b.awaiting_delete
}

impl IntentHandler {
    /// The window id tracked under `chiave`.
    pub open spec fn finestra(&self, chiave: Seq<char>) -> Option<Seq<char>> {
        finestra_in(self.finestre_bookmark@, chiave)
    }

    /// A handler in stand-by, with nothing pending and no tracked window.
    pub fn new(
        wakeword: String,
        botname: String,
        messages: Messages,
        listaprogrammi: String,
        listabookmarks: String,
        stations_csv: String,
    ) -> (r: Self)
        ensures
            !r.active,
            !r.youtube_open,
            !r.awaiting_shutdown,
            !r.awaiting_reboot,
            r.awaiting_delete is None,
            r.wakeword == wakeword,
            r.botname == botname,
            r.messages == messages,
            r.listaprogrammi == listaprogrammi,
            r.listabookmarks == listabookmarks,
            r.stations_csv == stations_csv,
            forall|k: Seq<char>| #[trigger] r.finestra(k) is None,
            chiavi_distinte(r.finestre_bookmark@),
    {
        IntentHandler {
            active: false,
            wakeword,
            botname,
            messages,
            listaprogrammi,
            listabookmarks,
            stations_csv,
            youtube_open: false,
            awaiting_shutdown: false,
            awaiting_reboot: false,
            awaiting_delete: None,
            finestre_bookmark: Vec::new(),
        }
    }

    /// Records the window opened for the bookmark `chiave`, replacing any
    /// window recorded before under the same key.
    pub fn registra_finestra(&mut self, chiave: &str, id: &str)
        ensures
            forall|k: Seq<char>|
                #[trigger] final(self).finestra(k) == if k == chiave@ {
                    Some(id@)
                } else {
                    old(self).finestra(k)
                },
            resto_invariato(old(self), final(self)),
            final(self).youtube_open == old(self).youtube_open,
            chiavi_distinte(old(self).finestre_bookmark@) ==> chiavi_distinte(
                final(self).finestre_bookmark@,
            ),
    {
        let mut v = senza_chiave(&self.finestre_bookmark, chiave);
        let ghost prima = v@;
        let e = (String::from_str(chiave), String::from_str(id));
        v.push(e);
        assert(v@[v@.len() - 1] == e);
        assert forall|i: int, j: int| 0 <= i < j < v@.len() && chiavi_distinte(prima) implies
            #[trigger] v@[i].0@ != #[trigger] v@[j].0@ by {
            assert(v@[i] == prima[i]);
            if j < prima.len() {
                assert(v@[j] == prima[j]);
            }
        }
        assert forall|k: Seq<char>|
            #[trigger] finestra_in(v@, k) == if k == chiave@ {
                Some(id@)
            } else {
                finestra_in(old(self).finestre_bookmark@, k)
            } by {
            lemma_finestra_push(prima, e, k);
        }
        self.finestre_bookmark = v;
    }

    /// Takes out the window recorded under `chiave`, if any.
    pub fn prendi_finestra(&mut self, chiave: &str) -> (r: Option<String>)
        ensures
            r matches Some(id) ==> old(self).finestra(chiave@) == Some(id@),
            r is None ==> old(self).finestra(chiave@) is None,
            forall|k: Seq<char>|
                #[trigger] final(self).finestra(k) == if k == chiave@ {
                    None
                } else {
                    old(self).finestra(k)
                },
            resto_invariato(old(self), final(self)),
            final(self).youtube_open == old(self).youtube_open,
            chiavi_distinte(old(self).finestre_bookmark@) ==> chiavi_distinte(
                final(self).finestre_bookmark@,
            ),
    {
        let trovato = cerca_finestra(&self.finestre_bookmark, chiave);
        let v = senza_chiave(&self.finestre_bookmark, chiave);
        self.finestre_bookmark = v;
        trovato
    }
}

} // verus!

verus! {

// ─── Bookmark list ───────────────────────────────────────────────────────────

/// A line `Nome=url` of a list file: trimmed; blank lines, `#` comments and
/// lines without `=` give nothing; name and value are split at the first `=`
/// and trimmed.
pub open spec fn voce_lista(riga: Seq<char>) -> Option<(Seq<char>, Seq<char>)> {
    let l = rifilato(riga);
    if l.len() == 0 || l[0] == '#' {
        None
    } else {
        match testo::trova(l, seq!['=']) {
            Some(p) => Some((rifilato(l.subrange(0, p)), rifilato(l.subrange(p + 1, l.len() as int)))),
            None => None,
        }
    }
}

/// Reads a `Nome=valore` line of a list file.
pub fn leggi_voce_lista(riga: &str) -> (r: Option<(String, String)>)
    ensures
        r matches Some((a, b)) ==> voce_lista(riga@) == Some((a@, b@)),
        r is None ==> voce_lista(riga@) is None,
{
    let l = rifila(riga);
    let v = caratteri(l.as_str());
    let n = v.len();
    if n == 0 || v[0] == '#' {
        return None;
    }
    let mut uguale: Vec<char> = Vec::new();
    uguale.push('=');
    assert(uguale@ =~= seq!['=']);
    match testo::trova_in(&v, &uguale) {
        Some(p) => {
            proof {
                testo::lemma_trova(l@, seq!['=']);
            }
            assert(testo::occorre_a(v@, uguale@, p as int));
            let a = sottostringa(l.as_str(), 0, p);
            let b = sottostringa(l.as_str(), p + 1, n);
            Some((rifila(a.as_str()), rifila(b.as_str())))
        },
        None => None,
    }
}

/// The first bookmark, from line `k` on, whose name the command names.
pub open spec fn bookmark_da(
    righe: Seq<Seq<char>>,
    comando: Seq<char>,
    stop: Seq<Seq<char>>,
    k: int,
) -> Option<(Seq<char>, Seq<char>)>
    decreases righe.len() - k,
{
    if k < 0 || k >= righe.len() {
        None
    } else {
        match voce_lista(righe[k]) {
            Some((nome, url)) => if corrisponde(comando, nome, stop) {
                Some((nome, url))
            } else {
                bookmark_da(righe, comando, stop, k + 1)
            },
            None => bookmark_da(righe, comando, stop, k + 1),
        }
    }
}

/// The first bookmark of the list file that the command names.
pub open spec fn bookmark_nominato(righe: Seq<Seq<char>>, comando: Seq<char>, stop: Seq<Seq<char>>) -> Option<(Seq<char>, Seq<char>)> {
    bookmark_da(righe, comando, stop, 0)
}

/// Finds the first bookmark that the command names.
pub fn trova_bookmark(righe: &Vec<String>, comando: &str, stop: &Vec<String>) -> (r: Option<(String, String)>)
    ensures
        r matches Some((a, b)) ==> bookmark_nominato(righe.deep_view(), comando@, stop.deep_view())
            == Some((a@, b@)),
        r is None ==> bookmark_nominato(righe.deep_view(), comando@, stop.deep_view()) is None,
{
    let ghost rv = righe.deep_view();
    let mut i: usize = 0;
    while i < righe.len()
        invariant
            i <= righe@.len(),
            rv == righe.deep_view(),
            bookmark_nominato(rv, comando@, stop.deep_view()) == bookmark_da(
                rv,
                comando@,
                stop.deep_view(),
                i as int,
            ),
        decreases righe@.len() - i,
    {
        assert(rv[i as int] == righe@[i as int]@);
        match leggi_voce_lista(righe[i].as_str()) {
            Some((nome, url)) => {
                if bookmark_corrisponde(comando, nome.as_str(), stop) {
                    return Some((nome, url));
                }
            },
            None => {},
        }
        i = i + 1;
    }
    None
}

/// A bookmark to open.
pub struct AperturaBookmark {
    pub nome: String,
    pub url: String,
    /// Youtube bookmarks open in a dedicated browser window, so that they can
    /// be closed without touching the other tabs.
    pub dedicata: bool,
    /// Key under which the dedicated window is tracked.
    pub chiave: String,
    /// What the assistant says.
    pub messaggio: String,
}

/// The phrase for a bookmark that was opened or closed: `template` from
/// `other_messages` with `{programma}` replaced by the name.
pub open spec fn frase_con_nome(m: &Messages, chiave: Seq<char>, ripiego: Seq<char>, nome: Seq<char>) -> Seq<char> {
    sostituito(testo_o(m, Sezione::Altri, chiave, ripiego), "{programma}"@, nome)
}

/// How the window of a bookmark is closed: the tracked window when there is
/// one, else every window whose title contains the name; then `messaggio`
/// is said.
pub struct ChiusuraBookmark {
    pub id: Option<String>,
    pub titolo: String,
    pub messaggio: String,
}

/// How a close command that names no bookmark is carried out.
pub enum Chiusura {
    /// Terminate the configured browser.
    Browser(String),
    /// Terminate the configured music player.
    Musica(String),
    /// Close the program named by the command, from the programs list.
    Programma { chiuso: String, non_riconosciuto: String },
}

impl IntentHandler {
    /// Opens the first bookmark of the list that the command names. A Youtube
    /// bookmark marks Youtube as open.
    pub fn apri_bookmark(&mut self, comando: &str, righe: &Vec<String>) -> (r: Option<AperturaBookmark>)
        ensures
            ({
                let stop = parole_chiave(&old(self).messages, Sezione::Oggetti, "bookmark_stopwords"@);
                match bookmark_nominato(righe.deep_view(), comando@, stop) {
                    Some((nome, url)) => r matches Some(a) && a.nome@ == nome && a.url@ == url
                        && a.chiave@ == minuscolo(nome) && a.dedicata == testo::contiene(
                        minuscolo(nome),
                        "youtube"@,
                    ) && a.messaggio@ == frase_con_nome(
                        &old(self).messages,
                        "program_opened"@,
                        "[missing: other_messages.program_opened]"@,
                        nome,
                    ) && final(self).youtube_open == (old(self).youtube_open || a.dedicata),
                    None => r is None && *final(self) == *old(self),
                }
            }),
            resto_invariato(old(self), final(self)),
            final(self).finestre_bookmark == old(self).finestre_bookmark,
    {
        let stop = kw(&self.messages, Sezione::Oggetti, "bookmark_stopwords");
        match trova_bookmark(righe, comando, &stop) {
            Some((nome, url)) => {
                let chiave = in_minuscolo(nome.as_str());
                let dedicata = testo::contiene_testo(chiave.as_str(), "youtube");
                if dedicata {
                    self.youtube_open = true;
                }
                let t = messaggio(
                    &self.messages,
                    Sezione::Altri,
                    "program_opened",
                    "[missing: other_messages.program_opened]",
                );
                let messaggio = sostituisci(t.as_str(), "{programma}", nome.as_str());
                Some(AperturaBookmark { nome, url, dedicata, chiave, messaggio })
            },
            None => None,
        }
    }

    /// Closes the first bookmark of the list that the command names: its
    /// tracked window is taken out (else its windows are found by title), and
    /// a Youtube bookmark marks Youtube as closed. When no bookmark is named,
    /// nothing changes.
    pub fn chiudi_bookmark(&mut self, comando: &str, righe: &Vec<String>) -> (r: Option<ChiusuraBookmark>)
        ensures
            ({
                let m = &old(self).messages;
                let stop = parole_chiave(m, Sezione::Oggetti, "bookmark_stopwords"@);
                match bookmark_nominato(righe.deep_view(), comando@, stop) {
                    Some((nome, url)) => {
                        let chiave = minuscolo(nome);
                        let yt = testo::contiene(chiave, "youtube"@);
                        &&& r matches Some(c) && c.titolo@ == nome
                            && (match c.id {
                            Some(i) => old(self).finestra(chiave) == Some(i@),
                            None => old(self).finestra(chiave) is None,
                        }) && c.messaggio@ == if yt {
                            testo_o(
                                m,
                                Sezione::Altri,
                                "youtube_closed"@,
                                "[missing: other_messages.youtube_closed]"@,
                            )
                        } else {
                            frase_con_nome(
                                m,
                                "program_closed"@,
                                "[missing: other_messages.program_closed]"@,
                                nome,
                            )
                        }
                        &&& forall|k: Seq<char>|
                            #[trigger] final(self).finestra(k) == if k == chiave {
                                None
                            } else {
                                old(self).finestra(k)
                            }
                        &&& final(self).youtube_open == (old(self).youtube_open && !yt)
                    },
                    None => r is None && *final(self) == *old(self),
                }
            }),
            resto_invariato(old(self), final(self)),
            chiavi_distinte(old(self).finestre_bookmark@) ==> chiavi_distinte(
                final(self).finestre_bookmark@,
            ),
    {
        let stop = kw(&self.messages, Sezione::Oggetti, "bookmark_stopwords");
        match trova_bookmark(righe, comando, &stop) {
            Some((nome, _url)) => {
                let chiave = in_minuscolo(nome.as_str());
                let id = self.prendi_finestra(chiave.as_str());
                let messaggio = if testo::contiene_testo(chiave.as_str(), "youtube") {
                    self.youtube_open = false;
                    messaggio(
                        &self.messages,
                        Sezione::Altri,
                        "youtube_closed",
                        "[missing: other_messages.youtube_closed]",
                    )
                } else {
                    let t = messaggio(
                        &self.messages,
                        Sezione::Altri,
                        "program_closed",
                        "[missing: other_messages.program_closed]",
                    );
                    sostituisci(t.as_str(), "{programma}", nome.as_str())
                };
                Some(ChiusuraBookmark { id, titolo: nome, messaggio })
            },
            None => None,
        }
    }

    /// Carries out a close command that names no bookmark: the keywords of
    /// the command choose the browser (which also marks Youtube as closed),
    /// the music player, or else a program of the programs list.
    pub fn chiudi_oggetto(&mut self, comando: &str) -> (r: Chiusura)
        ensures
            ({
                let m = &old(self).messages;
                if contiene_una(comando@, parole_chiave(m, Sezione::Oggetti, "internet"@)) {
                    &&& r matches Chiusura::Browser(msg) && msg@ == testo_o(
                        m,
                        Sezione::Altri,
                        "browser_closed"@,
                        ""@,
                    )
                    &&& !final(self).youtube_open
                } else if contiene_una(comando@, parole_chiave(m, Sezione::Oggetti, "music"@)) {
                    &&& r matches Chiusura::Musica(msg) && msg@ == testo_o(
                        m,
                        Sezione::Altri,
                        "music_player_closed"@,
                        ""@,
                    )
                    &&& final(self).youtube_open == old(self).youtube_open
                } else {
                    &&& r matches Chiusura::Programma { chiuso, non_riconosciuto } && chiuso@
                        == testo_o(
                        m,
                        Sezione::Altri,
                        "program_closed"@,
                        "[missing: other_messages.program_closed]"@,
                    ) && non_riconosciuto@ == testo_o(
                        m,
                        Sezione::Errori,
                        "command_not_recognized"@,
                        "[missing: error_messages.command_not_recognized]"@,
                    )
                    &&& final(self).youtube_open == old(self).youtube_open
                }
            }),
            resto_invariato(old(self), final(self)),
            final(self).finestre_bookmark == old(self).finestre_bookmark,
    {
        let internet = kw(&self.messages, Sezione::Oggetti, "internet");
        let musica = kw(&self.messages, Sezione::Oggetti, "music");
        if contiene(comando, &internet) {
            self.youtube_open = false;
            Chiusura::Browser(messaggio(&self.messages, Sezione::Altri, "browser_closed", ""))
        } else if contiene(comando, &musica) {
            Chiusura::Musica(messaggio(&self.messages, Sezione::Altri, "music_player_closed", ""))
        } else {
            Chiusura::Programma {
                chiuso: messaggio(
                    &self.messages,
                    Sezione::Altri,
                    "program_closed",
                    "[missing: other_messages.program_closed]",
                ),
                non_riconosciuto: messaggio(
                    &self.messages,
                    Sezione::Errori,
                    "command_not_recognized",
                    "[missing: error_messages.command_not_recognized]",
                ),
            }
        }
    }
}

} // verus!
