use vstd::prelude::*;
use crate::testo;
use crate::testo::{
    caratteri, dividi_parole, limiti_rifilatura, parole, rifila, rifilato, sostituisci,
    sostituito, sottostringa, unisci, unito,
};
use crate::esterni::{regex_sostituito, sostituisci_regex};

verus! {

// ─── Keyword matching ────────────────────────────────────────────────────────

/// `c` contains at least one of `parole` (an exact substring match).
pub open spec fn contiene_una(c: Seq<char>, parole: Seq<Seq<char>>) -> bool {
    exists|i: int| 0 <= i < parole.len() && testo::contiene(c, parole[i])
}

/// Whether the command contains at least one of the keywords (exact
/// substring match; no phonetic fuzziness).
pub fn contiene(cmd: &str, parole: &Vec<String>) -> (r: bool)
    ensures
        r == contiene_una(cmd@, parole.deep_view()),
{
    let c = caratteri(cmd);
    let mut i: usize = 0;
    while i < parole.len()
        invariant
            c@ == cmd@,
            i <= parole@.len(),
            forall|j: int| 0 <= j < i ==> !testo::contiene(cmd@, #[trigger] parole.deep_view()[j]),
        decreases parole@.len() - i,
    {
        let p = caratteri(parole[i].as_str());
        assert(parole.deep_view()[i as int] == parole@[i as int]@);
        if testo::contiene_in(&c, &p) {
            return true;
        }
        i = i + 1;
    }
    false
}

// ─── Cleaning the recognised text ────────────────────────────────────────────

/// The marks stripped around the text after the wakeword: ASCII
/// punctuation (`char::is_ascii_punctuation`) and the ellipsis `…`
/// (U+2026), which Whisper writes after a bare wakeword.
pub open spec fn punteggiatura(c: char) -> bool {
    ||| ('!' <= c && c <= '/')
    ||| (':' <= c && c <= '@')
    ||| ('[' <= c && c <= '`')
    ||| ('{' <= c && c <= '~')
    ||| c == '\u{2026}'
}

pub fn e_punteggiatura(c: char) -> (r: bool)
    ensures
        r == punteggiatura(c),
{
    ('!' <= c && c <= '/') || (':' <= c && c <= '@') || ('[' <= c && c <= '`') || ('{' <= c
        && c <= '~') || c == '\u{2026}'
}

pub open spec fn senza_punt_inizio(s: Seq<char>) -> Seq<char>
    decreases s.len(),
{
    if s.len() > 0 && punteggiatura(s[0]) {
        senza_punt_inizio(s.drop_first())
    } else {
        s
    }
}

pub open spec fn senza_punt_fine(s: Seq<char>) -> Seq<char>
    decreases s.len(),
{
    if s.len() > 0 && punteggiatura(s.last()) {
        senza_punt_fine(s.drop_last())
    } else {
        s
    }
}

/// The text after the wakeword as the assistant keeps it: trimmed, with the
/// punctuation at both ends removed (Whisper writes "marco!", "marco...",
/// "marco…") and trimmed again.
pub open spec fn pulito(s: Seq<char>) -> Seq<char> {
    rifilato(senza_punt_fine(senza_punt_inizio(rifilato(s))))
}

/// `s.trim()`, then the ASCII punctuation and `…` at both ends removed,
/// then `trim()` again.
pub fn pulisci_comando(s: &str) -> (r: String)
    ensures
        r@ == pulito(s@),
{
    let t = rifila(s);
    let v = caratteri(t.as_str());
    let n = v.len();
    let mut i: usize = 0;
    assert(v@.subrange(0, n as int) =~= v@);
    while i < n && e_punteggiatura(v[i])
        invariant
            n == v@.len(),
            i <= n,
            senza_punt_inizio(v@) == senza_punt_inizio(v@.subrange(i as int, n as int)),
        decreases n - i,
    {
        assert(v@.subrange(i as int, n as int).drop_first() =~= v@.subrange(i + 1, n as int));
        i = i + 1;
    }
    assert(senza_punt_inizio(v@.subrange(i as int, n as int)) == v@.subrange(i as int, n as int));
    let mut j: usize = n;
    while j > i && e_punteggiatura(v[j - 1])
        invariant
            n == v@.len(),
            i <= j <= n,
            senza_punt_fine(senza_punt_inizio(v@)) == senza_punt_fine(
                v@.subrange(i as int, j as int),
            ),
        decreases j,
    {
        assert(v@.subrange(i as int, j as int).drop_last() =~= v@.subrange(i as int, j - 1));
        j = j - 1;
    }
    let m = sottostringa(t.as_str(), i, j);
    rifila(m.as_str())
}

/// The command without the wakeword. When the command holds the wakeword,
/// every occurrence is removed; otherwise, when `simile` is the position of
/// the word judged phonetically close to the wakeword, that word is dropped
/// and the others are joined by single spaces; otherwise the command is only
/// trimmed.
pub open spec fn senza_wakeword(cmd: Seq<char>, w: Seq<char>, simile: Option<int>) -> Seq<char> {
    if testo::contiene(cmd, w) {
        rifilato(sostituito(cmd, w, seq![]))
    } else {
        match simile {
            Some(p) => rifilato(unito(parole(cmd).remove(p), seq![' '])),
            None => rifilato(cmd),
        }
    }
}

/// Removes the wakeword from the command. The phonetic comparison is made by
/// the caller: `simile` is the position, among the words of `cmd`, of the
/// first one whose Jaro-Winkler similarity to the wakeword passes the
/// threshold, or `None`.
pub fn rimuovi_wakeword(cmd: &str, wakeword: &str, simile: Option<usize>) -> (r: String)
    requires
        simile matches Some(p) ==> p < parole(cmd@).len(),
    ensures
        r@ == senza_wakeword(
            cmd@,
            wakeword@,
            match simile {
                Some(p) => Some(p as int),
                None => None,
            },
        ),
{
    if testo::contiene_testo(cmd, wakeword) {
        let t = sostituisci(cmd, wakeword, "");
        proof {
            reveal_strlit("");
        }
        assert(""@ =~= Seq::<char>::empty());
        return rifila(t.as_str());
    }
    match simile {
        Some(p) => {
            let mut ws = dividi_parole(cmd);
            let ghost prima = ws.deep_view();
            ws.remove(p);
            assert(ws.deep_view() =~= prima.remove(p as int));
            let j = unisci(&ws, " ");
            proof {
                reveal_strlit(" ");
            }
            assert(" "@ =~= seq![' ']);
            rifila(j.as_str())
        },
        None => rifila(cmd),
    }
}

// ─── Phonetic corrections ────────────────────────────────────────────────────

/// One correction: the regex replacement, or the text unchanged when the
/// pattern does not compile.
pub open spec fn corretto(s: Seq<char>, pattern: Seq<char>, sostituto: Seq<char>) -> Seq<char> {
    match regex_sostituito(pattern, s, sostituto) {
        Some(x) => x,
        None => s,
    }
}

pub fn correggi(s: String, pattern: &str, sostituto: &str) -> (r: String)
    ensures
        r@ == corretto(s@, pattern@, sostituto@),
{
    match sostituisci_regex(pattern, s.as_str(), sostituto) {
        Some(x) => x,
        None => s,
    }
}

/// The phonetic corrections of `adatta_lingua`, applied in order: each is a
/// whole-word regex replacement of a frequent mis-transcription.
pub open spec fn adattato(s: Seq<char>) -> Seq<char> {
    let s = corretto(s, r"\bmito\b"@, "mitology"@);
    let s = corretto(s, r"\bmitolo\b"@, "mitology"@);
    let s = corretto(s, r"\bcrita\b"@, "krita"@);
    let s = corretto(s, r"\bcreta\b"@, "krita"@);
    let s = corretto(s, r"\bconsole\b"@, "konsole"@);
    let s = corretto(s, r"\bcaffeine\b"@, "kaffeine"@);
    let s = corretto(s, r"\bcate\b"@, "kate"@);
    let s = corretto(s, r"\bspegne\b"@, "spegni"@);
    let s = corretto(s, r"\bspenge\b"@, "spegni"@);
    let s = corretto(s, r"\bspinge\b"@, "spegni"@);
    let s = corretto(s, r"\bspingi\b"@, "spegni"@);
    corretto(s, r"\bdolfin\b"@, "dolphin"@)
}

/// Applies the phonetic corrections to a (lower-cased) command.
pub fn adatta_lingua(cmd: &str) -> (r: String)
    ensures
        r@ == adattato(cmd@),
{
    let s = String::from_str(cmd);
    let s = correggi(s, r"\bmito\b", "mitology");
    let s = correggi(s, r"\bmitolo\b", "mitology");
    let s = correggi(s, r"\bcrita\b", "krita");
    let s = correggi(s, r"\bcreta\b", "krita");
    let s = correggi(s, r"\bconsole\b", "konsole");
    let s = correggi(s, r"\bcaffeine\b", "kaffeine");
    let s = correggi(s, r"\bcate\b", "kate");
    let s = correggi(s, r"\bspegne\b", "spegni");
    let s = correggi(s, r"\bspenge\b", "spegni");
    let s = correggi(s, r"\bspinge\b", "spegni");
    let s = correggi(s, r"\bspingi\b", "spegni");
    correggi(s, r"\bdolfin\b", "dolphin")
}

} // verus!

verus! {

// ─── Spoken paths ────────────────────────────────────────────────────────────

/// The symbol a spoken word stands for in a path; other words stay as they are.
pub open spec fn simbolo(w: Seq<char>) -> Seq<char> {
    if w == "slash"@ || w == "barra"@ {
        "/"@
    } else if w == "punto"@ {
        "."@
    } else if w == "trattino"@ {
        "-"@
    } else if w == "underscore"@ {
        "_"@
    } else {
        w
    }
}

/// A path read aloud: "trattino basso" becomes "underscore", then each word
/// is replaced by its symbol and the words are glued together without spaces.
pub open spec fn percorso_normalizzato(t: Seq<char>) -> Seq<char> {
    unito(
        parole(sostituito(t, "trattino basso"@, "underscore"@)).map_values(|w: Seq<char>| simbolo(w)),
        seq![],
    )
}

fn simbolo_di(w: &str) -> (r: String)
    ensures
        r@ == simbolo(w@),
{
    if testo::uguali_testo(w, "slash") || testo::uguali_testo(w, "barra") {
        String::from_str("/")
    } else if testo::uguali_testo(w, "punto") {
        String::from_str(".")
    } else if testo::uguali_testo(w, "trattino") {
        String::from_str("-")
    } else if testo::uguali_testo(w, "underscore") {
        String::from_str("_")
    } else {
        String::from_str(w)
    }
}

/// Turns a path read aloud into the real path ("slash"/"barra" → `/`,
/// "punto" → `.`, "trattino" → `-`, "trattino basso"/"underscore" → `_`),
/// gluing the words without spaces; unknown words pass unchanged.
pub fn normalizza_percorso_vocale(testo: &str) -> (r: String)
    ensures
        r@ == percorso_normalizzato(testo@),
{
    let t = sostituisci(testo, "trattino basso", "underscore");
    let ws = dividi_parole(t.as_str());
    let ghost f = |w: Seq<char>| simbolo(w);
    let mut out: Vec<String> = Vec::new();
    let mut i: usize = 0;
    while i < ws.len()
        invariant
            i <= ws@.len(),
            out@.len() == i,
            forall|k: int| 0 <= k < i ==> #[trigger] out@[k]@ == simbolo(ws@[k]@),
        decreases ws@.len() - i,
    {
        out.push(simbolo_di(ws[i].as_str()));
        i = i + 1;
    }
    assert(out.deep_view() =~= ws.deep_view().map_values(f));
    proof {
        reveal_strlit("");
    }
    assert(""@ =~= Seq::<char>::empty());
    unisci(&out, "")
}

// ─── Text after a keyword ────────────────────────────────────────────────────

/// The end of the right-most occurrence of `p` in `cmd`, when `p` is not empty
/// and occurs.
pub open spec fn fine_di(cmd: Seq<char>, p: Seq<char>) -> Option<int> {
    if p.len() > 0 && testo::ultima(cmd, p) is Some {
        Some(testo::ultima(cmd, p)->0 + p.len())
    } else {
        None
    }
}

/// The largest end among the keywords that occur.
pub open spec fn miglior_fine(cmd: Seq<char>, parole: Seq<Seq<char>>) -> Option<int>
    decreases parole.len(),
{
    if parole.len() == 0 {
        None
    } else {
        let prec = miglior_fine(cmd, parole.drop_last());
        match fine_di(cmd, parole.last()) {
            Some(f) => if prec is None || f > prec->0 {
                Some(f)
            } else {
                prec
            },
            None => prec,
        }
    }
}

/// The trimmed text after the keyword occurrence that ends furthest right,
/// when it is not empty.
pub open spec fn estratto_dopo(cmd: Seq<char>, parole: Seq<Seq<char>>) -> Option<Seq<char>> {
    match miglior_fine(cmd, parole) {
        Some(f) => {
            let t = rifilato(cmd.subrange(f, cmd.len() as int));
            if t.len() > 0 {
                Some(t)
            } else {
                None
            }
        },
        None => None,
    }
}

/// `miglior_fine` is the largest end of an occurrence of a keyword, and is
/// missing exactly when no keyword occurs.
pub proof fn lemma_miglior_fine(cmd: Seq<char>, parole: Seq<Seq<char>>)
    ensures
        miglior_fine(cmd, parole) matches Some(f) ==> (exists|i: int|
            0 <= i < parole.len() && fine_di(cmd, parole[i]) == Some(f)) && (forall|j: int|
            0 <= j < parole.len() && #[trigger] fine_di(cmd, parole[j]) is Some ==> fine_di(
                cmd,
                parole[j],
            )->0 <= f) && 0 <= f <= cmd.len(),
        miglior_fine(cmd, parole) is None ==> forall|j: int|
            0 <= j < parole.len() ==> #[trigger] fine_di(cmd, parole[j]) is None,
    decreases parole.len(),
{
    if parole.len() > 0 {
        let pr = parole.drop_last();
        lemma_miglior_fine(cmd, pr);
        testo::lemma_ultima(cmd, parole.last());
        assert forall|j: int| 0 <= j < pr.len() implies pr[j] == parole[j] by {}
        if let Some(f) = miglior_fine(cmd, parole) {
            if let Some(g) = miglior_fine(cmd, pr) {
                let i = choose|i: int| 0 <= i < pr.len() && fine_di(cmd, pr[i]) == Some(g);
                assert(fine_di(cmd, parole[i]) == Some(g));
            }
            assert(fine_di(cmd, parole[parole.len() - 1]) == fine_di(cmd, parole.last()));
        }
    }
}

/// The text after the keyword that ends furthest right (e.g. the path in
/// "crea cartella /home/riccardo/nuova"), trimmed; `None` when no keyword
/// occurs or nothing follows it. Empty keywords are ignored.
pub fn estrai_dopo(cmd: &str, parole: &Vec<String>) -> (r: Option<String>)
    ensures
        r matches Some(t) ==> estratto_dopo(cmd@, parole.deep_view()) == Some(t@),
        r is None ==> estratto_dopo(cmd@, parole.deep_view()) is None,
{
    let c = caratteri(cmd);
    let n = c.len();
    let ghost pv = parole.deep_view();
    let mut migliore: Option<usize> = None;
    let mut i: usize = 0;
    while i < parole.len()
        invariant
            c@ == cmd@,
            n == c@.len(),
            pv == parole.deep_view(),
            i <= parole@.len(),
            match migliore {
                Some(f) => miglior_fine(cmd@, pv.take(i as int)) == Some(f as int) && f <= cmd@.len(),
                None => miglior_fine(cmd@, pv.take(i as int)) is None,
            },
        decreases parole@.len() - i,
    {
        assert(pv.take(i + 1).drop_last() =~= pv.take(i as int));
        assert(pv.take(i + 1).last() == parole@[i as int]@);
        let p = caratteri(parole[i].as_str());
        if p.len() > 0 {
            match testo::ultima_in(&c, &p) {
                Some(pos) => {
                    proof {
                        testo::lemma_ultima(cmd@, p@);
                    }
                    assert(testo::occorre_a(c@, p@, pos as int));
                    let fine = pos + p.len();
                    match migliore {
                        Some(m) => {
                            if fine > m {
                                migliore = Some(fine);
                            }
                        },
                        None => {
                            migliore = Some(fine);
                        },
                    }
                },
                None => {},
            }
        }
        i = i + 1;
    }
    assert(pv.take(parole@.len() as int) =~= pv);
    match migliore {
        Some(f) => {
            let resto = sottostringa(cmd, f, c.len());
            let t = rifila(resto.as_str());
            if t.unicode_len() > 0 {
                Some(t)
            } else {
                None
            }
        },
        None => None,
    }
}

// ─── Name and place, source and destination ──────────────────────────────────

/// The split of `t` at the first `sep` into `(name, place)`, both trimmed, the
/// place lower-cased; only when both are non-empty.
pub open spec fn diviso_nome_luogo(t: Seq<char>, sep: Seq<char>) -> Option<(Seq<char>, Seq<char>)> {
    match testo::trova(t, sep) {
        Some(pos) => {
            let nome = rifilato(t.subrange(0, pos));
            let luogo = crate::esterni::minuscolo(
                rifilato(t.subrange(pos + sep.len(), t.len() as int)),
            );
            if nome.len() > 0 && luogo.len() > 0 {
                Some((nome, luogo))
            } else {
                None
            }
        },
        None => None,
    }
}

/// "<nome> in <luogo>" or "<nome> dentro <luogo>", tried in this order.
pub open spec fn nome_e_luogo(t: Seq<char>) -> Option<(Seq<char>, Seq<char>)> {
    match diviso_nome_luogo(t, " in "@) {
        Some(x) => Some(x),
        None => diviso_nome_luogo(t, " dentro "@),
    }
}

fn dividi_nome_luogo(t: &str, sep: &str) -> (r: Option<(String, String)>)
    ensures
        r matches Some((a, b)) ==> diviso_nome_luogo(t@, sep@) == Some((a@, b@)),
        r is None ==> diviso_nome_luogo(t@, sep@) is None,
{
    let tv = caratteri(t);
    let sv = caratteri(sep);
    let n = tv.len();
    match testo::trova_in(&tv, &sv) {
        Some(pos) => {
            proof {
                testo::lemma_trova(t@, sep@);
            }
            assert(testo::occorre_a(tv@, sv@, pos as int));
            let a = sottostringa(t, 0, pos);
            let nome = rifila(a.as_str());
            let b = sottostringa(t, pos + sv.len(), tv.len());
            let b = rifila(b.as_str());
            let luogo = crate::esterni::in_minuscolo(b.as_str());
            if nome.unicode_len() > 0 && luogo.unicode_len() > 0 {
                Some((nome, luogo))
            } else {
                None
            }
        },
        None => None,
    }
}

/// When the text has the form "<nome> in <luogo>" (or "dentro"), the pair
/// `(nome, luogo)`, the place lower-cased; `None` otherwise.
pub fn estrai_nome_e_luogo(testo: &str) -> (r: Option<(String, String)>)
    ensures
        r matches Some((a, b)) ==> nome_e_luogo(testo@) == Some((a@, b@)),
        r is None ==> nome_e_luogo(testo@) is None,
{
    match dividi_nome_luogo(testo, " in ") {
        Some(x) => Some(x),
        None => dividi_nome_luogo(testo, " dentro "),
    }
}

/// `cmd` without the first occurrence of the first keyword (in list order)
/// that occurs in it.
pub open spec fn senza_verbo(cmd: Seq<char>, verbi: Seq<Seq<char>>) -> Seq<char>
    decreases verbi.len(),
{
    if verbi.len() == 0 {
        cmd
    } else {
        match testo::trova(cmd, verbi[0]) {
            Some(pos) => cmd.subrange(0, pos) + cmd.subrange(pos + verbi[0].len(), cmd.len() as int),
            None => senza_verbo(cmd, verbi.drop_first()),
        }
    }
}

/// The split of `t` at the first `sep` into two trimmed, non-empty parts.
pub open spec fn diviso_in_due(t: Seq<char>, sep: Seq<char>) -> Option<(Seq<char>, Seq<char>)> {
    match testo::trova(t, sep) {
        Some(pos) => {
            let a = rifilato(t.subrange(0, pos));
            let b = rifilato(t.subrange(pos + sep.len(), t.len() as int));
            if a.len() > 0 && b.len() > 0 {
                Some((a, b))
            } else {
                None
            }
        },
        None => None,
    }
}

/// Source and destination of "sposta <src> in/dentro/verso <dst>".
pub open spec fn sorgente_destinazione(cmd: Seq<char>, verbi: Seq<Seq<char>>) -> Option<(Seq<char>, Seq<char>)> {
    let t = rifilato(senza_verbo(cmd, verbi));
    match diviso_in_due(t, " in "@) {
        Some(x) => Some(x),
        None => match diviso_in_due(t, " dentro "@) {
            Some(x) => Some(x),
            None => diviso_in_due(t, " verso "@),
        },
    }
}

fn dividi_in_due(t: &str, sep: &str) -> (r: Option<(String, String)>)
    ensures
        r matches Some((a, b)) ==> diviso_in_due(t@, sep@) == Some((a@, b@)),
        r is None ==> diviso_in_due(t@, sep@) is None,
{
    let tv = caratteri(t);
    let sv = caratteri(sep);
    let n = tv.len();
    match testo::trova_in(&tv, &sv) {
        Some(pos) => {
            proof {
                testo::lemma_trova(t@, sep@);
            }
            assert(testo::occorre_a(tv@, sv@, pos as int));
            let a = sottostringa(t, 0, pos);
            let a = rifila(a.as_str());
            let b = sottostringa(t, pos + sv.len(), tv.len());
            let b = rifila(b.as_str());
            if a.unicode_len() > 0 && b.unicode_len() > 0 {
                Some((a, b))
            } else {
                None
            }
        },
        None => None,
    }
}

/// Splits "sposta <src> in/dentro/verso <dst>": the move keyword is removed
/// first, then the text is split at the first separator found.
pub fn estrai_sorgente_destinazione(cmd: &str, cmd_move: &Vec<String>) -> (r: Option<(String, String)>)
    ensures
        r matches Some((a, b)) ==> sorgente_destinazione(cmd@, cmd_move.deep_view()) == Some((a@, b@)),
        r is None ==> sorgente_destinazione(cmd@, cmd_move.deep_view()) is None,
{
    let c = caratteri(cmd);
    let n = c.len();
    let ghost vv = cmd_move.deep_view();
    let mut testo_cmd = String::from_str(cmd);
    let mut trovato = false;
    let mut i: usize = 0;
    assert(vv.subrange(0, vv.len() as int) =~= vv);
    while i < cmd_move.len() && !trovato
        invariant
            c@ == cmd@,
            n == cmd@.len(),
            vv == cmd_move.deep_view(),
            i <= vv.len(),
            !trovato ==> testo_cmd@ == cmd@ && senza_verbo(cmd@, vv) == senza_verbo(
                cmd@,
                vv.subrange(i as int, vv.len() as int),
            ),
            trovato ==> testo_cmd@ == senza_verbo(cmd@, vv),
        decreases vv.len() - i,
    {
        let ghost resto = vv.subrange(i as int, vv.len() as int);
        assert(resto[0] == cmd_move@[i as int]@);
        assert(resto.drop_first() =~= vv.subrange(i + 1, vv.len() as int));
        let p = caratteri(cmd_move[i].as_str());
        match testo::trova_in(&c, &p) {
            Some(pos) => {
                proof {
                    testo::lemma_trova(cmd@, p@);
                }
                assert(testo::occorre_a(c@, p@, pos as int));
                let mut t = sottostringa(cmd, 0, pos);
                t.append(cmd.substring_char(pos + p.len(), n));
                testo_cmd = t;
                trovato = true;
            },
            None => {},
        }
        i = i + 1;
    }
    assert(!trovato ==> vv.subrange(i as int, vv.len() as int) =~= Seq::<Seq<char>>::empty());
    let t = rifila(testo_cmd.as_str());
    match dividi_in_due(t.as_str(), " in ") {
        Some(x) => Some(x),
        None => match dividi_in_due(t.as_str(), " dentro ") {
            Some(x) => Some(x),
            None => dividi_in_due(t.as_str(), " verso "),
        },
    }
}

} // verus!

verus! {

// ─── Bookmarks ───────────────────────────────────────────────────────────────

/// Whether `t` is one of `lista`.
pub fn in_elenco(lista: &Vec<String>, t: &str) -> (r: bool)
    ensures
        r == lista.deep_view().contains(t@),
{
    let mut j: usize = 0;
    while j < lista.len()
        invariant
            j <= lista@.len(),
            forall|k: int| 0 <= k < j ==> lista.deep_view()[k] != t@,
        decreases lista@.len() - j,
    {
        if testo::uguali_testo(lista[j].as_str(), t) {
            assert(lista.deep_view()[j as int] == t@);
            return true;
        }
        j = j + 1;
    }
    false
}

/// A piece of a bookmark name that can identify it: at least three bytes
/// long and not a stop word.
pub open spec fn parola_significativa(t: Seq<char>, stop: Seq<Seq<char>>) -> bool {
    vstd::utf8::encode_utf8(t).len() >= 3 && !stop.contains(t)
}

/// The command names the bookmark: its lower-cased text contains the whole
/// lower-cased name, or one of its whole words (split at every
/// non-alphanumeric character) equals a significant piece of the name (split
/// at white space, `:`, `-` and `—`, then trimmed).
pub open spec fn corrisponde(comando: Seq<char>, nome: Seq<char>, stop: Seq<Seq<char>>) -> bool {
    let cl = crate::esterni::minuscolo(comando);
    let nl = crate::esterni::minuscolo(nome);
    let pezzi_nome = testo::pezzi(nl, testo::Separatore::Nome);
    let parole_cmd = testo::pezzi(cl, testo::Separatore::NonAlfanumerico);
    ||| testo::contiene(cl, nl)
    ||| exists|i: int, j: int|
        0 <= i < pezzi_nome.len() && 0 <= j < parole_cmd.len() && parola_significativa(
            rifilato(pezzi_nome[i]),
            stop,
        ) && parole_cmd[j].len() > 0 && #[trigger] parole_cmd[j] == rifilato(
            #[trigger] pezzi_nome[i],
        )
}

/// Whether the command names the bookmark `nome`: either it contains the
/// whole name (short titles such as "Youtube"), or one of its whole words is a
/// significant keyword of the name (long descriptive titles). Whole words are
/// compared, so that "mail" does not match inside "gmail".
pub fn bookmark_corrisponde(comando: &str, nome: &str, stopword: &Vec<String>) -> (r: bool)
    ensures
        r == corrisponde(comando@, nome@, stopword.deep_view()),
{
    let cl = crate::esterni::in_minuscolo(comando);
    let nl = crate::esterni::in_minuscolo(nome);
    if testo::contiene_testo(cl.as_str(), nl.as_str()) {
        return true;
    }
    let parole_cmd = testo::dividi_pezzi(cl.as_str(), testo::Separatore::NonAlfanumerico);
    let pezzi_nome = testo::dividi_pezzi(nl.as_str(), testo::Separatore::Nome);
    let ghost pn = pezzi_nome.deep_view();
    let ghost pc = parole_cmd.deep_view();
    let mut i: usize = 0;
    while i < pezzi_nome.len()
        invariant
            i <= pn.len(),
            pn == pezzi_nome.deep_view(),
            pc == parole_cmd.deep_view(),
            pn == testo::pezzi(nl@, testo::Separatore::Nome),
            pc == testo::pezzi(cl@, testo::Separatore::NonAlfanumerico),
            cl@ == crate::esterni::minuscolo(comando@),
            nl@ == crate::esterni::minuscolo(nome@),
            !testo::contiene(cl@, nl@),
            forall|k: int, j: int|
                0 <= k < i && 0 <= j < pc.len() ==> !(parola_significativa(
                    rifilato(pn[k]),
                    stopword.deep_view(),
                ) && pc[j].len() > 0 && pc[j] == rifilato(pn[k])),
        decreases pn.len() - i,
    {
        assert(pn[i as int] == pezzi_nome@[i as int]@);
        let t = rifila(pezzi_nome[i].as_str());
        let lunga = testo::almeno_tre_byte(t.as_str());
        let fermata = in_elenco(stopword, t.as_str());
        let non_vuota = t.unicode_len() > 0;
        let presente = in_elenco(&parole_cmd, t.as_str());
        if lunga && !fermata && non_vuota && presente {
            let ghost j = choose|j: int| 0 <= j < pc.len() && pc[j] == t@;
            assert(pc[j] == rifilato(pn[i as int]));
            return true;
        }
        proof {
            assert forall|j: int| 0 <= j < pc.len() implies !(parola_significativa(
                rifilato(pn[i as int]),
                stopword.deep_view(),
            ) && pc[j].len() > 0 && pc[j] == rifilato(pn[i as int])) by {
                if parola_significativa(rifilato(pn[i as int]), stopword.deep_view()) && pc[j].len()
                    > 0 && pc[j] == rifilato(pn[i as int]) {
                    assert(pc.contains(t@));
                }
            }
        }
        i = i + 1;
    }
    false
}

} // verus!
