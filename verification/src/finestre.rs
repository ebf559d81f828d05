use vstd::prelude::*;
use crate::testo;
use crate::esterni::{in_minuscolo, minuscolo};

verus! {

// ─── Browser windows ─────────────────────────────────────────────────────────

/// The browser flag that opens a new window: Firefox spells it `-new-window`,
/// the Chromium family `--new-window`.
pub open spec fn flag_finestra(browser: Seq<char>) -> Seq<char> {
    if testo::contiene(minuscolo(browser), "firefox"@) {
        "-new-window"@
    } else {
        "--new-window"@
    }
}

/// The flag for opening `url` in a dedicated window of `browser` (a flag
/// valid for this launch only; nothing in the browser settings changes).
pub fn flag_nuova_finestra(browser: &str) -> (r: String)
    ensures
        r@ == flag_finestra(browser@),
{
    let b = in_minuscolo(browser);
    if testo::contiene_testo(b.as_str(), "firefox") {
        String::from_str("-new-window")
    } else {
        String::from_str("--new-window")
    }
}

/// The first window of `dopo` that is not in `prima`.
pub open spec fn nuova_da(prima: Seq<Seq<char>>, dopo: Seq<Seq<char>>, k: int) -> Option<Seq<char>>
    decreases dopo.len() - k,
{
    if k < 0 || k >= dopo.len() {
        None
    } else if !prima.contains(dopo[k]) {
        Some(dopo[k])
    } else {
        nuova_da(prima, dopo, k + 1)
    }
}

/// The window that appeared between two listings: the first id of `dopo`
/// that `prima` does not hold.
pub fn nuova_finestra(prima: &Vec<String>, dopo: &Vec<String>) -> (r: Option<String>)
    ensures
        r matches Some(id) ==> nuova_da(prima.deep_view(), dopo.deep_view(), 0) == Some(id@),
        r is None ==> nuova_da(prima.deep_view(), dopo.deep_view(), 0) is None,
{
    let mut k: usize = 0;
    while k < dopo.len()
        invariant
            k <= dopo@.len(),
            nuova_da(prima.deep_view(), dopo.deep_view(), 0) == nuova_da(
                prima.deep_view(),
                dopo.deep_view(),
                k as int,
            ),
        decreases dopo@.len() - k,
    {
        assert(dopo.deep_view()[k as int] == dopo@[k as int]@);
        if !crate::comandi::in_elenco(prima, dopo[k].as_str()) {
            return Some(dopo[k].clone());
        }
        k = k + 1;
    }
    None
}

/// The non-empty elements of `s`.
pub open spec fn non_vuote(s: Seq<Seq<char>>) -> Seq<Seq<char>>
    decreases s.len(),
{
    if s.len() == 0 {
        seq![]
    } else if s.last().len() > 0 {
        non_vuote(s.drop_last()).push(s.last())
    } else {
        non_vuote(s.drop_last())
    }
}

/// The window ids that `kdotool search` printed: its lines, trimmed, blank
/// ones left out.
pub open spec fn elenco_id(output: Seq<char>) -> Seq<Seq<char>> {
    non_vuote(testo::righe(output).map_values(|l: Seq<char>| testo::rifilato(l)))
}

/// Reads the window ids printed by `kdotool search`.
pub fn leggi_elenco_finestre(output: &str) -> (r: Vec<String>)
    ensures
        r.deep_view() == elenco_id(output@),
{
    let righe = testo::dividi_righe(output);
    let ghost rv = righe.deep_view().map_values(|l: Seq<char>| testo::rifilato(l));
    let mut out: Vec<String> = Vec::new();
    let mut i: usize = 0;
    while i < righe.len()
        invariant
            i <= righe@.len(),
            rv == righe.deep_view().map_values(|l: Seq<char>| testo::rifilato(l)),
            out.deep_view() == non_vuote(rv.take(i as int)),
        decreases righe@.len() - i,
    {
        assert(rv.take(i + 1).drop_last() =~= rv.take(i as int));
        assert(rv.take(i + 1).last() == testo::rifilato(righe@[i as int]@));
        let t = testo::rifila(righe[i].as_str());
        if t.unicode_len() > 0 {
            let ghost prima = out.deep_view();
            out.push(t);
            assert(out.deep_view() =~= prima.push(rv[i as int]));
        }
        i = i + 1;
    }
    assert(rv.take(righe@.len() as int) =~= rv);
    out
}

/// The window ids that `kdotool search --name` printed, as the title-based
/// closing reads them: nothing when the trimmed output is empty, else its
/// lines.
pub open spec fn id_da_chiudere(output: Seq<char>) -> Seq<Seq<char>> {
    let t = testo::rifilato(output);
    if t.len() == 0 {
        seq![]
    } else {
        testo::righe(t)
    }
}

/// Reads the window ids to close from the output of `kdotool search --name`.
pub fn leggi_id_da_chiudere(output: &str) -> (r: Vec<String>)
    ensures
        r.deep_view() == id_da_chiudere(output@),
{
    let t = testo::rifila(output);
    if t.unicode_len() == 0 {
        let r: Vec<String> = Vec::new();
        assert(r.deep_view() =~= Seq::<Seq<char>>::empty());
        return r;
    }
    testo::dividi_righe(t.as_str())
}

/// The text that every window-closing backend looks for, case-insensitively,
/// in window titles: the lower-cased title of the bookmark.
pub fn chiudi_finestra_titolo(titolo: &str) -> (r: String)
    ensures
        r@ == minuscolo(titolo@),
{
    in_minuscolo(titolo)
}

/// The AppleScript that clicks the close button of every window whose title
/// contains `titolo` (double quotes taken out of the title).
pub open spec fn script_macos(titolo: Seq<char>) -> Seq<char> {
    "tell application \"System Events\"\n        set trovata to false\n        repeat with proc in (every application process whose background only is false)\n    try\n    repeat with w in (windows of proc)\n    if (name of w as string) contains \""@ + testo::sostituito(titolo, "\""@, ""@) + "\" then\n        try\n        click (first button of w whose subrole is \"AXCloseButton\")\n    set trovata to true\n    end try\n    end if\n    end repeat\n    end try\n    end repeat\n    return trovata\n    end tell"@
}

/// Builds the macOS window-closing script for `titolo`.
pub fn script_chiusura_macos(titolo: &str) -> (r: String)
    ensures
        r@ == script_macos(titolo@),
{
    let mut r = String::from_str(
        "tell application \"System Events\"\n        set trovata to false\n        repeat with proc in (every application process whose background only is false)\n    try\n    repeat with w in (windows of proc)\n    if (name of w as string) contains \"",
    );
    let t = testo::sostituisci(titolo, "\"", "");
    r.append(t.as_str());
    r.append(
        "\" then\n        try\n        click (first button of w whose subrole is \"AXCloseButton\")\n    set trovata to true\n    end try\n    end if\n    end repeat\n    end try\n    end repeat\n    return trovata\n    end tell",
    );
    r
}

/// Whether a process is one to terminate by `nome`: its name or one of its
/// command-line arguments contains `nome`, all compared lower-cased.
pub open spec fn da_terminare(nome: Seq<char>, processo: Seq<char>, argomenti: Seq<Seq<char>>) -> bool {
    let n = minuscolo(nome);
    testo::contiene(minuscolo(processo), n) || exists|i: int|
        0 <= i < argomenti.len() && testo::contiene(minuscolo(argomenti[i]), n)
}

/// Decides whether the process `processo`, run with `argomenti`, matches `nome`.
pub fn processo_da_terminare(nome: &str, processo: &str, argomenti: &Vec<String>) -> (r: bool)
    ensures
        r == da_terminare(nome@, processo@, argomenti.deep_view()),
{
    let n = in_minuscolo(nome);
    let p = in_minuscolo(processo);
    if testo::contiene_testo(p.as_str(), n.as_str()) {
        return true;
    }
    let mut i: usize = 0;
    while i < argomenti.len()
        invariant
            i <= argomenti@.len(),
            n@ == minuscolo(nome@),
            forall|j: int|
                0 <= j < i ==> !testo::contiene(minuscolo(argomenti.deep_view()[j]), n@),
        decreases argomenti@.len() - i,
    {
        assert(argomenti.deep_view()[i as int] == argomenti@[i as int]@);
        let a = in_minuscolo(argomenti[i].as_str());
        if testo::contiene_testo(a.as_str(), n.as_str()) {
            return true;
        }
        i = i + 1;
    }
    false
}

} // verus!
