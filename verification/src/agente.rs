use vstd::prelude::*;
use crate::testo;
use crate::testo::{parole, rifilato, unito};
use crate::intento::{leggi_voce_lista, voce_lista};

verus! {

// ─── Programs offered to the AI agent ────────────────────────────────────────

/// The first word of the command of a program, or nothing.
pub open spec fn eseguibile_nudo(comando: Seq<char>) -> Seq<char> {
    if parole(comando).len() > 0 {
        parole(comando)[0]
    } else {
        seq![]
    }
}

/// A line `Nome=eseguibile args` of the programs list, as `(Nome, eseguibile)`
/// when the executable is a bare name (not empty, no `/`): only those can be
/// started by the agent's `open_program`.
pub open spec fn programma(riga: Seq<char>) -> Option<(Seq<char>, Seq<char>)> {
    match voce_lista(riga) {
        Some((nome, comando)) => {
            let bin = eseguibile_nudo(comando);
            if bin.len() == 0 || testo::contiene(bin, seq!['/']) {
                None
            } else {
                Some((nome, bin))
            }
        },
        None => None,
    }
}

pub open spec fn eseguibili(v: Seq<(Seq<char>, Seq<char>)>) -> Seq<Seq<char>> {
    v.map_values(|e: (Seq<char>, Seq<char>)| e.1)
}

/// The programs of the list, one per executable (the first line wins), until
/// `max` of them are collected.
pub open spec fn voci_programmi(righe: Seq<Seq<char>>, max: nat) -> Seq<(Seq<char>, Seq<char>)>
    decreases righe.len(),
{
    if righe.len() == 0 {
        seq![]
    } else {
        let prec = voci_programmi(righe.drop_last(), max);
        if prec.len() >= max {
            prec
        } else {
            match programma(righe.last()) {
                Some((n, b)) => if eseguibili(prec).contains(b) {
                    prec
                } else {
                    prec.push((n, b))
                },
                None => prec,
            }
        }
    }
}

pub open spec fn voce_testo(e: (Seq<char>, Seq<char>)) -> Seq<char> {
    e.0 + " ("@ + e.1 + ")"@
}

/// The text given to the agent: "Nome (eseguibile)" entries joined by ", ".
pub open spec fn elenco_programmi(righe: Seq<Seq<char>>, max: nat) -> Seq<char> {
    unito(voci_programmi(righe, max).map_values(|e: (Seq<char>, Seq<char>)| voce_testo(e)), ", "@)
}

pub open spec fn coppie(v: Seq<(String, String)>) -> Seq<(Seq<char>, Seq<char>)> {
    v.map_values(|e: (String, String)| (e.0@, e.1@))
}

proof fn lemma_saturo(righe: Seq<Seq<char>>, max: nat, i: int, j: int)
    requires
        0 <= i <= j <= righe.len(),
        voci_programmi(righe.take(i), max).len() >= max,
    ensures
        voci_programmi(righe.take(j), max) == voci_programmi(righe.take(i), max),
    decreases j - i,
{
    if j > i {
        lemma_saturo(righe, max, i, j - 1);
        assert(righe.take(j).drop_last() =~= righe.take(j - 1));
    }
}

/// Reads a line of the programs list.
pub fn leggi_programma(riga: &str) -> (r: Option<(String, String)>)
    ensures
        r matches Some((a, b)) ==> programma(riga@) == Some((a@, b@)),
        r is None ==> programma(riga@) is None,
{
    match leggi_voce_lista(riga) {
        Some((nome, comando)) => {
            let ws = testo::dividi_parole(comando.as_str());
            if ws.len() == 0 {
                return None;
            }
            assert(ws.deep_view()[0] == ws@[0]@);
            let bin = ws[0].clone();
            let bv = testo::caratteri(bin.as_str());
            let mut barra: Vec<char> = Vec::new();
            barra.push('/');
            assert(barra@ =~= seq!['/']);
            if bv.len() == 0 || testo::contiene_in(&bv, &barra) {
                None
            } else {
                Some((nome, bin))
            }
        },
        None => None,
    }
}

/// Whether `bin` is the executable of one of `voci`.
fn gia_visto(voci: &Vec<(String, String)>, bin: &str) -> (r: bool)
    ensures
        r == eseguibili(coppie(voci@)).contains(bin@),
{
    let mut j: usize = 0;
    while j < voci.len()
        invariant
            j <= voci@.len(),
            forall|k: int| 0 <= k < j ==> eseguibili(coppie(voci@))[k] != bin@,
        decreases voci@.len() - j,
    {
        if testo::uguali_testo(voci[j].1.as_str(), bin) {
            assert(eseguibili(coppie(voci@))[j as int] == bin@);
            return true;
        }
        j = j + 1;
    }
    false
}

/// The programs of the list that the agent may start, at most `max`, one per
/// executable.
pub fn voci_per_ai(righe: &Vec<String>, max: usize) -> (r: Vec<(String, String)>)
    ensures
        coppie(r@) == voci_programmi(righe.deep_view(), max as nat),
{
    let ghost rv = righe.deep_view();
    let mut out: Vec<(String, String)> = Vec::new();
    let mut i: usize = 0;
    assert(coppie(out@) =~= voci_programmi(rv.take(0), max as nat));
    while i < righe.len() && out.len() < max
        invariant
            i <= righe@.len(),
            rv == righe.deep_view(),
            coppie(out@) == voci_programmi(rv.take(i as int), max as nat),
        decreases righe@.len() - i,
    {
        assert(rv.take(i + 1).drop_last() =~= rv.take(i as int));
        assert(rv.take(i + 1).last() == righe@[i as int]@);
        match leggi_programma(righe[i].as_str()) {
            Some((nome, bin)) => {
                if !gia_visto(&out, bin.as_str()) {
                    let ghost prima = coppie(out@);
                    out.push((nome, bin));
                    assert(coppie(out@) =~= prima.push((nome@, bin@)));
                }
            },
            None => {},
        }
        i = i + 1;
    }
    proof {
        if i < righe@.len() {
            lemma_saturo(rv, max as nat, i as int, rv.len() as int);
        }
        assert(rv.take(rv.len() as int) =~= rv);
    }
    out
}

/// The programs list as the agent's prompt shows it: "Nome (eseguibile)"
/// entries joined by ", ".
pub fn lista_programmi_per_ai(righe: &Vec<String>, max: usize) -> (r: String)
    ensures
        r@ == elenco_programmi(righe.deep_view(), max as nat),
{
    let voci = voci_per_ai(righe, max);
    let mut testi: Vec<String> = Vec::new();
    let mut i: usize = 0;
    while i < voci.len()
        invariant
            i <= voci@.len(),
            testi@.len() == i,
            forall|k: int| 0 <= k < i ==> #[trigger] testi@[k]@ == voce_testo(coppie(voci@)[k]),
        decreases voci@.len() - i,
    {
        let mut t = voci[i].0.clone();
        t.append(" (");
        t.append(voci[i].1.as_str());
        t.append(")");
        testi.push(t);
        i = i + 1;
    }
    assert(testi.deep_view() =~= voci_programmi(righe.deep_view(), max as nat).map_values(
        |e: (Seq<char>, Seq<char>)| voce_testo(e),
    ));
    testo::unisci(&testi, ", ")
}

} // verus!

verus! {

// ─── The AI agent's actions ──────────────────────────────────────────────────

/// One action of the plan the AI agent returns (a JSON object): each field
/// is `Some` when the object holds it with the right type (`ms` when it is a
/// non-negative integer); `keys` holds each array element that is a string.
pub struct AzioneAi {
    pub action: Option<String>,
    pub program: Option<String>,
    pub url: Option<String>,
    pub text: Option<String>,
    pub key: Option<String>,
    pub keys: Option<Vec<Option<String>>>,
    pub ms: Option<u64>,
}

/// What an action of the plan comes down to.
pub enum ComandoAi {
    /// The action is unknown or not acceptable: the plan fails here.
    Nessuno,
    /// Start the program (a bare executable name).
    Avvia(String),
    /// Open the http(s) URL in the browser.
    ApriUrl(String),
    /// Type the text (`wtype <text>`).
    Digita(String),
    /// Press the key (`wtype -k <key>`).
    Tasto(String),
    /// Press a key combination: the `wtype` arguments.
    Combinazione(Vec<String>),
    /// Wait this many milliseconds.
    Attendi(u64),
}

pub enum ComandoAiSpec {
    Nessuno,
    Avvia(Seq<char>),
    ApriUrl(Seq<char>),
    Digita(Seq<char>),
    Tasto(Seq<char>),
    Combinazione(Seq<Seq<char>>),
    Attendi(u64),
}

impl View for ComandoAi {
    type V = ComandoAiSpec;

    open spec fn view(&self) -> ComandoAiSpec {
        match self {
            ComandoAi::Nessuno => ComandoAiSpec::Nessuno,
            ComandoAi::Avvia(s) => ComandoAiSpec::Avvia(s@),
            ComandoAi::ApriUrl(s) => ComandoAiSpec::ApriUrl(s@),
            ComandoAi::Digita(s) => ComandoAiSpec::Digita(s@),
            ComandoAi::Tasto(s) => ComandoAiSpec::Tasto(s@),
            ComandoAi::Combinazione(v) => ComandoAiSpec::Combinazione(v.deep_view()),
            ComandoAi::Attendi(ms) => ComandoAiSpec::Attendi(*ms),
        }
    }
}

/// A string field, the empty string when missing.
pub open spec fn o_vuoto(o: Option<String>) -> Seq<char> {
    match o {
        Some(s) => s@,
        None => seq![],
    }
}

fn testo_o_vuoto(o: &Option<String>) -> (r: String)
    ensures
        r@ == o_vuoto(*o),
{
    match o {
        Some(s) => s.clone(),
        None => String::new(),
    }
}

/// The modifier a key name stands for (compared upper-cased).
pub open spec fn modificatore(key: Seq<char>) -> Option<Seq<char>> {
    let u = crate::esterni::maiuscolo(key);
    if u == "CTRL"@ || u == "CONTROL"@ {
        Some("ctrl"@)
    } else if u == "ALT"@ {
        Some("alt"@)
    } else if u == "SHIFT"@ {
        Some("shift"@)
    } else if u == "SUPER"@ || u == "META"@ || u == "WIN"@ || u == "LOGO"@ {
        Some("logo"@)
    } else {
        None
    }
}

/// The modifiers and the one other key of a combination, in order; `None`
/// when a second non-modifier key appears.
pub open spec fn tasti(keys: Seq<Seq<char>>) -> Option<(Seq<Seq<char>>, Option<Seq<char>>)>
    decreases keys.len(),
{
    if keys.len() == 0 {
        Some((seq![], None))
    } else {
        match tasti(keys.drop_last()) {
            None => None,
            Some((mods, normale)) => match modificatore(keys.last()) {
                Some(m) => Some((mods.push(m), normale)),
                None => if normale is Some {
                    None
                } else {
                    Some((mods, Some(keys.last())))
                },
            },
        }
    }
}

/// `-M <mod>` for each modifier, in order.
pub open spec fn premi(mods: Seq<Seq<char>>) -> Seq<Seq<char>>
    decreases mods.len(),
{
    if mods.len() == 0 {
        seq![]
    } else {
        premi(mods.drop_last()) + seq!["-M"@, mods.last()]
    }
}

/// `-m <mod>` for each modifier, in reverse order.
pub open spec fn rilascia(mods: Seq<Seq<char>>) -> Seq<Seq<char>>
    decreases mods.len(),
{
    if mods.len() == 0 {
        seq![]
    } else {
        seq!["-m"@, mods.last()] + rilascia(mods.drop_last())
    }
}

/// A key combination: the modifiers are pressed, the key is pressed, the
/// modifiers are released in reverse order. There must be exactly one
/// non-empty non-modifier key.
pub open spec fn combinazione(keys: Seq<Seq<char>>) -> ComandoAiSpec {
    match tasti(keys) {
        Some((mods, Some(k))) => if k.len() > 0 {
            ComandoAiSpec::Combinazione(premi(mods) + seq!["-k"@, k] + rilascia(mods))
        } else {
            ComandoAiSpec::Nessuno
        },
        _ => ComandoAiSpec::Nessuno,
    }
}

pub open spec fn chiavi(ks: Seq<Option<String>>) -> Seq<Seq<char>> {
    ks.map_values(|e: Option<String>| rifilato(o_vuoto(e)))
}

/// What an action comes down to. A program must be a bare executable name
/// (no `/`, no space); a URL must be http or https; a key must not be empty;
/// a wait lasts at most ten seconds.
pub open spec fn pianificato(a: AzioneAi) -> ComandoAiSpec {
    let tipo = o_vuoto(a.action);
    if tipo == "open_program"@ {
        let p = rifilato(o_vuoto(a.program));
        if p.len() == 0 || testo::contiene(p, "/"@) || testo::contiene(p, " "@) {
            ComandoAiSpec::Nessuno
        } else {
            ComandoAiSpec::Avvia(p)
        }
    } else if tipo == "open_url"@ {
        let u = rifilato(o_vuoto(a.url));
        if testo::occorre_a(u, "https://"@, 0) || testo::occorre_a(u, "http://"@, 0) {
            ComandoAiSpec::ApriUrl(u)
        } else {
            ComandoAiSpec::Nessuno
        }
    } else if tipo == "type_text"@ {
        ComandoAiSpec::Digita(o_vuoto(a.text))
    } else if tipo == "key"@ {
        let k = rifilato(o_vuoto(a.key));
        if k.len() == 0 {
            ComandoAiSpec::Nessuno
        } else {
            ComandoAiSpec::Tasto(k)
        }
    } else if tipo == "hotkey"@ {
        match a.keys {
            Some(ks) => if ks@.len() > 0 {
                combinazione(chiavi(ks@))
            } else {
                ComandoAiSpec::Nessuno
            },
            None => ComandoAiSpec::Nessuno,
        }
    } else if tipo == "wait"@ {
        let ms: u64 = match a.ms {
            Some(x) => x,
            None => 0,
        };
        ComandoAiSpec::Attendi(if ms < 10000 { ms } else { 10000 })
    } else {
        ComandoAiSpec::Nessuno
    }
}

fn modificatore_di(key: &str) -> (r: Option<String>)
    ensures
        testo_opz_s(r) == modificatore(key@),
{
    let u = crate::esterni::in_maiuscolo(key);
    let u = u.as_str();
    if testo::uguali_testo(u, "CTRL") || testo::uguali_testo(u, "CONTROL") {
        Some(String::from_str("ctrl"))
    } else if testo::uguali_testo(u, "ALT") {
        Some(String::from_str("alt"))
    } else if testo::uguali_testo(u, "SHIFT") {
        Some(String::from_str("shift"))
    } else if testo::uguali_testo(u, "SUPER") || testo::uguali_testo(u, "META")
        || testo::uguali_testo(u, "WIN") || testo::uguali_testo(u, "LOGO") {
        Some(String::from_str("logo"))
    } else {
        None
    }
}

pub open spec fn testo_opz_s(o: Option<String>) -> Option<Seq<char>> {
    match o {
        Some(t) => Some(t@),
        None => None,
    }
}

fn combinazione_di(ks: &Vec<Option<String>>) -> (r: ComandoAi)
    ensures
        r@ == combinazione(chiavi(ks@)),
{
    let ghost cv = chiavi(ks@);
    let mut mods: Vec<String> = Vec::new();
    let mut normale: Option<String> = None;
    let mut i: usize = 0;
    while i < ks.len()
        invariant
            i <= ks@.len(),
            cv == chiavi(ks@),
            tasti(cv.take(i as int)) == Some((mods.deep_view(), testo_opz_s(normale))),
        decreases ks@.len() - i,
    {
        assert(cv.take(i + 1).drop_last() =~= cv.take(i as int));
        assert(cv.take(i + 1).last() == rifilato(o_vuoto(ks@[i as int])));
        let grezzo = testo_o_vuoto(&ks[i]);
        let key = testo::rifila(grezzo.as_str());
        match modificatore_di(key.as_str()) {
            Some(m) => {
                let ghost prima = mods.deep_view();
                mods.push(m);
                assert(mods.deep_view() =~= prima.push(modificatore(key@)->0));
            },
            None => {
                if normale.is_some() {
                    assert(tasti(cv.take(i + 1)) is None);
                    proof {
                        lemma_tasti_falliti(cv, i + 1, cv.len() as int);
                    }
                    assert(cv.take(cv.len() as int) =~= cv);
                    return ComandoAi::Nessuno;
                }
                normale = Some(key);
            },
        }
        i = i + 1;
    }
    assert(cv.take(ks@.len() as int) =~= cv);
    match normale {
        Some(k) => {
            if k.unicode_len() == 0 {
                return ComandoAi::Nessuno;
            }
            let mut args: Vec<String> = Vec::new();
            let mut j: usize = 0;
            while j < mods.len()
                invariant
                    j <= mods@.len(),
                    args.deep_view() == premi(mods.deep_view().take(j as int)),
                decreases mods@.len() - j,
            {
                let ghost prima = args.deep_view();
                assert(mods.deep_view().take(j + 1).drop_last() =~= mods.deep_view().take(j as int));
                assert(mods.deep_view().take(j + 1).last() == mods@[j as int]@);
                args.push(String::from_str("-M"));
                args.push(mods[j].clone());
                assert(args.deep_view() =~= prima + seq!["-M"@, mods@[j as int]@]);
                j = j + 1;
            }
            assert(mods.deep_view().take(mods@.len() as int) =~= mods.deep_view());
            let ghost prima = args.deep_view();
            args.push(String::from_str("-k"));
            args.push(k.clone());
            assert(args.deep_view() =~= prima + seq!["-k"@, k@]);
            let ghost meta = args.deep_view();
            let mut j: usize = mods.len();
            assert(args.deep_view() =~= meta + rilascia_da(mods.deep_view(), j as int));
            while j > 0
                invariant
                    j <= mods@.len(),
                    args.deep_view() == meta + rilascia_da(mods.deep_view(), j as int),
                decreases j,
            {
                let ghost prima = args.deep_view();
                args.push(String::from_str("-m"));
                args.push(mods[j - 1].clone());
                assert(args.deep_view() =~= prima + seq!["-m"@, mods@[j - 1]@]);
                assert(mods.deep_view()[j - 1] == mods@[j - 1]@);
                assert(args.deep_view() =~= meta + rilascia_da(mods.deep_view(), j - 1));
                j = j - 1;
            }
            proof {
                lemma_rilascia(mods.deep_view());
            }
            assert(args.deep_view() =~= premi(mods.deep_view()) + seq!["-k"@, k@] + rilascia(
                mods.deep_view(),
            ));
            ComandoAi::Combinazione(args)
        },
        None => ComandoAi::Nessuno,
    }
}

/// `-m <mod>` for the modifiers after position `j`, from the last one down.
pub open spec fn rilascia_da(mods: Seq<Seq<char>>, j: int) -> Seq<Seq<char>>
    decreases mods.len() - j,
{
    if j < 0 || j >= mods.len() {
        seq![]
    } else {
        rilascia_da(mods, j + 1) + seq!["-m"@, mods[j]]
    }
}

proof fn lemma_rilascia(mods: Seq<Seq<char>>)
    ensures
        rilascia_da(mods, 0) == rilascia(mods),
    decreases mods.len(),
{
    if mods.len() > 0 {
        lemma_rilascia(mods.drop_last());
        lemma_rilascia_da(mods, 0);
    }
}

proof fn lemma_rilascia_da(mods: Seq<Seq<char>>, j: int)
    requires
        0 <= j < mods.len(),
    ensures
        rilascia_da(mods, j) == seq!["-m"@, mods.last()] + rilascia_da(mods.drop_last(), j),
    decreases mods.len() - j,
{
    if j + 1 < mods.len() {
        lemma_rilascia_da(mods, j + 1);
        assert(mods.drop_last()[j] == mods[j]);
        assert(rilascia_da(mods, j) =~= seq!["-m"@, mods.last()] + rilascia_da(mods.drop_last(), j));
    } else {
        assert(rilascia_da(mods.drop_last(), j) =~= Seq::<Seq<char>>::empty());
        assert(rilascia_da(mods, j + 1) =~= Seq::<Seq<char>>::empty());
        assert(rilascia_da(mods, j) =~= seq!["-m"@, mods.last()] + rilascia_da(mods.drop_last(), j));
    }
}

proof fn lemma_tasti_falliti(keys: Seq<Seq<char>>, i: int, j: int)
    requires
        0 <= i <= j <= keys.len(),
        tasti(keys.take(i)) is None,
    ensures
        tasti(keys.take(j)) is None,
    decreases j - i,
{
    if j > i {
        lemma_tasti_falliti(keys, i, j - 1);
        assert(keys.take(j).drop_last() =~= keys.take(j - 1));
    }
}

} // verus!

verus! {

/// What an action of the AI agent's plan comes down to (see `pianificato`).
pub fn pianifica_azione(a: &AzioneAi) -> (r: ComandoAi)
    ensures
        r@ == pianificato(*a),
{
    let tipo = testo_o_vuoto(&a.action);
    let tipo = tipo.as_str();
    if testo::uguali_testo(tipo, "open_program") {
        let p = testo_o_vuoto(&a.program);
        let p = testo::rifila(p.as_str());
        if p.unicode_len() == 0 || testo::contiene_testo(p.as_str(), "/") || testo::contiene_testo(
            p.as_str(),
            " ",
        ) {
            ComandoAi::Nessuno
        } else {
            ComandoAi::Avvia(p)
        }
    } else if testo::uguali_testo(tipo, "open_url") {
        let u = testo_o_vuoto(&a.url);
        let u = testo::rifila(u.as_str());
        let uv = testo::caratteri(u.as_str());
        let https = testo::caratteri("https://");
        let http = testo::caratteri("http://");
        if testo::coincide_a(&uv, &https, 0) || testo::coincide_a(&uv, &http, 0) {
            ComandoAi::ApriUrl(u)
        } else {
            ComandoAi::Nessuno
        }
    } else if testo::uguali_testo(tipo, "type_text") {
        ComandoAi::Digita(testo_o_vuoto(&a.text))
    } else if testo::uguali_testo(tipo, "key") {
        let k = testo_o_vuoto(&a.key);
        let k = testo::rifila(k.as_str());
        if k.unicode_len() == 0 {
            ComandoAi::Nessuno
        } else {
            ComandoAi::Tasto(k)
        }
    } else if testo::uguali_testo(tipo, "hotkey") {
        match &a.keys {
            Some(ks) => if ks.len() > 0 {
                combinazione_di(ks)
            } else {
                ComandoAi::Nessuno
            },
            None => ComandoAi::Nessuno,
        }
    } else if testo::uguali_testo(tipo, "wait") {
        let ms: u64 = match a.ms {
            Some(x) => x,
            None => 0,
        };
        ComandoAi::Attendi(if ms < 10000 { ms } else { 10000 })
    } else {
        ComandoAi::Nessuno
    }
}

/// The commands of a plan, action by action; no command when the plan has
/// no `actions` array. The caller runs them in order and stops at the first
/// that fails (`Nessuno` fails without running).
pub fn pianifica_piano(azioni: &Option<Vec<AzioneAi>>) -> (r: Vec<ComandoAi>)
    ensures
        match azioni {
            Some(v) => r@.len() == v@.len() && forall|i: int|
                0 <= i < v@.len() ==> #[trigger] r@[i]@ == pianificato(v@[i]),
            None => r@.len() == 0,
        },
{
    let mut r: Vec<ComandoAi> = Vec::new();
    match azioni {
        Some(v) => {
            let mut i: usize = 0;
            while i < v.len()
                invariant
                    i <= v@.len(),
                    r@.len() == i,
                    forall|k: int| 0 <= k < i ==> #[trigger] r@[k]@ == pianificato(v@[k]),
                decreases v@.len() - i,
            {
                r.push(pianifica_azione(&v[i]));
                i = i + 1;
            }
        },
        None => {},
    }
    r
}

/// One step of running a plan: after an action that succeeded the count of
/// actions run goes on; after one that failed (or was not valid) the plan
/// stops, which the caller reports as an error.
pub fn dopo_azione(eseguite: usize, riuscita: bool) -> (r: Option<usize>)
    requires
        eseguite < usize::MAX,
    ensures
        r == if riuscita {
            Some((eseguite + 1) as usize)
        } else {
            None
        },
{
    if riuscita {
        Some(eseguite + 1)
    } else {
        None
    }
}

} // verus!
