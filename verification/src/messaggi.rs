use vstd::prelude::*;
use crate::testo::uguali_testo;

verus! {

/// A value of the messages file, as far as the assistant reads it.
pub enum Voce {
    /// A JSON string.
    Testo(String),
    /// A JSON array; each element is `Some` when it is a string.
    Lista(Vec<Option<String>>),
    /// Any other JSON value.
    Altro,
}

/// The messages file: two lists of phrases and four objects whose entries
/// are kept in file order.
pub struct Messages {
    pub welcome_messages: Vec<String>,
    pub goodbye_messages: Vec<String>,
    pub error_messages: Vec<(String, Voce)>,
    pub other_messages: Vec<(String, Voce)>,
    pub commands: Vec<(String, Voce)>,
    pub objects: Vec<(String, Voce)>,
}

/// The four objects of the messages file.
#[derive(Clone, Copy, PartialEq, Eq, Debug)]
pub enum Sezione {
    Errori,
    Altri,
    Comandi,
    Oggetti,
}

pub open spec fn sezione(m: &Messages, s: Sezione) -> Seq<(String, Voce)> {
    match s {
        Sezione::Errori => m.error_messages@,
        Sezione::Altri => m.other_messages@,
        Sezione::Comandi => m.commands@,
        Sezione::Oggetti => m.objects@,
    }
}

pub fn sezione_di(m: &Messages, s: Sezione) -> (r: &Vec<(String, Voce)>)
    ensures
        r@ == sezione(m, s),
{
    match s {
        Sezione::Errori => &m.error_messages,
        Sezione::Altri => &m.other_messages,
        Sezione::Comandi => &m.commands,
        Sezione::Oggetti => &m.objects,
    }
}

/// Position of the first entry of `voci` from `k` on whose key is `chiave`.
pub open spec fn posizione_da(voci: Seq<(String, Voce)>, chiave: Seq<char>, k: int) -> Option<int>
    decreases voci.len() - k,
{
    if k < 0 || k >= voci.len() {
        None
    } else if voci[k].0@ == chiave {
        Some(k)
    } else {
        posizione_da(voci, chiave, k + 1)
    }
}

/// Position of the entry of `voci` under the key `chiave` (the first, should a
/// key appear twice).
pub open spec fn posizione(voci: Seq<(String, Voce)>, chiave: Seq<char>) -> Option<int> {
    posizione_da(voci, chiave, 0)
}

/// Where the entry under `chiave` stands in `voci`.
pub fn cerca_voce(voci: &Vec<(String, Voce)>, chiave: &str) -> (r: Option<usize>)
    ensures
        r matches Some(i) ==> posizione(voci@, chiave@) == Some(i as int) && i < voci@.len(),
        r is None ==> posizione(voci@, chiave@) is None,
{
    let mut k: usize = 0;
    while k < voci.len()
        invariant
            k <= voci@.len(),
            posizione(voci@, chiave@) == posizione_da(voci@, chiave@, k as int),
        decreases voci@.len() - k,
    {
        if uguali_testo(voci[k].0.as_str(), chiave) {
            return Some(k);
        }
        k = k + 1;
    }
    None
}

/// The strings among the elements of a JSON array.
pub open spec fn solo_testi(l: Seq<Option<String>>) -> Seq<Seq<char>>
    decreases l.len(),
{
    if l.len() == 0 {
        seq![]
    } else {
        match l.last() {
            Some(t) => solo_testi(l.drop_last()).push(t@),
            None => solo_testi(l.drop_last()),
        }
    }
}

/// The keywords under `chiave` in the object `s`, lower-cased; no keyword
/// when the entry is missing or not an array.
pub open spec fn parole_chiave(m: &Messages, s: Sezione, chiave: Seq<char>) -> Seq<Seq<char>> {
    match posizione(sezione(m, s), chiave) {
        Some(i) => match sezione(m, s)[i].1 {
            Voce::Lista(l) => solo_testi(l@).map_values(|t: Seq<char>| crate::esterni::minuscolo(t)),
            _ => seq![],
        },
        None => seq![],
    }
}

/// The keywords of a `commands`/`objects` entry, lower-cased.
#[verifier::loop_isolation(false)]
pub fn kw(messages: &Messages, section: Sezione, key: &str) -> (r: Vec<String>)
    ensures
        r.deep_view() == parole_chiave(messages, section, key@),
{
    let voci = sezione_di(messages, section);
    let mut out: Vec<String> = Vec::new();
    match cerca_voce(voci, key) {
        Some(i) => {
            match &voci[i].1 {
                Voce::Lista(l) => {
                    let ghost f = |t: Seq<char>| crate::esterni::minuscolo(t);
                    let mut j: usize = 0;
                    while j < l.len()
                        invariant
                            j <= l@.len(),
                            out.deep_view() == solo_testi(l@.take(j as int)).map_values(f),
                        decreases l@.len() - j,
                    {
                        assert(l@.take(j + 1).drop_last() =~= l@.take(j as int));
                        assert(l@.take(j + 1).last() == l@[j as int]);
                        match &l[j] {
                            Some(t) => {
                                let ghost prima = out.deep_view();
                                assert(solo_testi(l@.take(j + 1)) == solo_testi(l@.take(j as int)).push(
                                    t@,
                                ));
                                out.push(crate::esterni::in_minuscolo(t.as_str()));
                                assert(out.deep_view() =~= prima.push(f(t@)));
                                assert(solo_testi(l@.take(j as int)).push(t@).map_values(f)
                                    =~= solo_testi(l@.take(j as int)).map_values(f).push(f(t@)));
                                assert(out.deep_view() =~= solo_testi(l@.take(j + 1)).map_values(
                                    f,
                                ));
                            },
                            None => {
                                assert(solo_testi(l@.take(j + 1)) == solo_testi(l@.take(j as int)));
                            },
                        }
                        j = j + 1;
                    }
                    assert(l@.take(l@.len() as int) =~= l@);
                },
                _ => {
                    assert(out.deep_view() =~= Seq::<Seq<char>>::empty());
                },
            }
        },
        None => {
            assert(out.deep_view() =~= Seq::<Seq<char>>::empty());
        },
    }
    out
}

/// The string under `chiave` in the object `s`, or `ripiego` when there is
/// none (`value.as_str().unwrap_or(ripiego)`).
pub open spec fn testo_o(m: &Messages, s: Sezione, chiave: Seq<char>, ripiego: Seq<char>) -> Seq<char> {
    match posizione(sezione(m, s), chiave) {
        Some(i) => match sezione(m, s)[i].1 {
            Voce::Testo(t) => t@,
            _ => ripiego,
        },
        None => ripiego,
    }
}

/// A message of the messages file, or `ripiego` when it is missing or not a string.
pub fn messaggio(messages: &Messages, section: Sezione, key: &str, ripiego: &str) -> (r: String)
    ensures
        r@ == testo_o(messages, section, key@, ripiego@),
{
    let voci = sezione_di(messages, section);
    match cerca_voce(voci, key) {
        Some(i) => match &voci[i].1 {
            Voce::Testo(t) => t.clone(),
            _ => String::from_str(ripiego),
        },
        None => String::from_str(ripiego),
    }
}

/// The elements of a JSON array as phrases (a non-string element reads as
/// the empty phrase); no phrase when the value is not an array.
pub open spec fn frase(e: Option<String>) -> Seq<char> {
    match e {
        Some(t) => t@,
        None => Seq::<char>::empty(),
    }
}

pub open spec fn frasi(v: Voce) -> Seq<Seq<char>> {
    match v {
        Voce::Lista(l) => l@.map_values(|e: Option<String>| frase(e)),
        _ => seq![],
    }
}

/// The phrases under `chiave` in the object `s`.
pub open spec fn frasi_di(m: &Messages, s: Sezione, chiave: Seq<char>) -> Seq<Seq<char>> {
    match posizione(sezione(m, s), chiave) {
        Some(i) => frasi(sezione(m, s)[i].1),
        None => seq![],
    }
}

/// The phrases of an array entry of the messages file.
pub fn lista_frasi(messages: &Messages, section: Sezione, key: &str) -> (r: Vec<String>)
    ensures
        r.deep_view() == frasi_di(messages, section, key@),
{
    let voci = sezione_di(messages, section);
    let mut out: Vec<String> = Vec::new();
    match cerca_voce(voci, key) {
        Some(i) => match &voci[i].1 {
            Voce::Lista(l) => {
                let mut j: usize = 0;
                while j < l.len()
                    invariant
                        j <= l@.len(),
                        out@.len() == j,
                        forall|k: int| 0 <= k < j ==> #[trigger] out@[k]@ == frase(l@[k]),
                    decreases l@.len() - j,
                {
                    match &l[j] {
                        Some(t) => out.push(t.clone()),
                        None => out.push(String::new()),
                    }
                    j = j + 1;
                }
                assert(out.deep_view() =~= frasi(voci@[i as int].1));
            },
            _ => {
                assert(out.deep_view() =~= frasi(voci@[i as int].1));
            },
        },
        None => {
            assert(out.deep_view() =~= Seq::<Seq<char>>::empty());
        },
    }
    out
}

/// A phrase of `lista` chosen by `seme`: the empty phrase when the list is
/// empty, else the phrase at `seme` modulo the length.
pub open spec fn frase_scelta(lista: Seq<Seq<char>>, seme: u32) -> Seq<char> {
    if lista.len() == 0 {
        seq![]
    } else {
        lista[(seme as int) % (lista.len() as int)]
    }
}

/// Picks a phrase of `lista`; the caller draws `seme` from the clock.
pub fn messaggio_casuale(lista: &Vec<String>, seme: u32) -> (r: String)
    ensures
        r@ == frase_scelta(lista.deep_view(), seme),
        lista@.len() > 0 ==> exists|i: int| 0 <= i < lista@.len() && r@ == lista@[i]@,
{
    if lista.len() == 0 {
        return String::new();
    }
    let idx = (seme as usize) % lista.len();
    assert(lista.deep_view()[idx as int] == lista@[idx as int]@);
    lista[idx].clone()
}

} // verus!
