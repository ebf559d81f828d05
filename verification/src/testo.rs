use vstd::prelude::*;

verus! {

/// The Unicode `White_Space` property, as tested by `char::is_whitespace`.
pub open spec fn spazio(c: char) -> bool {
    ||| ('\t' <= c && c <= '\r')
    ||| c == ' '
    ||| c == '\u{85}'
    ||| c == '\u{a0}'
    ||| c == '\u{1680}'
    ||| ('\u{2000}' <= c && c <= '\u{200a}')
    ||| c == '\u{2028}'
    ||| c == '\u{2029}'
    ||| c == '\u{202f}'
    ||| c == '\u{205f}'
    ||| c == '\u{3000}'
}

pub fn e_spazio(c: char) -> (r: bool)
    ensures
        r == spazio(c),
{
    ('\t' <= c && c <= '\r') || c == ' ' || c == '\u{85}' || c == '\u{a0}' || c == '\u{1680}'
        || ('\u{2000}' <= c && c <= '\u{200a}') || c == '\u{2028}' || c == '\u{2029}'
        || c == '\u{202f}' || c == '\u{205f}' || c == '\u{3000}'
}

/// The characters of `s`, one by one.
pub fn caratteri(s: &str) -> (v: Vec<char>)
    ensures
        v@ == s@,
{
    let n = s.unicode_len();
    let mut v: Vec<char> = Vec::new();
    let mut i: usize = 0;
    while i < n
        invariant
            n == s@.len(),
            i <= n,
            v@ == s@.subrange(0, i as int),
        decreases n - i,
    {
        v.push(s.get_char(i));
        i = i + 1;
    }
    v
}

/// A new `String` holding the characters `from..to` of `s`.
pub fn sottostringa(s: &str, from: usize, to: usize) -> (r: String)
    requires
        from <= to <= s@.len(),
    ensures
        r@ == s@.subrange(from as int, to as int),
{
    String::from_str(s.substring_char(from, to))
}

} // verus!

verus! {

// ─── Searching ───────────────────────────────────────────────────────────────

/// `p` stands in `s` starting at position `i`.
pub open spec fn occorre_a(s: Seq<char>, p: Seq<char>, i: int) -> bool {
    0 <= i && i + p.len() <= s.len() && s.subrange(i, i + p.len()) == p
}

/// The first position at or after `k` where `p` stands in `s`.
pub open spec fn trova_da(s: Seq<char>, p: Seq<char>, k: int) -> Option<int>
    decreases s.len() + 1 - k,
{
    if k < 0 || k + p.len() > s.len() {
        None
    } else if occorre_a(s, p, k) {
        Some(k)
    } else {
        trova_da(s, p, k + 1)
    }
}

/// What `str::find` returns, counted in characters.
pub open spec fn trova(s: Seq<char>, p: Seq<char>) -> Option<int> {
    trova_da(s, p, 0)
}

/// What `str::contains` returns.
pub open spec fn contiene(s: Seq<char>, p: Seq<char>) -> bool {
    trova(s, p) is Some
}

/// The last position at or before `k` where `p` stands in `s`.
pub open spec fn ultima_da(s: Seq<char>, p: Seq<char>, k: int) -> Option<int>
    decreases k + 1,
{
    if k < 0 {
        None
    } else if occorre_a(s, p, k) {
        Some(k)
    } else {
        ultima_da(s, p, k - 1)
    }
}

/// What `str::rfind` returns, counted in characters.
pub open spec fn ultima(s: Seq<char>, p: Seq<char>) -> Option<int> {
    ultima_da(s, p, s.len() - p.len())
}

pub proof fn lemma_trova_da(s: Seq<char>, p: Seq<char>, k: int)
    requires
        0 <= k,
    ensures
        trova_da(s, p, k) matches Some(i) ==> k <= i && occorre_a(s, p, i) && forall|j: int|
            k <= j < i ==> !occorre_a(s, p, j),
        trova_da(s, p, k) is None ==> forall|j: int| k <= j ==> !occorre_a(s, p, j),
    decreases s.len() + 1 - k,
{
    if k + p.len() > s.len() {
    } else if occorre_a(s, p, k) {
    } else {
        lemma_trova_da(s, p, k + 1);
    }
}

/// `trova` gives the first occurrence, and nothing when there is none.
pub proof fn lemma_trova(s: Seq<char>, p: Seq<char>)
    ensures
        trova(s, p) matches Some(i) ==> occorre_a(s, p, i) && forall|j: int|
            0 <= j < i ==> !occorre_a(s, p, j),
        trova(s, p) is None ==> forall|j: int| !occorre_a(s, p, j),
        contiene(s, p) <==> exists|j: int| occorre_a(s, p, j),
{
    lemma_trova_da(s, p, 0);
}

pub proof fn lemma_ultima_da(s: Seq<char>, p: Seq<char>, k: int)
    ensures
        ultima_da(s, p, k) matches Some(i) ==> i <= k && occorre_a(s, p, i) && forall|j: int|
            i < j <= k ==> !occorre_a(s, p, j),
        ultima_da(s, p, k) is None ==> forall|j: int| j <= k ==> !occorre_a(s, p, j),
    decreases k + 1,
{
    if k < 0 {
    } else if occorre_a(s, p, k) {
    } else {
        lemma_ultima_da(s, p, k - 1);
    }
}

/// `ultima` gives the last occurrence, and nothing when there is none.
pub proof fn lemma_ultima(s: Seq<char>, p: Seq<char>)
    ensures
        ultima(s, p) matches Some(i) ==> occorre_a(s, p, i) && forall|j: int|
            i < j ==> !occorre_a(s, p, j),
        ultima(s, p) is None ==> forall|j: int| !occorre_a(s, p, j),
{
    lemma_ultima_da(s, p, s.len() - p.len());
}

/// Whether `p` stands in `s` at position `k`.
pub fn coincide_a(s: &Vec<char>, p: &Vec<char>, k: usize) -> (r: bool)
    ensures
        r == occorre_a(s@, p@, k as int),
{
    if p.len() > s.len() || k > s.len() - p.len() {
        return false;
    }
    let mut j: usize = 0;
    while j < p.len()
        invariant
            k + p@.len() <= s@.len(),
            j <= p@.len(),
            s@.len() <= usize::MAX,
            forall|t: int| 0 <= t < j ==> s@[k + t] == p@[t],
        decreases p@.len() - j,
    {
        if s[k + j] != p[j] {
            assert(s@.subrange(k as int, k + p@.len())[j as int] != p@[j as int]);
            return false;
        }
        j = j + 1;
    }
    assert(s@.subrange(k as int, k + p@.len()) =~= p@);
    true
}

/// The first position of `p` in `s` (`str::find`, in characters).
pub fn trova_in(s: &Vec<char>, p: &Vec<char>) -> (r: Option<usize>)
    ensures
        r matches Some(i) ==> trova(s@, p@) == Some(i as int),
        r is None ==> trova(s@, p@) is None,
{
    if p.len() > s.len() {
        return None;
    }
    let last = s.len() - p.len();
    let mut k: usize = 0;
    loop
        invariant
            p@.len() <= s@.len(),
            last == s@.len() - p@.len(),
            k <= last,
            trova(s@, p@) == trova_da(s@, p@, k as int),
        decreases last - k,
    {
        if coincide_a(s, p, k) {
            return Some(k);
        }
        if k == last {
            assert(trova_da(s@, p@, k + 1) is None);
            return None;
        }
        k = k + 1;
    }
}

/// The last position of `p` in `s` (`str::rfind`, in characters).
pub fn ultima_in(s: &Vec<char>, p: &Vec<char>) -> (r: Option<usize>)
    ensures
        r matches Some(i) ==> ultima(s@, p@) == Some(i as int),
        r is None ==> ultima(s@, p@) is None,
{
    if p.len() > s.len() {
        assert(ultima_da(s@, p@, s@.len() - p@.len()) is None);
        return None;
    }
    let mut k: usize = s.len() - p.len();
    loop
        invariant
            p@.len() <= s@.len(),
            k <= s@.len() - p@.len(),
            ultima(s@, p@) == ultima_da(s@, p@, k as int),
        decreases k,
    {
        if coincide_a(s, p, k) {
            return Some(k);
        }
        if k == 0 {
            assert(ultima_da(s@, p@, -1) is None);
            return None;
        }
        k = k - 1;
    }
}

/// `str::contains`.
pub fn contiene_in(s: &Vec<char>, p: &Vec<char>) -> (r: bool)
    ensures
        r == contiene(s@, p@),
{
    trova_in(s, p).is_some()
}

/// `str::contains` on two string slices.
pub fn contiene_testo(s: &str, p: &str) -> (r: bool)
    ensures
        r == contiene(s@, p@),
{
    let sv = caratteri(s);
    let pv = caratteri(p);
    contiene_in(&sv, &pv)
}

/// Equality of two character sequences.
pub fn uguali(a: &Vec<char>, b: &Vec<char>) -> (r: bool)
    ensures
        r == (a@ == b@),
{
    if a.len() != b.len() {
        return false;
    }
    let r = coincide_a(a, b, 0);
    assert(a@.subrange(0, b@.len() as int) =~= a@);
    r
}

/// Equality of two string slices.
pub fn uguali_testo(a: &str, b: &str) -> (r: bool)
    ensures
        r == (a@ == b@),
{
    let av = caratteri(a);
    let bv = caratteri(b);
    uguali(&av, &bv)
}

} // verus!

verus! {

// ─── Trimming ────────────────────────────────────────────────────────────────

/// `s` without its leading white space.
pub open spec fn togli_inizio(s: Seq<char>) -> Seq<char>
    decreases s.len(),
{
    if s.len() > 0 && spazio(s[0]) {
        togli_inizio(s.drop_first())
    } else {
        s
    }
}

/// `s` without its trailing white space.
pub open spec fn togli_fine(s: Seq<char>) -> Seq<char>
    decreases s.len(),
{
    if s.len() > 0 && spazio(s.last()) {
        togli_fine(s.drop_last())
    } else {
        s
    }
}

/// What `str::trim` returns.
pub open spec fn rifilato(s: Seq<char>) -> Seq<char> {
    togli_fine(togli_inizio(s))
}

/// The bounds `(i, j)` of `str::trim` in `s`.
pub fn limiti_rifilatura(s: &Vec<char>) -> (r: (usize, usize))
    ensures
        r.0 <= r.1 <= s@.len(),
        rifilato(s@) == s@.subrange(r.0 as int, r.1 as int),
{
    let n = s.len();
    let mut i: usize = 0;
    assert(s@.subrange(0, n as int) =~= s@);
    while i < n && e_spazio(s[i])
        invariant
            n == s@.len(),
            i <= n,
            togli_inizio(s@) == togli_inizio(s@.subrange(i as int, n as int)),
        decreases n - i,
    {
        assert(s@.subrange(i as int, n as int).drop_first() =~= s@.subrange(i + 1, n as int));
        i = i + 1;
    }
    assert(togli_inizio(s@.subrange(i as int, n as int)) == s@.subrange(i as int, n as int));
    let mut j: usize = n;
    while j > i && e_spazio(s[j - 1])
        invariant
            n == s@.len(),
            i <= j <= n,
            rifilato(s@) == togli_fine(s@.subrange(i as int, j as int)),
        decreases j,
    {
        assert(s@.subrange(i as int, j as int).drop_last() =~= s@.subrange(i as int, j - 1));
        j = j - 1;
    }
    (i, j)
}

/// `str::trim`.
pub fn rifila(s: &str) -> (r: String)
    ensures
        r@ == rifilato(s@),
{
    let v = caratteri(s);
    let (i, j) = limiti_rifilatura(&v);
    sottostringa(s, i, j)
}

// ─── Splitting ───────────────────────────────────────────────────────────────

pub open spec fn se_non_vuota(cur: Seq<char>) -> Seq<Seq<char>> {
    if cur.len() > 0 {
        seq![cur]
    } else {
        seq![]
    }
}

/// Words of `s` separated by white space, `cur` being the word read so far.
pub open spec fn parole_acc(s: Seq<char>, cur: Seq<char>) -> Seq<Seq<char>>
    decreases s.len(),
{
    if s.len() == 0 {
        se_non_vuota(cur)
    } else if spazio(s[0]) {
        se_non_vuota(cur) + parole_acc(s.drop_first(), seq![])
    } else {
        parole_acc(s.drop_first(), cur.push(s[0]))
    }
}

/// What `str::split_whitespace` yields.
pub open spec fn parole(s: Seq<char>) -> Seq<Seq<char>> {
    parole_acc(s, seq![])
}

/// `str::split_whitespace`, collected.
pub fn dividi_parole(s: &str) -> (r: Vec<String>)
    ensures
        r.deep_view() == parole(s@),
{
    let v = caratteri(s);
    let n = v.len();
    let mut out: Vec<String> = Vec::new();
    let mut inizio: usize = 0;
    let mut i: usize = 0;
    assert(s@.subrange(0, n as int) =~= s@);
    assert(s@.subrange(0, 0) =~= Seq::<char>::empty());
    assert(out.deep_view() =~= Seq::<Seq<char>>::empty());
    while i < n
        invariant
            n == v@.len(),
            v@ == s@,
            inizio <= i <= n,
            out.deep_view() + parole_acc(s@.subrange(i as int, n as int), s@.subrange(
                inizio as int,
                i as int,
            )) == parole(s@),
        decreases n - i,
    {
        let ghost resto = s@.subrange(i as int, n as int);
        let ghost cur = s@.subrange(inizio as int, i as int);
        assert(resto.drop_first() =~= s@.subrange(i + 1, n as int));
        assert(resto[0] == v@[i as int]);
        if e_spazio(v[i]) {
            let ghost prima = out.deep_view();
            if inizio < i {
                let w = sottostringa(s, inizio, i);
                out.push(w);
                assert(out.deep_view() =~= prima + seq![cur]);
            } else {
                assert(cur =~= Seq::<char>::empty());
            }
            assert(out.deep_view() =~= prima + se_non_vuota(cur));
            assert(s@.subrange((i + 1) as int, (i + 1) as int) =~= Seq::<char>::empty());
            inizio = i + 1;
            assert(out.deep_view() + parole_acc(s@.subrange((i + 1) as int, n as int), seq![])
                =~= prima + parole_acc(resto, cur));
        } else {
            assert(cur.push(v@[i as int]) =~= s@.subrange(inizio as int, i + 1));
        }
        i = i + 1;
    }
    let ghost cur = s@.subrange(inizio as int, n as int);
    let ghost prima = out.deep_view();
    if inizio < n {
        let w = sottostringa(s, inizio, n);
        out.push(w);
    } else {
        assert(cur =~= Seq::<char>::empty());
    }
    assert(out.deep_view() =~= prima + se_non_vuota(cur));
    out
}

} // verus!

verus! {

/// Which characters separate the pieces in `dividi_pezzi`.
#[derive(Clone, Copy, PartialEq, Eq, Debug)]
pub enum Separatore {
    /// Every character that is not alphanumeric.
    NonAlfanumerico,
    /// White space, `:`, `-` and the em dash `—`.
    Nome,
}

pub open spec fn separa(k: Separatore, c: char) -> bool {
    match k {
        Separatore::NonAlfanumerico => !crate::esterni::alfanumerico(c),
        Separatore::Nome => spazio(c) || c == ':' || c == '-' || c == '\u{2014}',
    }
}

pub fn e_separatore(k: Separatore, c: char) -> (r: bool)
    ensures
        r == separa(k, c),
{
    match k {
        Separatore::NonAlfanumerico => !crate::esterni::e_alfanumerico(c),
        Separatore::Nome => e_spazio(c) || c == ':' || c == '-' || c == '\u{2014}',
    }
}

/// Pieces of `s` between separators, `cur` being the piece read so far.
pub open spec fn pezzi_acc(s: Seq<char>, cur: Seq<char>, k: Separatore) -> Seq<Seq<char>>
    decreases s.len(),
{
    if s.len() == 0 {
        seq![cur]
    } else if separa(k, s[0]) {
        seq![cur] + pezzi_acc(s.drop_first(), seq![], k)
    } else {
        pezzi_acc(s.drop_first(), cur.push(s[0]), k)
    }
}

/// What `str::split` with a character predicate yields (empty pieces kept).
pub open spec fn pezzi(s: Seq<char>, k: Separatore) -> Seq<Seq<char>> {
    pezzi_acc(s, seq![], k)
}

/// `str::split` with a character predicate, collected.
pub fn dividi_pezzi(s: &str, k: Separatore) -> (r: Vec<String>)
    ensures
        r.deep_view() == pezzi(s@, k),
{
    let v = caratteri(s);
    let n = v.len();
    let mut out: Vec<String> = Vec::new();
    let mut inizio: usize = 0;
    let mut i: usize = 0;
    assert(s@.subrange(0, n as int) =~= s@);
    assert(s@.subrange(0, 0) =~= Seq::<char>::empty());
    assert(out.deep_view() =~= Seq::<Seq<char>>::empty());
    while i < n
        invariant
            n == v@.len(),
            v@ == s@,
            inizio <= i <= n,
            out.deep_view() + pezzi_acc(s@.subrange(i as int, n as int), s@.subrange(
                inizio as int,
                i as int,
            ), k) == pezzi(s@, k),
        decreases n - i,
    {
        let ghost resto = s@.subrange(i as int, n as int);
        let ghost cur = s@.subrange(inizio as int, i as int);
        assert(resto.drop_first() =~= s@.subrange(i + 1, n as int));
        assert(resto[0] == v@[i as int]);
        if e_separatore(k, v[i]) {
            let ghost prima = out.deep_view();
            let w = sottostringa(s, inizio, i);
            out.push(w);
            assert(out.deep_view() =~= prima + seq![cur]);
            assert(s@.subrange((i + 1) as int, (i + 1) as int) =~= Seq::<char>::empty());
            inizio = i + 1;
            assert(out.deep_view() + pezzi_acc(s@.subrange((i + 1) as int, n as int), seq![], k)
                =~= prima + pezzi_acc(resto, cur, k));
        } else {
            assert(cur.push(v@[i as int]) =~= s@.subrange(inizio as int, i + 1));
        }
        i = i + 1;
    }
    let ghost cur = s@.subrange(inizio as int, n as int);
    let ghost prima = out.deep_view();
    let w = sottostringa(s, inizio, n);
    out.push(w);
    assert(out.deep_view() =~= prima + seq![cur]);
    out
}

/// A line without the `\r` of a `\r\n` ending.
pub open spec fn senza_cr(l: Seq<char>) -> Seq<char> {
    if l.len() > 0 && l.last() == '\r' {
        l.drop_last()
    } else {
        l
    }
}

/// Lines of `s`, `cur` being the line read so far.
pub open spec fn righe_acc(s: Seq<char>, cur: Seq<char>) -> Seq<Seq<char>>
    decreases s.len(),
{
    if s.len() == 0 {
        se_non_vuota(cur)
    } else if s[0] == '\n' {
        seq![senza_cr(cur)] + righe_acc(s.drop_first(), seq![])
    } else {
        righe_acc(s.drop_first(), cur.push(s[0]))
    }
}

/// What `str::lines` yields.
pub open spec fn righe(s: Seq<char>) -> Seq<Seq<char>> {
    righe_acc(s, seq![])
}

/// `str::lines`, collected.
pub fn dividi_righe(s: &str) -> (r: Vec<String>)
    ensures
        r.deep_view() == righe(s@),
{
    let v = caratteri(s);
    let n = v.len();
    let mut out: Vec<String> = Vec::new();
    let mut inizio: usize = 0;
    let mut i: usize = 0;
    assert(s@.subrange(0, n as int) =~= s@);
    assert(s@.subrange(0, 0) =~= Seq::<char>::empty());
    assert(out.deep_view() =~= Seq::<Seq<char>>::empty());
    while i < n
        invariant
            n == v@.len(),
            v@ == s@,
            inizio <= i <= n,
            out.deep_view() + righe_acc(s@.subrange(i as int, n as int), s@.subrange(
                inizio as int,
                i as int,
            )) == righe(s@),
        decreases n - i,
    {
        let ghost resto = s@.subrange(i as int, n as int);
        let ghost cur = s@.subrange(inizio as int, i as int);
        assert(resto.drop_first() =~= s@.subrange(i + 1, n as int));
        assert(resto[0] == v@[i as int]);
        if v[i] == '\n' {
            let ghost prima = out.deep_view();
            let fine = if i > inizio && v[i - 1] == '\r' {
                assert(senza_cr(cur) =~= s@.subrange(inizio as int, i - 1));
                i - 1
            } else {
                i
            };
            let w = sottostringa(s, inizio, fine);
            out.push(w);
            assert(out.deep_view() =~= prima + seq![senza_cr(cur)]);
            assert(s@.subrange((i + 1) as int, (i + 1) as int) =~= Seq::<char>::empty());
            inizio = i + 1;
            assert(out.deep_view() + righe_acc(s@.subrange((i + 1) as int, n as int), seq![])
                =~= prima + righe_acc(resto, cur));
        } else {
            assert(cur.push(v@[i as int]) =~= s@.subrange(inizio as int, i + 1));
        }
        i = i + 1;
    }
    let ghost cur = s@.subrange(inizio as int, n as int);
    let ghost prima = out.deep_view();
    if inizio < n {
        let w = sottostringa(s, inizio, n);
        out.push(w);
    } else {
        assert(cur =~= Seq::<char>::empty());
    }
    assert(out.deep_view() =~= prima + se_non_vuota(cur));
    out
}

} // verus!

verus! {

// ─── Replacing and joining ───────────────────────────────────────────────────

/// `s` from position `k` on, with every non-overlapping occurrence of the
/// non-empty `da`, taken from left to right, replaced by `a`.
pub open spec fn sostituito_da(s: Seq<char>, da: Seq<char>, a: Seq<char>, k: int) -> Seq<char>
    decreases s.len() - k,
{
    if k < 0 || k >= s.len() {
        seq![]
    } else if da.len() > 0 && occorre_a(s, da, k) {
        a + sostituito_da(s, da, a, k + da.len())
    } else {
        seq![s[k]] + sostituito_da(s, da, a, k + 1)
    }
}

/// `s` from position `k` on with `a` put before every character and at the end.
pub open spec fn intercalato_da(s: Seq<char>, a: Seq<char>, k: int) -> Seq<char>
    decreases s.len() - k,
{
    if k < 0 || k >= s.len() {
        a
    } else {
        a + seq![s[k]] + intercalato_da(s, a, k + 1)
    }
}

/// What `str::replace` returns.
pub open spec fn sostituito(s: Seq<char>, da: Seq<char>, a: Seq<char>) -> Seq<char> {
    if da.len() == 0 {
        intercalato_da(s, a, 0)
    } else {
        sostituito_da(s, da, a, 0)
    }
}

/// `str::replace`.
pub fn sostituisci(s: &str, da: &str, a: &str) -> (r: String)
    ensures
        r@ == sostituito(s@, da@, a@),
{
    let sv = caratteri(s);
    let dv = caratteri(da);
    let n = sv.len();
    let mut out = String::new();
    let mut k: usize = 0;
    if dv.len() == 0 {
        while k < n
            invariant
                n == s@.len(),
                sv@ == s@,
                dv@ == da@,
                da@.len() == 0,
                k <= n,
                out@ + intercalato_da(s@, a@, k as int) == sostituito(s@, da@, a@),
            decreases n - k,
        {
            let ghost prima = out@;
            out.append(a);
            out.append(s.substring_char(k, k + 1));
            assert(s@.subrange(k as int, k + 1) =~= seq![s@[k as int]]);
            assert(out@ + intercalato_da(s@, a@, k + 1) =~= prima + intercalato_da(
                s@,
                a@,
                k as int,
            ));
            k = k + 1;
        }
        out.append(a);
    } else {
        while k < n
            invariant
                n == s@.len(),
                sv@ == s@,
                dv@ == da@,
                da@.len() > 0,
                k <= n,
                out@ + sostituito_da(s@, da@, a@, k as int) == sostituito(s@, da@, a@),
            decreases n - k,
        {
            let ghost prima = out@;
            if coincide_a(&sv, &dv, k) {
                out.append(a);
                assert(out@ + sostituito_da(s@, da@, a@, k + da@.len()) =~= prima + sostituito_da(
                    s@,
                    da@,
                    a@,
                    k as int,
                ));
                k = k + dv.len();
            } else {
                out.append(s.substring_char(k, k + 1));
                assert(s@.subrange(k as int, k + 1) =~= seq![s@[k as int]]);
                assert(out@ + sostituito_da(s@, da@, a@, k + 1) =~= prima + sostituito_da(
                    s@,
                    da@,
                    a@,
                    k as int,
                ));
                k = k + 1;
            }
        }
        assert(out@ =~= out@ + sostituito_da(s@, da@, a@, k as int));
    }
    out
}

/// What `join(sep)` returns on the pieces `parti`.
pub open spec fn unito(parti: Seq<Seq<char>>, sep: Seq<char>) -> Seq<char>
    decreases parti.len(),
{
    if parti.len() == 0 {
        seq![]
    } else if parti.len() == 1 {
        parti[0]
    } else {
        unito(parti.drop_last(), sep) + sep + parti.last()
    }
}

/// `[String]::join`.
pub fn unisci(parti: &Vec<String>, sep: &str) -> (r: String)
    ensures
        r@ == unito(parti.deep_view(), sep@),
{
    let mut out = String::new();
    let n = parti.len();
    let ghost pv = parti.deep_view();
    let mut i: usize = 0;
    while i < n
        invariant
            n == parti@.len(),
            pv == parti.deep_view(),
            i <= n,
            out@ == unito(pv.take(i as int), sep@),
        decreases n - i,
    {
        assert(pv[i as int] == parti@[i as int]@);
        if i > 0 {
            out.append(sep);
        }
        out.append(parti[i].as_str());
        assert(pv.take(i + 1).drop_last() =~= pv.take(i as int));
        i = i + 1;
    }
    assert(pv.take(n as int) =~= pv);
    out
}

} // verus!

verus! {

// ─── UTF-8 length ────────────────────────────────────────────────────────────

/// Bytes of the UTF-8 encoding of `c`.
pub fn larghezza_utf8(c: char) -> (w: usize)
    ensures
        w == vstd::utf8::encode_scalar(c as u32).len(),
{
    let v = c as u32;
    if v <= 0x7f {
        1
    } else if v <= 0x7ff {
        2
    } else if v <= 0xffff {
        3
    } else {
        4
    }
}

pub proof fn lemma_lunghezza_utf8(s: Seq<char>)
    ensures
        vstd::utf8::encode_utf8(s).len() >= s.len(),
    decreases s.len(),
{
    if s.len() > 0 {
        lemma_lunghezza_utf8(s.drop_first());
    }
}

/// Whether the UTF-8 encoding of `t` (what `str::len` counts) has at least
/// three bytes.
pub fn almeno_tre_byte(t: &str) -> (r: bool)
    ensures
        r == (vstd::utf8::encode_utf8(t@).len() >= 3),
{
    let v = caratteri(t);
    let n = v.len();
    proof {
        lemma_lunghezza_utf8(t@);
    }
    if n >= 3 {
        return true;
    }
    if n == 0 {
        return false;
    }
    let ghost s = t@;
    assert(vstd::utf8::encode_utf8(s) == vstd::utf8::encode_scalar(s[0] as u32)
        + vstd::utf8::encode_utf8(s.drop_first()));
    let w0 = larghezza_utf8(v[0]);
    if n == 1 {
        assert(s.drop_first().len() == 0);
        return w0 >= 3;
    }
    let ghost s1 = s.drop_first();
    assert(s1[0] == v@[1]);
    assert(vstd::utf8::encode_utf8(s1) == vstd::utf8::encode_scalar(s1[0] as u32)
        + vstd::utf8::encode_utf8(s1.drop_first()));
    assert(s1.drop_first().len() == 0);
    let w1 = larghezza_utf8(v[1]);
    w0 + w1 >= 3
}

} // verus!
