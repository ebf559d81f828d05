use vstd::prelude::*;

verus! {

/// Result of `str::to_lowercase` (full Unicode lower-case mapping, with the
/// context-dependent final sigma rule), taken on the characters of the input.
pub uninterp spec fn minuscolo(s: Seq<char>) -> Seq<char>;

/// All characters are ASCII.
pub open spec fn ascii(s: Seq<char>) -> bool {
    forall|i: int| 0 <= i < s.len() ==> (s[i] as u32) < 128
}

/// `c` with `A`..`Z` mapped to `a`..`z`.
pub open spec fn ascii_minuscola(c: char) -> char {
    if 'A' <= c && c <= 'Z' {
        ((c as u32) + 32) as char
    } else {
        c
    }
}

/// `c` with `a`..`z` mapped to `A`..`Z`.
pub open spec fn ascii_maiuscola(c: char) -> char {
    if 'a' <= c && c <= 'z' {
        ((c as u32) - 32) as char
    } else {
        c
    }
}

/// Calls `str::to_lowercase`. The contract names the result; of ASCII text
/// it also states the mapping, which the Unicode case tables (to which the
/// documentation refers) make the ASCII one: `A`..`Z` to `a`..`z`, every
/// other character kept. Of other text it states nothing more.
#[verifier::external_body]
pub(crate) fn in_minuscolo(s: &str) -> (r: String)
    ensures
        r@ == minuscolo(s@),
        ascii(s@) ==> r@ == s@.map_values(|c: char| ascii_minuscola(c)),
{
    s.to_lowercase()
}

} // verus!

verus! {

/// Result of `char::is_alphanumeric` (the Unicode `Alphabetic` or `Numeric`
/// property).
pub uninterp spec fn alfanumerico(c: char) -> bool;

/// Calls `char::is_alphanumeric`; the contract names its result and states
/// it for ASCII, where only letters and digits have either property.
#[verifier::external_body]
pub(crate) fn e_alfanumerico(c: char) -> (r: bool)
    ensures
        r == alfanumerico(c),
        (c as u32) < 128 ==> r == (('a' <= c && c <= 'z') || ('A' <= c && c <= 'Z') || ('0' <= c
            && c <= '9')),
{
    c.is_alphanumeric()
}

} // verus!

verus! {

/// Result of compiling `pattern` with `regex::Regex::new` and, when that
/// succeeds, of `Regex::replace_all(testo, sostituto)` made into an owned
/// string; `None` when the pattern does not compile.
pub uninterp spec fn regex_sostituito(pattern: Seq<char>, testo: Seq<char>, sostituto: Seq<char>) -> Option<Seq<char>>;

/// Calls `regex::Regex::new` on `pattern` and `Regex::replace_all` on the
/// compiled expression. The regex is compiled from the pattern alone, so the
/// pair is one function of its three string arguments; the contract names
/// that function and says nothing of what the regex language means.
#[verifier::external_body]
pub(crate) fn sostituisci_regex(pattern: &str, testo: &str, sostituto: &str) -> (r: Option<String>)
    ensures
        r matches Some(x) ==> regex_sostituito(pattern@, testo@, sostituto@) == Some(x@),
        r is None ==> regex_sostituito(pattern@, testo@, sostituto@) is None,
{
    match regex::Regex::new(pattern) {
        Ok(re) => Some(re.replace_all(testo, sostituto).into_owned()),
        Err(_) => None,
    }
}

} // verus!

verus! {

/// Bytes that `urlencoding::encode` leaves as they are: ASCII letters and
/// digits, `-`, `.`, `_` and `~`.
pub open spec fn byte_sicuro(b: u8) -> bool {
    ||| (0x30 <= b && b <= 0x39)
    ||| (0x41 <= b && b <= 0x5a)
    ||| (0x61 <= b && b <= 0x7a)
    ||| b == 0x2d
    ||| b == 0x2e
    ||| b == 0x5f
    ||| b == 0x7e
}

/// Upper-case hexadecimal digit of `d < 16`.
pub open spec fn cifra_esadecimale(d: u8) -> char {
    if d < 10 {
        (48 + d) as char
    } else {
        (55 + d) as char
    }
}

/// A byte as `urlencoding::encode` writes it: itself when safe, else `%XY`.
pub open spec fn byte_codificato(b: u8) -> Seq<char> {
    if byte_sicuro(b) {
        seq![b as char]
    } else {
        seq!['%', cifra_esadecimale(b / 16), cifra_esadecimale(b % 16)]
    }
}

pub open spec fn byte_codificati(bytes: Seq<u8>) -> Seq<char>
    decreases bytes.len(),
{
    if bytes.len() == 0 {
        seq![]
    } else {
        byte_codificato(bytes[0]) + byte_codificati(bytes.drop_first())
    }
}

/// What `urlencoding::encode` returns: every byte of the UTF-8 encoding
/// percent-encoded, except ASCII alphanumerics and `-`, `_`, `.`, `~`.
pub open spec fn url_codificato(s: Seq<char>) -> Seq<char> {
    byte_codificati(vstd::utf8::encode_utf8(s))
}

/// Calls `urlencoding::encode`. Its documentation ("percent-encodes every
/// byte except alphanumerics and `-`, `_`, `.`, `~`; assumes UTF-8") and its
/// source (upper-case hex digits) give the contract.
#[verifier::external_body]
pub(crate) fn codifica_url(s: &str) -> (r: String)
    ensures
        r@ == url_codificato(s@),
{
    urlencoding::encode(s).into_owned()
}

} // verus!

verus! {

/// Result of `str::to_uppercase` (full Unicode upper-case mapping) on the
/// characters of the input.
pub uninterp spec fn maiuscolo(s: Seq<char>) -> Seq<char>;

/// Calls `str::to_uppercase`; the contract names its result and, of ASCII
/// text, states the ASCII mapping (`a`..`z` to `A`..`Z`, every other
/// character kept), as the Unicode case tables give it.
#[verifier::external_body]
pub(crate) fn in_maiuscolo(s: &str) -> (r: String)
    ensures
        r@ == maiuscolo(s@),
        ascii(s@) ==> r@ == s@.map_values(|c: char| ascii_maiuscola(c)),
{
    s.to_uppercase()
}

} // verus!
