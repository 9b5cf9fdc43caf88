//! What all the scrapers share: their errors and small text helpers.
use vstd::prelude::*;
use crate::utils::types::ScraperError;

verus! {

broadcast use vstd::string::group_string_axioms;

/// The texts a list of strings holds.
pub open spec fn texts(v: Seq<String>) -> Seq<Seq<char>> {
    Seq::new(v.len(), |i: int| v[i]@)
}

/// The texts an optional string holds.
pub open spec fn opt_texts(v: Seq<Option<String>>) -> Seq<Option<Seq<char>>> {
    Seq::new(
        v.len(),
        |i: int|
            match v[i] {
                Some(s) => Some(s@),
                None => None,
            },
    )
}

/// Why a scrape fails when the page could not be fetched.
pub open spec fn http_failure() -> Seq<char> {
    "Failed to make http request"@
}

/// Why a scrape fails when the page could not be parsed.
pub open spec fn parse_failure() -> Seq<char> {
    "Error Parsing page"@
}

pub fn http_error() -> (e: ScraperError)
    ensures
        e.reason@ == http_failure(),
{
    ScraperError { reason: "Failed to make http request".to_string() }
}

pub fn parse_error() -> (e: ScraperError)
    ensures
        e.reason@ == parse_failure(),
{
    ScraperError { reason: "Error Parsing page".to_string() }
}

/// `a` followed by `b` and `c`.
pub fn concat3(a: &str, b: &str, c: &str) -> (r: String)
    ensures
        r@ == a@ + b@ + c@,
{
    a.to_string().concat(b).concat(c)
}

/// The text of `o`, or `None` when it is empty.
pub open spec fn nonempty(o: Seq<char>) -> Option<Seq<char>> {
    if o.len() == 0 {
        None
    } else {
        Some(o)
    }
}

pub fn nonempty_string(s: String) -> (r: Option<String>)
    ensures
        s@.len() == 0 ==> r is None,
        s@.len() > 0 ==> r == Some(s),
{
    if s.as_str().is_empty() {
        None
    } else {
        Some(s)
    }
}

/// The bytes of the UTF-8 encoding of `c`.
pub open spec fn char_utf8(c: char) -> Seq<u8> {
    let cp = c as int;
    if cp < 0x80 {
        seq![cp as u8]
    } else if cp < 0x800 {
        seq![(0xC0 + cp / 64) as u8, (0x80 + cp % 64) as u8]
    } else if cp < 0x10000 {
        seq![(0xE0 + cp / 4096) as u8, (0x80 + (cp / 64) % 64) as u8, (0x80 + cp % 64) as u8]
    } else {
        seq![
            (0xF0 + cp / 262144) as u8,
            (0x80 + (cp / 4096) % 64) as u8,
            (0x80 + (cp / 64) % 64) as u8,
            (0x80 + cp % 64) as u8,
        ]
    }
}

/// The bytes of the UTF-8 encoding of `s`.
pub open spec fn utf8_bytes(s: Seq<char>) -> Seq<u8>
    decreases s.len(),
{
    if s.len() == 0 {
        Seq::empty()
    } else {
        utf8_bytes(s.drop_last()) + char_utf8(s.last())
    }
}

/// The bytes that percent-encoding leaves as they are: ASCII letters and
/// digits, `-`, `.`, `_` and `~`.
pub open spec fn url_safe(b: u8) -> bool {
    ||| (48 <= b && b <= 57)
    ||| (65 <= b && b <= 90)
    ||| (97 <= b && b <= 122)
    ||| b == 45
    ||| b == 46
    ||| b == 95
    ||| b == 126
}

/// The upper-case hexadecimal digit for `d` below 16.
pub open spec fn hex_digit(d: int) -> char {
    if d < 10 {
        (48 + d) as char
    } else {
        (55 + d) as char
    }
}

/// Bytes percent-encoded: a safe byte as its character, any other as `%`
/// and two upper-case hexadecimal digits.
pub open spec fn percent_encoded(b: Seq<u8>) -> Seq<char>
    decreases b.len(),
{
    if b.len() == 0 {
        Seq::empty()
    } else {
        let x = b.last();
        percent_encoded(b.drop_last()) + if url_safe(x) {
            seq![x as char]
        } else {
            seq!['%', hex_digit(x as int / 16), hex_digit(x as int % 16)]
        }
    }
}

/// What `urlencoding::encode` gives for `s`: the UTF-8 bytes of `s`
/// percent-encoded.
pub open spec fn url_encoded(s: Seq<char>) -> Seq<char> {
    percent_encoded(utf8_bytes(s))
}

/// `urlencoding::encode`, whose documentation says it percent-encodes every
/// byte of the UTF-8 encoding except ASCII letters and digits, `-`, `_`,
/// `.` and `~`; its source writes the hexadecimal digits in upper case.
#[verifier::external_body]
pub(crate) fn encode(s: &str) -> (r: String)
    ensures
        r@ == url_encoded(s@),
{
    urlencoding::encode(s).into_owned()
}

pub open spec fn opt_view(o: Option<String>) -> Option<Seq<char>> {
    match o {
        Some(s) => Some(s@),
        None => None,
    }
}

} // verus!
