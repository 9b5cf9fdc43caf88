//! Character-sequence operations used throughout the library: substring
//! search, replacement, splitting, trimming, number parsing and printing,
//! each with a specification over `Seq<char>`.
use vstd::prelude::*;

verus! {

/// Unicode `White_Space` characters, the set `char::is_whitespace` tests for.
pub open spec fn is_ws(c: char) -> bool {
    ||| ('\u{9}' <= c && c <= '\u{d}')
    ||| c == ' '
    ||| c == '\u{85}'
    ||| c == '\u{a0}'
    ||| c == '\u{1680}'
    ||| ('\u{2000}' <= c && c <= '\u{200a}')
    ||| c == '\u{2028}'
    ||| c == '\u{2029}'
    ||| c == '\u{202f}'
    ||| c == '\u{205f}'
    ||| c == '\u{3000}'
}

/// `pat` occurs in `s` starting at index `i`.
pub open spec fn matches_at(s: Seq<char>, pat: Seq<char>, i: int) -> bool {
    0 <= i && i + pat.len() <= s.len() && s.subrange(i, i + pat.len()) =~= pat
}

pub open spec fn contains(s: Seq<char>, pat: Seq<char>) -> bool {
    exists|i: int| matches_at(s, pat, i)
}

pub open spec fn starts_with(s: Seq<char>, pat: Seq<char>) -> bool {
    matches_at(s, pat, 0)
}

pub open spec fn ends_with(s: Seq<char>, pat: Seq<char>) -> bool {
    matches_at(s, pat, s.len() - pat.len())
}

/// What `str::replace(pat, rep)` gives for a non-empty `pat`: every
/// non-overlapping occurrence, found left to right, is replaced.
pub open spec fn replaced(s: Seq<char>, pat: Seq<char>, rep: Seq<char>) -> Seq<char>
    decreases s.len(),
{
    if pat.len() == 0 || s.len() < pat.len() {
        s
    } else if s.take(pat.len() as int) =~= pat {
        rep + replaced(s.skip(pat.len() as int), pat, rep)
    } else {
        seq![s[0]] + replaced(s.skip(1), pat, rep)
    }
}

/// The pieces that `str::split(pat)` yields for a non-empty `pat`.
pub open spec fn split(s: Seq<char>, pat: Seq<char>) -> Seq<Seq<char>>
    decreases s.len(),
{
    if pat.len() == 0 || s.len() < pat.len() {
        seq![s]
    } else if s.take(pat.len() as int) =~= pat {
        seq![Seq::<char>::empty()] + split(s.skip(pat.len() as int), pat)
    } else {
        let t = split(s.skip(1), pat);
        t.update(0, seq![s[0]] + t[0])
    }
}

/// The character sequences held by a sequence of vectors.
pub open spec fn views(v: Seq<Vec<char>>) -> Seq<Seq<char>> {
    Seq::new(v.len(), |i: int| v[i]@)
}

/// Prefix `c` to the first piece of `t`.
pub open spec fn prepend_first(c: Seq<char>, t: Seq<Seq<char>>) -> Seq<Seq<char>> {
    t.update(0, c + t[0])
}

pub open spec fn trim_start(s: Seq<char>) -> Seq<char>
    decreases s.len(),
{
    if s.len() > 0 && is_ws(s[0]) {
        trim_start(s.drop_first())
    } else {
        s
    }
}

pub open spec fn trim_end(s: Seq<char>) -> Seq<char>
    decreases s.len(),
{
    if s.len() > 0 && is_ws(s.last()) {
        trim_end(s.drop_last())
    } else {
        s
    }
}

/// What `str::trim` gives: leading and trailing white space removed.
pub open spec fn trim(s: Seq<char>) -> Seq<char> {
    trim_end(trim_start(s))
}

pub proof fn lemma_split_nonempty(s: Seq<char>, pat: Seq<char>)
    ensures
        split(s, pat).len() >= 1,
    decreases s.len(),
{
    if pat.len() == 0 || s.len() < pat.len() {
    } else if s.take(pat.len() as int) =~= pat {
        lemma_split_nonempty(s.skip(pat.len() as int), pat);
    } else {
        lemma_split_nonempty(s.skip(1), pat);
    }
}

/// Whether `pat` occurs in `s` at index `i`.
pub fn matches_at_exec(s: &Vec<char>, pat: &Vec<char>, i: usize) -> (r: bool)
    ensures
        r == matches_at(s@, pat@, i as int),
{
    if i > s.len() || pat.len() > s.len() - i {
        return false;
    }
    let mut j: usize = 0;
    while j < pat.len()
        invariant
            i + pat.len() <= s.len(),
            0 <= j <= pat.len(),
            forall|k: int| 0 <= k < j ==> s@[i + k] == pat@[k],
        decreases pat.len() - j,
    {
        if s[i + j] != pat[j] {
            assert(s@.subrange(i as int, i + pat.len())[j as int] != pat@[j as int]);
            return false;
        }
        j = j + 1;
    }
    assert(s@.subrange(i as int, i + pat.len()) =~= pat@);
    true
}

/// Whether `pat` occurs anywhere in `s`.
pub fn contains_exec(s: &Vec<char>, pat: &Vec<char>) -> (r: bool)
    ensures
        r == contains(s@, pat@),
{
    let mut i: usize = 0;
    while i < s.len()
        invariant
            0 <= i <= s.len(),
            forall|k: int| 0 <= k < i ==> !matches_at(s@, pat@, k),
        decreases s.len() - i,
    {
        if matches_at_exec(s, pat, i) {
            return true;
        }
        i = i + 1;
    }
    if matches_at_exec(s, pat, i) {
        return true;
    }
    assert forall|k: int| !matches_at(s@, pat@, k) by {
        if 0 <= k < i {
        }
    }
    false
}

pub fn starts_with_exec(s: &Vec<char>, pat: &Vec<char>) -> (r: bool)
    ensures
        r == starts_with(s@, pat@),
{
    matches_at_exec(s, pat, 0)
}

pub fn ends_with_exec(s: &Vec<char>, pat: &Vec<char>) -> (r: bool)
    ensures
        r == ends_with(s@, pat@),
{
    if pat.len() > s.len() {
        false
    } else {
        matches_at_exec(s, pat, s.len() - pat.len())
    }
}

/// Append all of `src` to `out`.
pub fn push_all(out: &mut Vec<char>, src: &Vec<char>)
    ensures
        final(out)@ == old(out)@ + src@,
{
    let mut i: usize = 0;
    while i < src.len()
        invariant
            0 <= i <= src.len(),
            out@ == old(out)@ + src@.take(i as int),
        decreases src.len() - i,
    {
        out.push(src[i]);
        i = i + 1;
        assert(out@ =~= old(out)@ + src@.take(i as int));
    }
    assert(src@.take(i as int) =~= src@);
}

/// `s` with every occurrence of `pat` replaced by `rep`.
pub fn replace_exec(s: &Vec<char>, pat: &Vec<char>, rep: &Vec<char>) -> (r: Vec<char>)
    requires
        pat.len() > 0,
    ensures
        r@ == replaced(s@, pat@, rep@),
{
    let mut out: Vec<char> = Vec::new();
    let mut i: usize = 0;
    assert(s@.skip(0) =~= s@);
    while i < s.len()
        invariant
            pat.len() > 0,
            0 <= i <= s.len(),
            out@ + replaced(s@.skip(i as int), pat@, rep@) == replaced(s@, pat@, rep@),
        decreases s.len() - i,
    {
        let ghost rest = s@.skip(i as int);
        if matches_at_exec(s, pat, i) {
            assert(rest.take(pat.len() as int) =~= s@.subrange(i as int, i + pat.len()));
            assert(rest.skip(pat.len() as int) =~= s@.skip(i + pat.len()));
            let ghost before = out@;
            push_all(&mut out, rep);
            assert(out@ + replaced(s@.skip(i + pat.len()), pat@, rep@) =~= before + replaced(rest, pat@, rep@));
            i = i + pat.len();
        } else {
            assert(rest.skip(1) =~= s@.skip(i + 1));
            proof {
                if rest.len() >= pat@.len() {
                    assert(rest.take(pat.len() as int) =~= s@.subrange(i as int, i + pat.len()));
                } else {
                    assert(rest =~= seq![s@[i as int]] + s@.skip(i + 1));
                }
            }
            let ghost before = out@;
            out.push(s[i]);
            assert(out@ + replaced(s@.skip(i + 1), pat@, rep@) =~= before + replaced(rest, pat@, rep@));
            i = i + 1;
        }
    }
    assert(s@.skip(i as int) =~= Seq::<char>::empty());
    assert(out@ + replaced(s@.skip(i as int), pat@, rep@) =~= out@);
    out
}

/// The pieces of `s` between the occurrences of `pat`.
pub fn split_exec(s: &Vec<char>, pat: &Vec<char>) -> (r: Vec<Vec<char>>)
    requires
        pat.len() > 0,
    ensures
        views(r@) == split(s@, pat@),
{
    let mut pieces: Vec<Vec<char>> = Vec::new();
    let mut cur: Vec<char> = Vec::new();
    let mut i: usize = 0;
    assert(s@.skip(0) =~= s@);
    proof {
        lemma_split_nonempty(s@, pat@);
        assert(prepend_first(cur@, split(s@, pat@)) =~= split(s@, pat@));
        assert(views(pieces@) + prepend_first(cur@, split(s@, pat@)) =~= split(s@, pat@));
    }
    while i < s.len()
        invariant
            pat.len() > 0,
            0 <= i <= s.len(),
            split(s@.skip(i as int), pat@).len() >= 1,
            views(pieces@) + prepend_first(cur@, split(s@.skip(i as int), pat@)) == split(s@, pat@),
        decreases s.len() - i,
    {
        let ghost rest = s@.skip(i as int);
        if matches_at_exec(s, pat, i) {
            assert(rest.take(pat.len() as int) =~= s@.subrange(i as int, i + pat.len()));
            assert(rest.skip(pat.len() as int) =~= s@.skip(i + pat.len()));
            let ghost old_pieces = views(pieces@);
            let ghost old_cur = cur@;
            let ghost tail = split(s@.skip(i + pat.len()), pat@);
            proof {
                lemma_split_nonempty(s@.skip(i + pat.len()), pat@);
            }
            pieces.push(cur);
            cur = Vec::new();
            assert(views(pieces@) =~= old_pieces.push(old_cur));
            assert(views(pieces@) + prepend_first(cur@, tail) =~= old_pieces + prepend_first(
                old_cur,
                seq![Seq::<char>::empty()] + tail,
            ));
            i = i + pat.len();
        } else {
            assert(rest.skip(1) =~= s@.skip(i + 1));
            proof {
                lemma_split_nonempty(s@.skip(i + 1), pat@);
                if rest.len() >= pat@.len() {
                    assert(rest.take(pat.len() as int) =~= s@.subrange(i as int, i + pat.len()));
                } else {
                    assert(rest =~= seq![s@[i as int]] + s@.skip(i + 1));
                }
            }
            let ghost before = cur@;
            let ghost tail = split(s@.skip(i + 1), pat@);
            cur.push(s[i]);
            proof {
                if rest.len() >= pat@.len() {
                    assert(cur@ + tail[0] =~= before + (seq![s@[i as int]] + tail[0]));
                } else {
                    assert(cur@ + tail[0] =~= before + rest);
                }
            }
            assert(prepend_first(cur@, tail) =~= prepend_first(before, split(rest, pat@)));
            i = i + 1;
        }
    }
    assert(s@.skip(i as int) =~= Seq::<char>::empty());
    let ghost old_pieces = views(pieces@);
    let ghost last = cur@;
    pieces.push(cur);
    assert(views(pieces@) =~= old_pieces.push(last));
    assert(prepend_first(last, split(Seq::<char>::empty(), pat@)) =~= seq![last]);
    pieces
}

/// `s` with leading and trailing white space removed.
pub fn trim_exec(s: &Vec<char>) -> (r: Vec<char>)
    ensures
        r@ == trim(s@),
{
    let mut start: usize = 0;
    assert(s@.skip(0) =~= s@);
    while start < s.len() && is_ws_exec(s[start])
        invariant
            0 <= start <= s.len(),
            trim_start(s@.skip(start as int)) == trim_start(s@),
        decreases s.len() - start,
    {
        assert(s@.skip(start as int).drop_first() =~= s@.skip(start + 1));
        start = start + 1;
    }
    let ghost t = s@.skip(start as int);
    assert(trim_start(s@) == t);
    let mut end: usize = s.len();
    assert(t.take((end - start) as int) =~= t);
    while end > start && is_ws_exec(s[end - 1])
        invariant
            start <= end <= s.len(),
            t == s@.skip(start as int),
            trim_end(t.take((end - start) as int)) == trim_end(t),
        decreases end,
    {
        assert(t.take((end - start) as int).drop_last() =~= t.take((end - 1 - start) as int));
        end = end - 1;
    }
    let mut out: Vec<char> = Vec::new();
    let mut k: usize = start;
    while k < end
        invariant
            start <= k <= end <= s.len(),
            out@ =~= s@.subrange(start as int, k as int),
        decreases end - k,
    {
        out.push(s[k]);
        k = k + 1;
    }
    assert(t.take((end - start) as int) =~= s@.subrange(start as int, end as int));
    out
}

/// Whether `c` is Unicode white space.
pub fn is_ws_exec(c: char) -> (r: bool)
    ensures
        r == is_ws(c),
{
    ('\u{9}' <= c && c <= '\u{d}') || c == ' ' || c == '\u{85}' || c == '\u{a0}' || c == '\u{1680}'
        || ('\u{2000}' <= c && c <= '\u{200a}') || c == '\u{2028}' || c == '\u{2029}' || c
        == '\u{202f}' || c == '\u{205f}' || c == '\u{3000}'
}

pub open spec fn is_digit(c: char) -> bool {
    '0' <= c && c <= '9'
}

pub open spec fn digit_value(c: char) -> nat {
    (c as int - '0' as int) as nat
}

/// The number that a run of decimal digits denotes.
pub open spec fn digits_value(d: Seq<char>) -> nat
    decreases d.len(),
{
    if d.len() == 0 {
        0
    } else {
        digits_value(d.drop_last()) * 10 + digit_value(d.last())
    }
}

pub open spec fn all_digits(d: Seq<char>) -> bool {
    forall|i: int| 0 <= i < d.len() ==> is_digit(#[trigger] d[i])
}

/// The digits after an optional leading `+`.
pub open spec fn unsigned_body(s: Seq<char>) -> Seq<char> {
    if s.len() > 0 && s[0] == '+' {
        s.drop_first()
    } else {
        s
    }
}

/// What `str::parse` gives for an unsigned integer type whose largest value is
/// `max`: an optional `+`, then at least one decimal digit, and a value in range.
pub open spec fn parse_unsigned(s: Seq<char>, max: nat) -> Option<nat> {
    let d = unsigned_body(s);
    if d.len() > 0 && all_digits(d) && digits_value(d) <= max {
        Some(digits_value(d))
    } else {
        None
    }
}

pub proof fn lemma_digits_value_monotone(d: Seq<char>, k: int)
    requires
        0 <= k <= d.len(),
        all_digits(d),
    ensures
        digits_value(d.take(k)) <= digits_value(d),
    decreases d.len() - k,
{
    if k < d.len() {
        lemma_digits_value_monotone(d, k + 1);
        assert(d.take(k + 1).drop_last() =~= d.take(k));
        assert(d.take(k + 1).last() == d[k]);
    } else {
        assert(d.take(k) =~= d);
    }
}

fn digit_exec(c: char) -> (d: u64)
    requires
        is_digit(c),
    ensures
        d as nat == digit_value(c),
        d < 10,
{
    match c {
        '0' => 0,
        '1' => 1,
        '2' => 2,
        '3' => 3,
        '4' => 4,
        '5' => 5,
        '6' => 6,
        '7' => 7,
        '8' => 8,
        _ => 9,
    }
}

/// Parse an unsigned decimal number no larger than `max`.
pub fn parse_unsigned_exec(s: &Vec<char>, max: u64) -> (r: Option<u64>)
    ensures
        r is Some ==> parse_unsigned(s@, max as nat) == Some(r->0 as nat),
        r is None ==> parse_unsigned(s@, max as nat) is None,
{
    let start: usize = if s.len() > 0 && s[0] == '+' {
        1
    } else {
        0
    };
    let ghost d = unsigned_body(s@);
    assert(d =~= s@.skip(start as int));
    if start >= s.len() {
        return None;
    }
    let mut v: u64 = 0;
    let mut i: usize = start;
    assert(d.take(0) =~= Seq::<char>::empty());
    while i < s.len()
        invariant
            start <= i <= s.len(),
            start < s.len(),
            d == s@.skip(start as int),
            d == unsigned_body(s@),
            all_digits(d.take((i - start) as int)),
            v as nat == digits_value(d.take((i - start) as int)),
            v <= max,
        decreases s.len() - i,
    {
        let c = s[i];
        if !('0' <= c && c <= '9') {
            assert(d[(i - start) as int] == c);
            assert(!all_digits(d));
            return None;
        }
        let dv = digit_exec(c);
        assert(d.take((i + 1 - start) as int).drop_last() =~= d.take((i - start) as int));
        assert(d.take((i + 1 - start) as int).last() == c);
        assert(all_digits(d.take((i + 1 - start) as int)));
        if v > max / 10 || (v == max / 10 && dv > max % 10) {
            proof {
                let k = (i + 1 - start) as int;
                assert(digits_value(d.take(k)) == v * 10 + dv);
                assert(v * 10 + dv > max) by (nonlinear_arith)
                    requires
                        v > max / 10 || (v == max / 10 && dv > max % 10),
                        max >= 0,
                ;
                if all_digits(d) {
                    lemma_digits_value_monotone(d, k);
                    assert(digits_value(d) > max);
                }
                assert(parse_unsigned(s@, max as nat) is None);
            }
            return None;
        }
        assert(v * 10 + dv <= max) by (nonlinear_arith)
            requires
                dv < 10,
                v <= max / 10,
                v < max / 10 || dv <= max % 10,
                max >= 0,
        ;
        v = v * 10 + dv;
        i = i + 1;
    }
    assert(d.take((i - start) as int) =~= d);
    Some(v)
}

/// Lexicographic comparison of two character sequences by code point, which
/// is the order `str` compares in: -1, 0 or 1.
pub open spec fn lex_order(a: Seq<char>, b: Seq<char>) -> int
    decreases a.len(),
{
    if a.len() == 0 {
        if b.len() == 0 {
            0
        } else {
            -1
        }
    } else if b.len() == 0 {
        1
    } else if a[0] < b[0] {
        -1
    } else if b[0] < a[0] {
        1
    } else {
        lex_order(a.drop_first(), b.drop_first())
    }
}

pub fn lex_order_exec(a: &Vec<char>, b: &Vec<char>) -> (r: i8)
    ensures
        r as int == lex_order(a@, b@),
{
    let mut i: usize = 0;
    assert(a@.skip(0) =~= a@);
    assert(b@.skip(0) =~= b@);
    while i < a.len() && i < b.len()
        invariant
            0 <= i <= a.len(),
            i <= b.len(),
            lex_order(a@.skip(i as int), b@.skip(i as int)) == lex_order(a@, b@),
        decreases a.len() - i,
    {
        let x = a[i];
        let y = b[i];
        if x < y {
            return -1;
        }
        if y < x {
            return 1;
        }
        assert(a@.skip(i as int).drop_first() =~= a@.skip(i + 1));
        assert(b@.skip(i as int).drop_first() =~= b@.skip(i + 1));
        i = i + 1;
    }
    if i < a.len() {
        1
    } else if i < b.len() {
        -1
    } else {
        0
    }
}

/// Length in bytes of the UTF-8 encoding of `c`.
pub open spec fn char_utf8_len(c: char) -> nat {
    if '\u{80}' > c {
        1
    } else if '\u{800}' > c {
        2
    } else if '\u{10000}' > c {
        3
    } else {
        4
    }
}

/// Length in bytes of the UTF-8 encoding of `s`, which is what `str::len` counts.
pub open spec fn utf8_len(s: Seq<char>) -> nat
    decreases s.len(),
{
    if s.len() == 0 {
        0
    } else {
        utf8_len(s.drop_last()) + char_utf8_len(s.last())
    }
}

pub proof fn lemma_utf8_len_prefix(s: Seq<char>, k: int)
    requires
        0 <= k <= s.len(),
    ensures
        utf8_len(s.take(k)) <= utf8_len(s),
    decreases s.len() - k,
{
    if k < s.len() {
        lemma_utf8_len_prefix(s, k + 1);
        assert(s.take(k + 1).drop_last() =~= s.take(k));
    } else {
        assert(s.take(k) =~= s);
    }
}

/// Whether the UTF-8 encoding of `s` is longer than `n` bytes.
pub fn utf8_len_exceeds(s: &Vec<char>, n: usize) -> (r: bool)
    ensures
        r == (utf8_len(s@) > n),
{
    let mut total: usize = 0;
    let mut i: usize = 0;
    assert(s@.take(0) =~= Seq::<char>::empty());
    while i < s.len()
        invariant
            0 <= i <= s.len(),
            total as nat == utf8_len(s@.take(i as int)),
            total <= n,
        decreases s.len() - i,
    {
        let c = s[i];
        let w: usize = if '\u{80}' > c {
            1
        } else if '\u{800}' > c {
            2
        } else if '\u{10000}' > c {
            3
        } else {
            4
        };
        assert(s@.take(i + 1).drop_last() =~= s@.take(i as int));
        if w > n - total {
            proof {
                lemma_utf8_len_prefix(s@, i + 1);
            }
            return true;
        }
        total = total + w;
        i = i + 1;
    }
    assert(s@.take(i as int) =~= s@);
    false
}

pub open spec fn digit_char(d: nat) -> char {
    ('0' as int + d) as char
}

/// The decimal digits of `n`, as `u64::to_string` prints them.
pub open spec fn nat_text(n: nat) -> Seq<char>
    decreases n,
{
    if n < 10 {
        seq![digit_char(n)]
    } else {
        nat_text(n / 10) + seq![digit_char(n % 10)]
    }
}

/// What `to_string` prints for a signed integer.
pub open spec fn int_text(i: int) -> Seq<char> {
    if i < 0 {
        seq!['-'] + nat_text((-i) as nat)
    } else {
        nat_text(i as nat)
    }
}

fn digit_char_exec(d: u64) -> (c: char)
    requires
        d < 10,
    ensures
        c == digit_char(d as nat),
{
    match d {
        0 => '0',
        1 => '1',
        2 => '2',
        3 => '3',
        4 => '4',
        5 => '5',
        6 => '6',
        7 => '7',
        8 => '8',
        _ => '9',
    }
}

/// The decimal digits of `n`.
pub fn u64_text(n: u64) -> (r: Vec<char>)
    ensures
        r@ == nat_text(n as nat),
    decreases n,
{
    if n < 10 {
        let mut v: Vec<char> = Vec::new();
        v.push(digit_char_exec(n));
        assert(v@ =~= seq![digit_char(n as nat)]);
        v
    } else {
        let mut v = u64_text(n / 10);
        v.push(digit_char_exec(n % 10));
        v
    }
}

/// The decimal text of `n`, with a leading `-` when it is negative.
pub fn i64_text(n: i64) -> (r: Vec<char>)
    ensures
        r@ == int_text(n as int),
{
    if n < 0 {
        let m: u64 = (-(n as i128)) as u64;
        let digits = u64_text(m);
        let mut v: Vec<char> = Vec::new();
        v.push('-');
        push_all(&mut v, &digits);
        assert(v@ =~= seq!['-'] + nat_text((-(n as int)) as nat));
        v
    } else {
        u64_text(n as u64)
    }
}

/// The characters of `s`.
pub(crate) fn chars_of(s: &str) -> (v: Vec<char>)
    ensures
        v@ == s@,
{
    broadcast use vstd::string::group_string_axioms;

    let mut v: Vec<char> = Vec::new();
    for c in it: s.chars()
        invariant
            it.seq() == s@,
            v@ == s@.take(it.index() as int),
    {
        v.push(c);
    }
    assert(v@ =~= s@);
    v
}

/// A `String` holding the characters `v`.
#[verifier::external_body]
pub(crate) fn string_of(v: &Vec<char>) -> (s: String)
    ensures
        s@ == v@,
{
    v.iter().collect()
}

/// The `n`-th piece of `s` split at `pat`, or the empty text when there are
/// fewer pieces (what `split(pat).nth(n).unwrap_or_default()` gives).
pub open spec fn piece(s: Seq<char>, pat: Seq<char>, n: int) -> Seq<char> {
    let ps = split(s, pat);
    if 0 <= n < ps.len() {
        ps[n]
    } else {
        Seq::empty()
    }
}

/// `s` with every occurrence of `pat` replaced by `rep`.
pub fn replace_str(s: &str, pat: &str, rep: &str) -> (r: String)
    requires
        pat@.len() > 0,
    ensures
        r@ == replaced(s@, pat@, rep@),
{
    string_of(&replace_exec(&chars_of(s), &chars_of(pat), &chars_of(rep)))
}

/// The pieces of `s` between the occurrences of `pat`.
pub fn split_str(s: &str, pat: &str) -> (r: Vec<String>)
    requires
        pat@.len() > 0,
    ensures
        r@.len() == split(s@, pat@).len(),
        forall|i: int| 0 <= i < r@.len() ==> (#[trigger] r@[i])@ == split(s@, pat@)[i],
{
    let pieces = split_exec(&chars_of(s), &chars_of(pat));
    let mut out: Vec<String> = Vec::new();
    let mut k: usize = 0;
    while k < pieces.len()
        invariant
            0 <= k <= pieces@.len(),
            views(pieces@) == split(s@, pat@),
            out@.len() == k,
            forall|i: int| 0 <= i < k ==> (#[trigger] out@[i])@ == split(s@, pat@)[i],
        decreases pieces@.len() - k,
    {
        assert(views(pieces@)[k as int] == pieces@[k as int]@);
        out.push(string_of(&pieces[k]));
        k = k + 1;
    }
    out
}

/// The `n`-th piece of `s` split at `pat`, or the empty text.
pub fn piece_str(s: &str, pat: &str, n: usize) -> (r: String)
    requires
        pat@.len() > 0,
    ensures
        r@ == piece(s@, pat@, n as int),
{
    let pieces = split_str(s, pat);
    if n < pieces.len() {
        pieces[n].clone()
    } else {
        String::new()
    }
}

/// `s` with leading and trailing white space removed.
pub fn trim_str(s: &str) -> (r: String)
    ensures
        r@ == trim(s@),
{
    string_of(&trim_exec(&chars_of(s)))
}

pub fn contains_str(s: &str, pat: &str) -> (r: bool)
    ensures
        r == contains(s@, pat@),
{
    contains_exec(&chars_of(s), &chars_of(pat))
}

pub fn starts_with_str(s: &str, pat: &str) -> (r: bool)
    ensures
        r == starts_with(s@, pat@),
{
    starts_with_exec(&chars_of(s), &chars_of(pat))
}

pub fn ends_with_str(s: &str, pat: &str) -> (r: bool)
    ensures
        r == ends_with(s@, pat@),
{
    ends_with_exec(&chars_of(s), &chars_of(pat))
}

/// The value of `s` as a `u32`, or 0 when it is not one (what
/// `parse::<u32>().unwrap_or_default()` gives).
pub open spec fn u32_or_zero(s: Seq<char>) -> u32 {
    match parse_unsigned(s, 4294967295) {
        Some(v) => v as u32,
        None => 0,
    }
}

pub fn parse_u32(s: &str) -> (r: Option<u32>)
    ensures
        r is Some <==> parse_unsigned(s@, 4294967295) is Some,
        r matches Some(v) ==> parse_unsigned(s@, 4294967295) == Some(v as nat),
{
    match parse_unsigned_exec(&chars_of(s), 4294967295) {
        Some(v) => Some(v as u32),
        None => None,
    }
}

pub fn u32_or_zero_str(s: &str) -> (r: u32)
    ensures
        r == u32_or_zero(s@),
{
    match parse_u32(s) {
        Some(v) => v,
        None => 0,
    }
}

/// Whether the UTF-8 encoding of `s` is longer than `n` bytes (`s.len() > n`).
pub fn byte_len_exceeds(s: &str, n: usize) -> (r: bool)
    ensures
        r == (utf8_len(s@) > n),
{
    utf8_len_exceeds(&chars_of(s), n)
}

/// The pieces joined with `sep` between them.
pub open spec fn join(ps: Seq<Seq<char>>, sep: Seq<char>) -> Seq<char>
    decreases ps.len(),
{
    if ps.len() == 0 {
        Seq::empty()
    } else if ps.len() == 1 {
        ps[0]
    } else {
        join(ps.drop_last(), sep) + sep + ps.last()
    }
}

/// The text after the first occurrence of `pat` (what
/// `split(pat).skip(1).collect::<Vec<_>>().join(pat)` gives).
pub open spec fn after_first(s: Seq<char>, pat: Seq<char>) -> Seq<char> {
    join(split(s, pat).skip(1), pat)
}

pub fn after_first_str(s: &str, pat: &str) -> (r: String)
    requires
        pat@.len() > 0,
    ensures
        r@ == after_first(s@, pat@),
{
    let pieces = split_str(s, pat);
    let ghost ps = split(s@, pat@);
    let sep = chars_of(pat);
    proof {
        lemma_split_nonempty(s@, pat@);
    }
    let mut out: Vec<char> = Vec::new();
    let mut k: usize = 1;
    assert(ps.skip(1).take(0) =~= Seq::<Seq<char>>::empty());
    while k < pieces.len()
        invariant
            1 <= k <= pieces@.len(),
            pieces@.len() == ps.len(),
            forall|i: int| 0 <= i < pieces@.len() ==> (#[trigger] pieces@[i])@ == ps[i],
            sep@ == pat@,
            out@ == join(ps.skip(1).take(k - 1), pat@),
        decreases pieces@.len() - k,
    {
        let ghost before = out@;
        if k > 1 {
            push_all(&mut out, &sep);
        }
        push_all(&mut out, &chars_of(pieces[k].as_str()));
        assert(ps.skip(1).take(k as int).drop_last() =~= ps.skip(1).take(k - 1));
        assert(ps.skip(1).take(k as int).last() == ps[k as int]);
        proof {
            if k == 1 {
                assert(ps.skip(1).take(1) =~= seq![ps[1]]);
            }
        }
        assert(out@ =~= join(ps.skip(1).take(k as int), pat@));
        k = k + 1;
    }
    assert(ps.skip(1).take(k - 1) =~= ps.skip(1));
    string_of(&out)
}

/// What `str::to_lowercase` gives: the Unicode lowercase mapping of every
/// character, a function of the text alone.
pub uninterp spec fn lowercase(s: Seq<char>) -> Seq<char>;

/// `str::to_lowercase`.
#[verifier::external_body]
pub(crate) fn to_lowercase(s: &str) -> (r: String)
    ensures
        r@ == lowercase(s@),
{
    s.to_lowercase()
}

/// Whether `a` and `b` are the same text.
pub fn same_text(a: &str, b: &str) -> (r: bool)
    ensures
        r == (a@ == b@),
{
    a.to_string() == b.to_string()
}

} // verus!
