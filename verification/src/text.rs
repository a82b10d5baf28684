//! Character-level helpers shared by the parsers and formatters.
//!
//! Text is handled as sequences of `char`; every helper states its result
//! over `Seq<char>` so that callers can state theirs the same way.

use vstd::prelude::*;
use vstd::string::*;

verus! {

// ---------------------------------------------------------------------------
// Specifications
// ---------------------------------------------------------------------------

/// Unicode `White_Space`, the set that `char::is_whitespace` and `str::trim` use.
pub open spec fn is_ws(c: char) -> bool {
    ||| ('\u{9}' <= c && c <= '\u{d}')
    ||| c == ' '
    ||| c == '\u{85}'
    ||| c == '\u{a0}'
    ||| c == '\u{1680}'
    ||| ('\u{2000}' <= c && c <= '\u{200a}')
    ||| c == '\u{2028}'
    ||| c == '\u{2029}'
    ||| c == '\u{202f}'
    ||| c == '\u{205f}'
    ||| c == '\u{3000}'
}

/// First index at or after `i` whose character is not whitespace (or `i` past the end).
pub open spec fn skip_ws_from(s: Seq<char>, i: int) -> int
    decreases s.len() - i,
{
    if i >= s.len() || i < 0 || !is_ws(s[i]) {
        i
    } else {
        skip_ws_from(s, i + 1)
    }
}

/// Scanning back from `j`, the end of the text once trailing whitespace above `lo` is dropped.
pub open spec fn skip_ws_back(s: Seq<char>, j: int, lo: int) -> int
    decreases j,
{
    if j <= lo || j <= 0 || j > s.len() || !is_ws(s[j - 1]) {
        j
    } else {
        skip_ws_back(s, j - 1, lo)
    }
}

/// `str::trim`: the text without leading and trailing whitespace.
pub open spec fn trim(s: Seq<char>) -> Seq<char> {
    let a = skip_ws_from(s, 0);
    s.subrange(a, skip_ws_back(s, s.len() as int, a))
}

/// First index at or after `i` holding `c`, or `s.len()` when there is none.
pub open spec fn find_from(s: Seq<char>, c: char, i: int) -> int
    decreases s.len() - i,
{
    if i >= s.len() || i < 0 || s[i] == c {
        if i < 0 { 0 } else if i > s.len() { s.len() as int } else { i }
    } else {
        find_from(s, c, i + 1)
    }
}

/// Last index below `j` holding `c`, or `-1` when there is none.
pub open spec fn rfind_before(s: Seq<char>, c: char, j: int) -> int
    decreases j,
{
    if j <= 0 || j > s.len() {
        -1
    } else if s[j - 1] == c {
        j - 1
    } else {
        rfind_before(s, c, j - 1)
    }
}

/// First index at or after `i` whose character differs from `c`.
pub open spec fn skip_char_from(s: Seq<char>, c: char, i: int) -> int
    decreases s.len() - i,
{
    if i >= s.len() || i < 0 || s[i] != c {
        i
    } else {
        skip_char_from(s, c, i + 1)
    }
}

/// `char::to_ascii_lowercase`.
pub open spec fn lower_char(c: char) -> char {
    if 'A' <= c && c <= 'Z' {
        ((c as u32) + 32) as char
    } else {
        c
    }
}

/// `str::to_ascii_lowercase`.
pub open spec fn lower(s: Seq<char>) -> Seq<char> {
    s.map_values(|c: char| lower_char(c))
}

/// `s` holds `p` at position `i`.
pub open spec fn occurs_at(s: Seq<char>, p: Seq<char>, i: int) -> bool {
    0 <= i && i + p.len() <= s.len() && s.subrange(i, i + p.len()) == p
}

/// `str::contains` with a string pattern.
pub open spec fn contains(s: Seq<char>, p: Seq<char>) -> bool {
    exists|i: int| occurs_at(s, p, i)
}

/// `str::starts_with` with a string pattern.
pub open spec fn starts_with(s: Seq<char>, p: Seq<char>) -> bool {
    p.len() <= s.len() && s.take(p.len() as int) == p
}

/// `str::ends_with` with a string pattern.
pub open spec fn ends_with(s: Seq<char>, p: Seq<char>) -> bool {
    p.len() <= s.len() && s.skip(s.len() - p.len()) == p
}

/// The pieces of `s` from index `i` on, split at every `sep` (`str::split`).
pub open spec fn split_from(s: Seq<char>, sep: char, i: int) -> Seq<Seq<char>>
    decreases s.len() - i,
{
    if i < 0 || i > s.len() {
        Seq::empty()
    } else {
        let k = find_from(s, sep, i);
        if k >= s.len() {
            seq![s.subrange(i, s.len() as int)]
        } else {
            proof {
                lemma_find_from_bounds(s, sep, i);
            }
            seq![s.subrange(i, k)].add(split_from(s, sep, k + 1))
        }
    }
}

/// The pieces of `s` split at every `sep`.
pub open spec fn split(s: Seq<char>, sep: char) -> Seq<Seq<char>> {
    split_from(s, sep, 0)
}

/// `l` without one carriage return at its end.
pub open spec fn strip_cr(l: Seq<char>) -> Seq<char> {
    if l.len() > 0 && l.last() == '\r' {
        l.drop_last()
    } else {
        l
    }
}

/// The lines of `s` (`str::lines`): the pieces between line feeds, each piece that a line
/// feed ends without a carriage return before it; a final line feed ends the last line
/// rather than starting an empty one.
pub open spec fn lines(s: Seq<char>) -> Seq<Seq<char>> {
    let pieces = split(s, '\n');
    let ended = (pieces.len() - 1) as int;
    pieces.take(ended).map_values(|l: Seq<char>| strip_cr(l)) + if pieces.last().len() > 0 {
        seq![pieces.last()]
    } else {
        Seq::<Seq<char>>::empty()
    }
}

pub open spec fn is_digit(c: char) -> bool {
    '0' <= c && c <= '9'
}

pub open spec fn all_digits(s: Seq<char>) -> bool {
    forall|i: int| 0 <= i < s.len() ==> is_digit(#[trigger] s[i])
}

pub open spec fn digit_value(c: char) -> int {
    (c as int) - ('0' as int)
}

/// The number that a run of decimal digits denotes.
pub open spec fn digits_value(s: Seq<char>) -> int
    decreases s.len(),
{
    if s.len() == 0 {
        0
    } else {
        digits_value(s.drop_last()) * 10 + digit_value(s.last())
    }
}

/// What `str::parse` gives for an unsigned integer type whose largest value is `max`:
/// an optional `+`, then at least one decimal digit, denoting at most `max`.
pub open spec fn parse_unsigned(s: Seq<char>, max: int) -> Option<int> {
    let body = if s.len() > 0 && s[0] == '+' { s.drop_first() } else { s };
    if body.len() == 0 || !all_digits(body) || digits_value(body) > max {
        None
    } else {
        Some(digits_value(body))
    }
}

/// What `str::parse::<i64>` gives: an optional sign, then at least one decimal digit,
/// denoting a value in the range of `i64`.
pub open spec fn parse_i64(s: Seq<char>) -> Option<int> {
    let neg = s.len() > 0 && s[0] == '-';
    let body = if s.len() > 0 && (s[0] == '+' || s[0] == '-') { s.drop_first() } else { s };
    if body.len() == 0 || !all_digits(body) {
        None
    } else if neg {
        if digits_value(body) > 0x8000_0000_0000_0000 {
            None
        } else {
            Some(-digits_value(body))
        }
    } else if digits_value(body) > 0x7fff_ffff_ffff_ffff {
        None
    } else {
        Some(digits_value(body))
    }
}

pub open spec fn digit_char(d: nat) -> char {
    ((d + ('0' as int)) as u32) as char
}

/// Decimal digits of `n`, without leading zeros.
pub open spec fn decimal(n: nat) -> Seq<char>
    decreases n,
{
    if n < 10 {
        seq![digit_char(n)]
    } else {
        decimal(n / 10).push(digit_char(n % 10))
    }
}

/// `format!("{:02}", n)`.
pub open spec fn decimal2(n: nat) -> Seq<char> {
    if n < 10 {
        seq!['0', digit_char(n)]
    } else {
        decimal(n)
    }
}

// ---------------------------------------------------------------------------
// Lemmas
// ---------------------------------------------------------------------------

pub proof fn lemma_find_from_bounds(s: Seq<char>, c: char, i: int)
    requires
        0 <= i <= s.len(),
    ensures
        i <= find_from(s, c, i) <= s.len(),
        find_from(s, c, i) < s.len() ==> s[find_from(s, c, i)] == c,
        forall|k: int| i <= k < find_from(s, c, i) ==> s[k] != c,
    decreases s.len() - i,
{
    if i < s.len() && s[i] != c {
        lemma_find_from_bounds(s, c, i + 1);
    }
}

pub proof fn lemma_rfind_before_bounds(s: Seq<char>, c: char, j: int)
    requires
        0 <= j <= s.len(),
    ensures
        -1 <= rfind_before(s, c, j) < j,
        rfind_before(s, c, j) >= 0 ==> s[rfind_before(s, c, j)] == c,
        forall|k: int| rfind_before(s, c, j) < k < j ==> s[k] != c,
    decreases j,
{
    if j > 0 && s[j - 1] != c {
        lemma_rfind_before_bounds(s, c, j - 1);
    }
}

pub proof fn lemma_skip_ws_bounds(s: Seq<char>, i: int)
    requires
        0 <= i <= s.len(),
    ensures
        i <= skip_ws_from(s, i) <= s.len(),
        forall|k: int| i <= k < skip_ws_from(s, i) ==> is_ws(#[trigger] s[k]),
        skip_ws_from(s, i) < s.len() ==> !is_ws(s[skip_ws_from(s, i)]),
    decreases s.len() - i,
{
    if i < s.len() && is_ws(s[i]) {
        lemma_skip_ws_bounds(s, i + 1);
    }
}

pub proof fn lemma_skip_ws_back_bounds(s: Seq<char>, j: int, lo: int)
    requires
        0 <= lo <= j <= s.len(),
    ensures
        lo <= skip_ws_back(s, j, lo) <= j,
    decreases j,
{
    if j > lo && j > 0 && is_ws(s[j - 1]) {
        lemma_skip_ws_back_bounds(s, j - 1, lo);
    }
}

pub proof fn lemma_decimal_len(n: nat)
    ensures
        decimal(n).len() >= 1,
    decreases n,
{
    if n >= 10 {
        lemma_decimal_len(n / 10);
    }
}

// ---------------------------------------------------------------------------
// Trusted edge with std
// ---------------------------------------------------------------------------

/// `String::push`: appends one character to the end of the string.
#[verifier::external_body]
pub fn push_char(s: &mut String, c: char)
    ensures
        final(s)@ == old(s)@.push(c),
{
    s.push(c);
}

// ---------------------------------------------------------------------------
// Executable helpers
// ---------------------------------------------------------------------------

/// The characters of `s`, in order.
pub fn chars_of(s: &str) -> (v: Vec<char>)
    ensures
        v@ == s@,
{
    let mut v: Vec<char> = Vec::new();
    for c in it: s.chars()
        invariant
            v@ == it.seq().take(it.index()),
    {
        v.push(c);
    }
    v
}

/// A `String` holding exactly the characters of `v`.
pub fn string_of(v: &[char]) -> (s: String)
    ensures
        s@ == v@,
{
    let mut s = String::new();
    let mut i: usize = 0;
    while i < v.len()
        invariant
            i <= v.len(),
            s@ == v@.take(i as int),
        decreases v.len() - i,
    {
        push_char(&mut s, v[i]);
        assert(v@.take(i as int).push(v@[i as int]) =~= v@.take(i + 1));
        i += 1;
    }
    assert(v@.take(v.len() as int) =~= v@);
    s
}

/// The characters `v[a..b]`.
pub fn slice_chars(v: &[char], a: usize, b: usize) -> (r: Vec<char>)
    requires
        a <= b <= v.len(),
    ensures
        r@ == v@.subrange(a as int, b as int),
{
    let mut r: Vec<char> = Vec::new();
    let mut i = a;
    while i < b
        invariant
            a <= i <= b <= v.len(),
            r@ == v@.subrange(a as int, i as int),
        decreases b - i,
    {
        r.push(v[i]);
        assert(v@.subrange(a as int, i as int).push(v@[i as int]) =~= v@.subrange(a as int, i + 1));
        i += 1;
    }
    r
}

/// `char::is_whitespace`.
pub fn is_whitespace(c: char) -> (r: bool)
    ensures
        r == is_ws(c),
{
    ('\u{9}' <= c && c <= '\u{d}') || c == ' ' || c == '\u{85}' || c == '\u{a0}' || c == '\u{1680}'
        || ('\u{2000}' <= c && c <= '\u{200a}') || c == '\u{2028}' || c == '\u{2029}' || c
        == '\u{202f}' || c == '\u{205f}' || c == '\u{3000}'
}

/// `str::trim`.
pub fn trim_chars(v: &[char]) -> (r: Vec<char>)
    ensures
        r@ == trim(v@),
{
    let n = v.len();
    let mut a: usize = 0;
    while a < n && is_whitespace(v[a])
        invariant
            a <= n == v@.len(),
            skip_ws_from(v@, a as int) == skip_ws_from(v@, 0),
        decreases n - a,
    {
        a += 1;
    }
    let mut b: usize = n;
    while b > a && is_whitespace(v[b - 1])
        invariant
            a <= b <= n == v@.len(),
            skip_ws_from(v@, 0) == a,
            skip_ws_back(v@, b as int, a as int) == skip_ws_back(v@, n as int, a as int),
        decreases b,
    {
        b -= 1;
    }
    slice_chars(v, a, b)
}

/// Index of the first `c` at or after `from`, or `v.len()`.
pub fn find_char(v: &[char], c: char, from: usize) -> (k: usize)
    requires
        from <= v.len(),
    ensures
        k == find_from(v@, c, from as int),
        from <= k <= v.len(),
{
    proof {
        lemma_find_from_bounds(v@, c, from as int);
    }
    let mut k = from;
    while k < v.len() && v[k] != c
        invariant
            from <= k <= v.len(),
            find_from(v@, c, k as int) == find_from(v@, c, from as int),
        decreases v.len() - k,
    {
        k += 1;
    }
    k
}

/// Index of the last `c`, if there is one.
pub fn rfind_char(v: &[char], c: char) -> (k: Option<usize>)
    ensures
        match k {
            Some(i) => i == rfind_before(v@, c, v@.len() as int) && i < v@.len(),
            None => rfind_before(v@, c, v@.len() as int) == -1,
        },
{
    let mut j = v.len();
    while j > 0 && v[j - 1] != c
        invariant
            j <= v.len(),
            rfind_before(v@, c, j as int) == rfind_before(v@, c, v@.len() as int),
        decreases j,
    {
        j -= 1;
    }
    if j == 0 {
        None
    } else {
        Some(j - 1)
    }
}

/// Index of the first character at or after `from` that is not `c`.
pub fn skip_char(v: &[char], c: char, from: usize) -> (k: usize)
    requires
        from <= v.len(),
    ensures
        k == skip_char_from(v@, c, from as int),
        from <= k <= v.len(),
{
    let mut k = from;
    while k < v.len() && v[k] == c
        invariant
            from <= k <= v.len(),
            skip_char_from(v@, c, k as int) == skip_char_from(v@, c, from as int),
        decreases v.len() - k,
    {
        k += 1;
    }
    k
}

/// `char::to_ascii_lowercase`.
pub fn lower_ascii(c: char) -> (r: char)
    ensures
        r == lower_char(c),
{
    if 'A' <= c && c <= 'Z' {
        let code = c as u32 + 32;
        char_from_ascii(code)
    } else {
        c
    }
}

/// The character with the code `code`, which lies in the ASCII range.
fn char_from_ascii(code: u32) -> (r: char)
    requires
        code < 128,
    ensures
        r == code as char,
{
    (code as u8) as char
}

/// `str::to_ascii_lowercase`.
pub fn lower_chars(v: &[char]) -> (r: Vec<char>)
    ensures
        r@ == lower(v@),
{
    let mut r: Vec<char> = Vec::new();
    let mut i: usize = 0;
    while i < v.len()
        invariant
            i <= v.len(),
            r@ == lower(v@.take(i as int)),
        decreases v.len() - i,
    {
        r.push(lower_ascii(v[i]));
        assert(lower(v@.take(i + 1)) =~= lower(v@.take(i as int)).push(lower_char(v@[i as int])));
        i += 1;
    }
    assert(v@.take(v.len() as int) =~= v@);
    r
}

/// Whether `v` holds `p` at position `i`.
pub fn occurs_at_exec(v: &[char], p: &[char], i: usize) -> (r: bool)
    ensures
        r == occurs_at(v@, p@, i as int),
{
    if i > v.len() || p.len() > v.len() - i {
        return false;
    }
    let mut k: usize = 0;
    while k < p.len()
        invariant
            i + p.len() <= v.len(),
            k <= p.len(),
            forall|m: int| 0 <= m < k ==> v@[i + m] == p@[m],
        decreases p.len() - k,
    {
        if v[i + k] != p[k] {
            assert(v@.subrange(i as int, i + p.len())[k as int] != p@[k as int]);
            return false;
        }
        k += 1;
    }
    assert(v@.subrange(i as int, i + p.len()) =~= p@);
    true
}

/// `str::starts_with` with a string pattern.
pub fn starts_with_str(v: &[char], p: &str) -> (r: bool)
    ensures
        r == starts_with(v@, p@),
{
    let pv = chars_of(p);
    let r = occurs_at_exec(v, &pv, 0);
    proof {
        if r {
            assert(v@.take(p@.len() as int) =~= v@.subrange(0, p@.len() as int));
        } else if p@.len() <= v@.len() {
            assert(v@.take(p@.len() as int) =~= v@.subrange(0, p@.len() as int));
        }
    }
    r
}

/// `str::ends_with` with a string pattern.
pub fn ends_with_str(v: &[char], p: &str) -> (r: bool)
    ensures
        r == ends_with(v@, p@),
{
    let pv = chars_of(p);
    if pv.len() > v.len() {
        return false;
    }
    let at = v.len() - pv.len();
    let r = occurs_at_exec(v, &pv, at);
    assert(v@.skip(at as int) =~= v@.subrange(at as int, at + pv@.len()));
    r
}

/// `str::contains` with a string pattern.
pub fn contains_str(v: &[char], p: &str) -> (r: bool)
    ensures
        r == contains(v@, p@),
{
    let pv = chars_of(p);
    if pv.len() > v.len() {
        return false;
    }
    let last = v.len() - pv.len();
    let mut i: usize = 0;
    loop
        invariant
            last + pv@.len() == v@.len(),
            pv@ == p@,
            i <= last,
            forall|k: int| 0 <= k < i ==> !occurs_at(v@, p@, k),
        ensures
            forall|k: int| 0 <= k <= last ==> !occurs_at(v@, p@, k),
        decreases last - i,
    {
        if occurs_at_exec(v, &pv, i) {
            return true;
        }
        if i >= last {
            break;
        }
        i += 1;
    }
    assert forall|k: int| !occurs_at(v@, p@, k) by {
        if 0 <= k && k + p@.len() <= v@.len() {
            assert(k <= last);
        }
    }
    false
}

/// Whether `v` spells exactly `p`.
pub fn equals_str(v: &[char], p: &str) -> (r: bool)
    ensures
        r == (v@ == p@),
{
    let pv = chars_of(p);
    if pv.len() != v.len() {
        return false;
    }
    let r = occurs_at_exec(v, &pv, 0);
    assert(v@.subrange(0, pv@.len() as int) =~= v@);
    r
}

/// The pieces of `v` split at every `sep` (`str::split`).
pub fn split_chars(v: &[char], sep: char) -> (r: Vec<Vec<char>>)
    ensures
        r@.map_values(|p: Vec<char>| p@) == split(v@, sep),
{
    let ghost s = v@;
    let mut r: Vec<Vec<char>> = Vec::new();
    let mut start: usize = 0;
    loop
        invariant
            s == v@,
            start <= v.len(),
            r@.map_values(|p: Vec<char>| p@) + split_from(s, sep, start as int) == split(s, sep),
        decreases v.len() - start,
    {
        let k = find_char(v, sep, start);
        let piece = slice_chars(v, start, k);
        let ghost before = r@.map_values(|p: Vec<char>| p@);
        r.push(piece);
        assert(r@.map_values(|p: Vec<char>| p@) =~= before.push(piece@));
        if k >= v.len() {
            assert(split_from(s, sep, start as int) =~= seq![piece@]);
            assert(before + seq![piece@] =~= before.push(piece@));
            return r;
        }
        assert(split_from(s, sep, start as int) =~= seq![piece@].add(split_from(s, sep, k + 1)));
        assert(before + (seq![piece@] + split_from(s, sep, k + 1)) =~= before.push(piece@) + split_from(s, sep, k + 1));
        start = k + 1;
    }
}

/// The lines of `v` (`str::lines`).
pub fn lines_chars(v: &[char]) -> (r: Vec<Vec<char>>)
    ensures
        r@.map_values(|p: Vec<char>| p@) == lines(v@),
{
    let pieces = split_chars(v, '\n');
    let ghost ps = split(v@, '\n');
    assert(ps.len() >= 1) by {
        reveal_with_fuel(split_from, 2);
    }
    assert(pieces@.len() == ps.len());
    let ended = pieces.len() - 1;
    let mut r: Vec<Vec<char>> = Vec::new();
    let mut i: usize = 0;
    while i < ended
        invariant
            ended == ps.len() - 1,
            i <= ended,
            pieces@.map_values(|p: Vec<char>| p@) == ps,
            r@.map_values(|p: Vec<char>| p@) == ps.take(i as int).map_values(
                |l: Seq<char>| strip_cr(l),
            ),
        decreases ended - i,
    {
        let piece = &pieces[i];
        assert(piece@ == ps[i as int]);
        let n = piece.len();
        let line = if n > 0 && piece[n - 1] == '\r' {
            slice_chars(piece, 0, n - 1)
        } else {
            slice_chars(piece, 0, n)
        };
        assert(line@ =~= strip_cr(ps[i as int]));
        let ghost before = r@.map_values(|p: Vec<char>| p@);
        r.push(line);
        assert(r@.map_values(|p: Vec<char>| p@) =~= before.push(line@));
        assert(ps.take(i + 1).map_values(|l: Seq<char>| strip_cr(l)) =~= ps.take(
            i as int,
        ).map_values(|l: Seq<char>| strip_cr(l)).push(strip_cr(ps[i as int])));
        i += 1;
    }
    let last = &pieces[ended];
    assert(last@ == ps.last());
    if last.len() > 0 {
        let ghost before = r@.map_values(|p: Vec<char>| p@);
        let tail = slice_chars(last, 0, last.len());
        assert(tail@ =~= ps.last());
        r.push(tail);
        assert(r@.map_values(|p: Vec<char>| p@) =~= before + seq![ps.last()]);
    } else {
        assert(r@.map_values(|p: Vec<char>| p@) =~= r@.map_values(|p: Vec<char>| p@)
            + Seq::<Seq<char>>::empty());
    }
    r
}

/// Appends the decimal digits of `n` to `out`.
pub fn push_decimal(out: &mut String, n: u64)
    ensures
        final(out)@ == old(out)@ + decimal(n as nat),
    decreases n,
{
    if n < 10 {
        push_char(out, digit_of(n));
        assert(old(out)@.push(digit_char(n as nat)) =~= old(out)@ + decimal(n as nat));
    } else {
        push_decimal(out, n / 10);
        push_char(out, digit_of(n % 10));
        assert(old(out)@ + decimal((n / 10) as nat) + seq![digit_char((n % 10) as nat)] =~= old(out)@
            + decimal(n as nat));
    }
}

/// Appends `format!("{:02}", n)` to `out`.
pub fn push_decimal2(out: &mut String, n: u64)
    ensures
        final(out)@ == old(out)@ + decimal2(n as nat),
{
    if n < 10 {
        push_char(out, '0');
        push_char(out, digit_of(n));
        assert(old(out)@.push('0').push(digit_char(n as nat)) =~= old(out)@ + decimal2(n as nat));
    } else {
        push_decimal(out, n);
    }
}

/// The decimal digit character for `d`.
pub fn digit_of(d: u64) -> (c: char)
    requires
        d < 10,
    ensures
        c == digit_char(d as nat),
{
    char_from_ascii(d as u32 + 48)
}

/// Value of the digits `v[from..]` capped at `cap`, or `None` if one is not a digit.
fn capped_digits(v: &[char], from: usize, cap: u128) -> (r: Option<u128>)
    requires
        from <= v.len(),
        cap < 0x1_0000_0000_0000_0000_0000,
    ensures
        match r {
            Some(x) => all_digits(v@.skip(from as int)) && x as int == if digits_value(v@.skip(from as int)) < cap {
                digits_value(v@.skip(from as int))
            } else {
                cap as int
            },
            None => !all_digits(v@.skip(from as int)),
        },
{
    let ghost body = v@.skip(from as int);
    let mut acc: u128 = 0;
    let mut i = from;
    while i < v.len()
        invariant
            from <= i <= v.len(),
            body == v@.skip(from as int),
            cap < 0x1_0000_0000_0000_0000_0000,
            all_digits(body.take(i - from)),
            acc <= cap,
            acc as int == if digits_value(body.take(i - from)) < cap {
                digits_value(body.take(i - from))
            } else {
                cap as int
            },
        decreases v.len() - i,
    {
        let c = v[i];
        if !('0' <= c && c <= '9') {
            assert(body[i - from] == c);
            return None;
        }
        let d = (c as u32 - '0' as u32) as u128;
        let ghost prev = body.take(i - from);
        let ghost next = body.take(i - from + 1);
        assert(next.drop_last() =~= prev);
        assert(next.last() == c);
        proof {
            lemma_digits_nonneg(prev);
        }
        let grown = if acc >= cap / 10 + 1 { cap } else {
            let t = acc * 10 + d;
            if t > cap { cap } else { t }
        };
        proof {
            let dv = digits_value(prev);
            assert(digits_value(next) == dv * 10 + d);
            if dv >= cap {
                assert(dv * 10 + d >= cap) by (nonlinear_arith)
                    requires dv >= cap, d >= 0, cap >= 0;
            }
            if acc >= cap / 10 + 1 {
                assert(acc * 10 >= cap) by (nonlinear_arith)
                    requires acc >= cap / 10 + 1, cap >= 0;
                assert(dv * 10 >= acc * 10) by (nonlinear_arith)
                    requires dv >= acc;
            }
        }
        acc = grown;
        i += 1;
        assert(all_digits(next));
    }
    assert(body.take(v.len() - from) =~= body);
    Some(acc)
}

proof fn lemma_digits_nonneg(s: Seq<char>)
    requires
        all_digits(s),
    ensures
        digits_value(s) >= 0,
    decreases s.len(),
{
    if s.len() > 0 {
        assert(all_digits(s.drop_last()));
        lemma_digits_nonneg(s.drop_last());
    }
}

/// `str::parse` for an unsigned type whose largest value is `max`.
pub fn parse_unsigned_chars(v: &[char], max: u64) -> (r: Option<u64>)
    ensures
        match r {
            Some(x) => parse_unsigned(v@, max as int) == Some(x as int),
            None => parse_unsigned(v@, max as int) is None,
        },
{
    let from: usize = if v.len() > 0 && v[0] == '+' { 1 } else { 0 };
    let ghost body = if v@.len() > 0 && v@[0] == '+' { v@.drop_first() } else { v@ };
    assert(v@.skip(from as int) =~= body);
    if from >= v.len() {
        return None;
    }
    let cap: u128 = max as u128 + 1;
    match capped_digits(v, from, cap) {
        Some(x) => {
            if x > max as u128 {
                None
            } else {
                Some(x as u64)
            }
        },
        None => None,
    }
}

/// `str::parse::<u8>`.
pub fn parse_u8_chars(v: &[char]) -> (r: Option<u8>)
    ensures
        match r {
            Some(x) => parse_unsigned(v@, 255) == Some(x as int),
            None => parse_unsigned(v@, 255) is None,
        },
{
    match parse_unsigned_chars(v, 255) {
        Some(x) => Some(x as u8),
        None => None,
    }
}

/// `str::parse::<usize>`.
pub fn parse_usize_chars(v: &[char]) -> (r: Option<usize>)
    ensures
        match r {
            Some(x) => parse_unsigned(v@, usize::MAX as int) == Some(x as int),
            None => parse_unsigned(v@, usize::MAX as int) is None,
        },
{
    match parse_unsigned_chars(v, usize::MAX as u64) {
        Some(x) => Some(x as usize),
        None => None,
    }
}

/// `str::parse::<i64>`.
pub fn parse_i64_chars(v: &[char]) -> (r: Option<i64>)
    ensures
        match r {
            Some(x) => parse_i64(v@) == Some(x as int),
            None => parse_i64(v@) is None,
        },
{
    let signed = v.len() > 0 && (v[0] == '+' || v[0] == '-');
    let neg = v.len() > 0 && v[0] == '-';
    let from: usize = if signed { 1 } else { 0 };
    let ghost body = if v@.len() > 0 && (v@[0] == '+' || v@[0] == '-') { v@.drop_first() } else { v@ };
    assert(v@.skip(from as int) =~= body);
    if from >= v.len() {
        return None;
    }
    let cap: u128 = 0x8000_0000_0000_0001;
    match capped_digits(v, from, cap) {
        Some(x) => {
            if neg {
                if x > 0x8000_0000_0000_0000 {
                    None
                } else if x == 0x8000_0000_0000_0000 {
                    Some(i64::MIN)
                } else {
                    Some(-(x as i64))
                }
            } else if x > 0x7fff_ffff_ffff_ffff {
                None
            } else {
                Some(x as i64)
            }
        },
        None => None,
    }
}

} // verus!
