//! Character-level helpers on strings, stated over `Seq<char>`.
//!
//! The scanners here follow the definitions that `str` documents: a line ends
//! at `\n` (a `\r` just before it belongs to the terminator), words are the
//! maximal runs of characters that are not Unicode `White_Space`, and `trim`
//! drops that same white space at both ends.
use vstd::prelude::*;

verus! {

/// Appends one character to a `String` (`String::push`).
#[verifier::external_body]
pub(crate) fn push_char(s: &mut String, c: char)
    ensures
        final(s)@ == old(s)@.push(c),
{
    s.push(c);
}

/// Unicode `White_Space`, the property that `char::is_whitespace` tests.
pub open spec fn is_space(c: char) -> bool {
    let u = c as u32;
    (0x09 <= u && u <= 0x0D) || u == 0x20 || u == 0x85 || u == 0xA0 || u == 0x1680 || (0x2000
        <= u && u <= 0x200A) || u == 0x2028 || u == 0x2029 || u == 0x202F || u == 0x205F || u
        == 0x3000
}

/// `char::is_ascii_whitespace`: space, tab, line feed, form feed, carriage
/// return.
pub open spec fn is_ascii_space(c: char) -> bool {
    c == ' ' || c == '\t' || c == '\n' || c == '\x0C' || c == '\r'
}

pub open spec fn is_ascii_upper(c: char) -> bool {
    'A' <= c && c <= 'Z'
}

pub open spec fn is_ascii_lower(c: char) -> bool {
    'a' <= c && c <= 'z'
}

pub open spec fn is_ascii_digit(c: char) -> bool {
    '0' <= c && c <= '9'
}

pub open spec fn is_ascii_alpha(c: char) -> bool {
    is_ascii_upper(c) || is_ascii_lower(c)
}

pub open spec fn is_ascii_alnum(c: char) -> bool {
    is_ascii_alpha(c) || is_ascii_digit(c)
}

/// `char::to_ascii_lowercase`.
pub open spec fn lower_char(c: char) -> char {
    if is_ascii_upper(c) {
        ((c as u32) + 32) as char
    } else {
        c
    }
}

/// `str::to_ascii_lowercase`.
pub open spec fn ascii_lower(s: Seq<char>) -> Seq<char> {
    s.map_values(|c: char| lower_char(c))
}

/// What a scan looks for.
pub enum CharClass {
    Is(char),
    Space,
    NonSpace,
    AsciiAlpha,
    AsciiSpace,
    NonAsciiSpace,
}

pub open spec fn in_class(k: CharClass, c: char) -> bool {
    match k {
        CharClass::Is(x) => c == x,
        CharClass::Space => is_space(c),
        CharClass::NonSpace => !is_space(c),
        CharClass::AsciiAlpha => is_ascii_alpha(c),
        CharClass::AsciiSpace => is_ascii_space(c),
        CharClass::NonAsciiSpace => !is_ascii_space(c),
    }
}

/// The first index at or after `i` whose character is in class `k`, or the
/// length of `s` where there is none.
pub open spec fn scan(s: Seq<char>, i: int, k: CharClass) -> int
    decreases s.len() - i,
{
    if i >= s.len() {
        s.len() as int
    } else if in_class(k, s[i]) {
        i
    } else {
        scan(s, i + 1, k)
    }
}

pub proof fn lemma_scan(s: Seq<char>, i: int, k: CharClass)
    requires
        0 <= i <= s.len(),
    ensures
        i <= scan(s, i, k) <= s.len(),
        scan(s, i, k) < s.len() ==> in_class(k, s[scan(s, i, k)]),
        forall|j: int| i <= j < scan(s, i, k) ==> !in_class(k, #[trigger] s[j]),
    decreases s.len() - i,
{
    if i < s.len() && !in_class(k, s[i]) {
        lemma_scan(s, i + 1, k);
    }
}

/// A `\r` that closes a line belongs to its terminator.
pub open spec fn strip_cr(line: Seq<char>) -> Seq<char> {
    if line.len() > 0 && line.last() == '\r' {
        line.drop_last()
    } else {
        line
    }
}

/// `str::lines` on the suffix of `s` that starts at `i`.
pub open spec fn lines_from(s: Seq<char>, i: int) -> Seq<Seq<char>>
    decreases s.len() - i,
{
    if i < 0 || i >= s.len() {
        seq![]
    } else {
        let j = scan(s, i, CharClass::Is('\n'));
        if j >= s.len() {
            seq![s.subrange(i, s.len() as int)]
        } else {
            proof {
                lemma_scan(s, i, CharClass::Is('\n'));
            }
            seq![strip_cr(s.subrange(i, j))] + lines_from(s, j + 1)
        }
    }
}

/// `str::lines`.
pub open spec fn lines(s: Seq<char>) -> Seq<Seq<char>> {
    lines_from(s, 0)
}

/// `str::split_whitespace` on the suffix of `s` that starts at `i`.
pub open spec fn words_from(s: Seq<char>, i: int) -> Seq<Seq<char>>
    decreases s.len() - i,
{
    if i < 0 || i >= s.len() {
        seq![]
    } else {
        let a = scan(s, i, CharClass::NonSpace);
        if a >= s.len() {
            seq![]
        } else {
            let b = scan(s, a, CharClass::Space);
            proof {
                lemma_scan(s, i, CharClass::NonSpace);
                lemma_scan(s, a, CharClass::Space);
            }
            seq![s.subrange(a, b)] + words_from(s, b)
        }
    }
}

/// `str::split_whitespace`.
pub open spec fn words(s: Seq<char>) -> Seq<Seq<char>> {
    words_from(s, 0)
}

/// `str::split_ascii_whitespace` on the suffix of `s` that starts at `i`.
pub open spec fn ascii_words_from(s: Seq<char>, i: int) -> Seq<Seq<char>>
    decreases s.len() - i,
{
    if i < 0 || i >= s.len() {
        seq![]
    } else {
        let a = scan(s, i, CharClass::NonAsciiSpace);
        if a >= s.len() {
            seq![]
        } else {
            let b = scan(s, a, CharClass::AsciiSpace);
            proof {
                lemma_scan(s, i, CharClass::NonAsciiSpace);
                lemma_scan(s, a, CharClass::AsciiSpace);
            }
            seq![s.subrange(a, b)] + ascii_words_from(s, b)
        }
    }
}

/// `str::split_ascii_whitespace`.
pub open spec fn ascii_words(s: Seq<char>) -> Seq<Seq<char>> {
    ascii_words_from(s, 0)
}

/// `str::split` on one character, from index `i` on.
pub open spec fn split_from(s: Seq<char>, i: int, c: char) -> Seq<Seq<char>>
    decreases s.len() - i,
{
    if i < 0 || i > s.len() {
        seq![]
    } else {
        let j = scan(s, i, CharClass::Is(c));
        if j >= s.len() {
            seq![s.subrange(i, s.len() as int)]
        } else {
            proof {
                lemma_scan(s, i, CharClass::Is(c));
            }
            seq![s.subrange(i, j)] + split_from(s, j + 1, c)
        }
    }
}

/// `str::split` on one character: every piece, empty ones included.
pub open spec fn split_on(s: Seq<char>, c: char) -> Seq<Seq<char>> {
    split_from(s, 0, c)
}

/// The index of the first character of `s` that is not white space.
pub open spec fn trim_start_index(s: Seq<char>) -> int {
    scan(s, 0, CharClass::NonSpace)
}

/// One past the last character of `s` that is not white space (0 if none).
pub open spec fn trim_end_index(s: Seq<char>) -> int
    decreases s.len(),
{
    if s.len() == 0 {
        0
    } else if !is_space(s.last()) {
        s.len() as int
    } else {
        trim_end_index(s.drop_last())
    }
}

/// `str::trim`.
pub open spec fn trim(s: Seq<char>) -> Seq<char> {
    let a = trim_start_index(s);
    let b = trim_end_index(s);
    if a < b {
        s.subrange(a, b)
    } else {
        seq![]
    }
}

pub open spec fn starts_with(s: Seq<char>, p: Seq<char>) -> bool {
    p.len() <= s.len() && s.take(p.len() as int) == p
}

pub proof fn lemma_trim_end_index(s: Seq<char>)
    ensures
        0 <= trim_end_index(s) <= s.len(),
        trim_end_index(s) > 0 ==> !is_space(s[trim_end_index(s) - 1]),
        forall|j: int| trim_end_index(s) <= j < s.len() ==> is_space(#[trigger] s[j]),
    decreases s.len(),
{
    if s.len() > 0 && is_space(s.last()) {
        lemma_trim_end_index(s.drop_last());
        assert forall|j: int| trim_end_index(s) <= j < s.len() implies is_space(#[trigger] s[j]) by {
            if j < s.len() - 1 {
                assert(s.drop_last()[j] == s[j]);
            }
        }
    }
}

/// The characters of `s`, in order.
pub fn chars_of(s: &str) -> (r: Vec<char>)
    ensures
        r@ == s@,
{
    let mut out: Vec<char> = Vec::new();
    for c in it: s.chars()
        invariant
            out@ == it.seq().take(it.index() as int),
            it.seq() == s@,
    {
        out.push(c);
    }
    out
}

/// A `String` holding the characters of `s`.
pub fn string_of(s: &[char]) -> (r: String)
    ensures
        r@ == s@,
{
    let mut out = String::new();
    let mut i: usize = 0;
    while i < s.len()
        invariant
            i <= s@.len(),
            out@ == s@.take(i as int),
        decreases s@.len() - i,
    {
        push_char(&mut out, s[i]);
        assert(s@.take(i as int).push(s@[i as int]) =~= s@.take(i + 1));
        i += 1;
    }
    assert(s@.take(s@.len() as int) =~= s@);
    out
}

pub fn char_is_space(c: char) -> (r: bool)
    ensures
        r == is_space(c),
{
    let u = c as u32;
    (0x09 <= u && u <= 0x0D) || u == 0x20 || u == 0x85 || u == 0xA0 || u == 0x1680 || (0x2000
        <= u && u <= 0x200A) || u == 0x2028 || u == 0x2029 || u == 0x202F || u == 0x205F || u
        == 0x3000
}

pub fn char_lower(c: char) -> (r: char)
    ensures
        r == lower_char(c),
{
    if 'A' <= c && c <= 'Z' {
        let u: u32 = c as u32;
        let b: u8 = (u as u8) + 32;
        assert(b as u32 == u + 32);
        b as char
    } else {
        c
    }
}

pub fn chars_eq(a: &[char], b: &[char]) -> (r: bool)
    ensures
        r == (a@ == b@),
{
    if a.len() != b.len() {
        return false;
    }
    let mut i: usize = 0;
    while i < a.len()
        invariant
            a@.len() == b@.len(),
            i <= a@.len(),
            forall|j: int| 0 <= j < i ==> a@[j] == b@[j],
        decreases a@.len() - i,
    {
        if a[i] != b[i] {
            return false;
        }
        i += 1;
    }
    assert(a@ =~= b@);
    true
}

/// Whether `a` holds exactly the characters of the literal `lit`.
pub fn chars_eq_str(a: &[char], lit: &str) -> (r: bool)
    ensures
        r == (a@ == lit@),
{
    let b = chars_of(lit);
    chars_eq(a, b.as_slice())
}

pub fn chars_starts_with(s: &[char], p: &[char]) -> (r: bool)
    ensures
        r == starts_with(s@, p@),
{
    if p.len() > s.len() {
        return false;
    }
    let mut i: usize = 0;
    while i < p.len()
        invariant
            p@.len() <= s@.len(),
            i <= p@.len(),
            forall|j: int| 0 <= j < i ==> s@[j] == p@[j],
        decreases p@.len() - i,
    {
        if s[i] != p[i] {
            assert(s@.take(p@.len() as int)[i as int] != p@[i as int]);
            return false;
        }
        i += 1;
    }
    assert(s@.take(p@.len() as int) =~= p@);
    true
}

pub fn chars_starts_with_str(s: &[char], lit: &str) -> (r: bool)
    ensures
        r == starts_with(s@, lit@),
{
    let p = chars_of(lit);
    chars_starts_with(s, p.as_slice())
}

pub fn contains_char(s: &[char], c: char) -> (r: bool)
    ensures
        r == s@.contains(c),
{
    let mut i: usize = 0;
    while i < s.len()
        invariant
            i <= s@.len(),
            forall|j: int| 0 <= j < i ==> s@[j] != c,
        decreases s@.len() - i,
    {
        if s[i] == c {
            assert(s@[i as int] == c);
            return true;
        }
        i += 1;
    }
    false
}

/// A copy of `s[lo..hi]`.
pub fn sub_chars(s: &[char], lo: usize, hi: usize) -> (r: Vec<char>)
    requires
        lo <= hi <= s@.len(),
    ensures
        r@ == s@.subrange(lo as int, hi as int),
{
    let mut out: Vec<char> = Vec::new();
    let mut i = lo;
    while i < hi
        invariant
            lo <= i <= hi <= s@.len(),
            out@ == s@.subrange(lo as int, i as int),
        decreases hi - i,
    {
        out.push(s[i]);
        assert(s@.subrange(lo as int, i as int).push(s@[i as int]) =~= s@.subrange(
            lo as int,
            i + 1,
        ));
        i += 1;
    }
    out
}

/// `s.to_ascii_lowercase()`.
pub fn to_ascii_lower(s: &[char]) -> (r: Vec<char>)
    ensures
        r@ == ascii_lower(s@),
{
    let mut out: Vec<char> = Vec::new();
    let mut i: usize = 0;
    while i < s.len()
        invariant
            i <= s@.len(),
            out@ == ascii_lower(s@.take(i as int)),
        decreases s@.len() - i,
    {
        let c = char_lower(s[i]);
        out.push(c);
        assert(ascii_lower(s@.take(i as int)).push(c) =~= ascii_lower(s@.take(i + 1)));
        i += 1;
    }
    assert(s@.take(s@.len() as int) =~= s@);
    out
}

/// The index `scan(s, i, k)`.
pub fn scan_exec(s: &[char], i: usize, k: &CharClass) -> (r: usize)
    requires
        i <= s@.len(),
    ensures
        r == scan(s@, i as int, *k),
{
    let mut j = i;
    while j < s.len()
        invariant
            i <= j <= s@.len(),
            scan(s@, i as int, *k) == scan(s@, j as int, *k),
        decreases s@.len() - j,
    {
        let c = s[j];
        let hit = match k {
            CharClass::Is(x) => c == *x,
            CharClass::Space => char_is_space(c),
            CharClass::NonSpace => !char_is_space(c),
            CharClass::AsciiAlpha => ('a' <= c && c <= 'z') || ('A' <= c && c <= 'Z'),
            CharClass::AsciiSpace => c == ' ' || c == '\t' || c == '\n' || c == '\x0C' || c
                == '\r',
            CharClass::NonAsciiSpace => !(c == ' ' || c == '\t' || c == '\n' || c == '\x0C' || c
                == '\r'),
        };
        if hit {
            return j;
        }
        j += 1;
    }
    j
}

/// `s.trim()`.
pub fn trim_chars(s: &[char]) -> (r: Vec<char>)
    ensures
        r@ == trim(s@),
{
    let a = scan_exec(s, 0, &CharClass::NonSpace);
    let mut b = s.len();
    assert(s@.take(s@.len() as int) =~= s@);
    while b > 0 && char_is_space(s[b - 1])
        invariant
            b <= s@.len(),
            trim_end_index(s@) == trim_end_index(s@.take(b as int)),
        decreases b,
    {
        assert(s@.take(b as int).drop_last() =~= s@.take(b - 1));
        b -= 1;
    }
    proof {
        assert(s@.take(s@.len() as int) =~= s@);
        if b > 0 {
            assert(s@.take(b as int).last() == s@[b - 1]);
        }
    }
    if a < b {
        sub_chars(s, a, b)
    } else {
        Vec::new()
    }
}

/// `s.lines()`.
pub fn lines_of(s: &[char]) -> (r: Vec<Vec<char>>)
    ensures
        r@.map_values(|v: Vec<char>| v@) == lines(s@),
{
    let mut out: Vec<Vec<char>> = Vec::new();
    let mut i: usize = 0;
    while i < s.len()
        invariant
            i <= s@.len(),
            out@.map_values(|v: Vec<char>| v@) + lines_from(s@, i as int) == lines(s@),
        decreases s@.len() - i,
    {
        let ghost old_out = out@;
        let j = scan_exec(s, i, &CharClass::Is('\n'));
        proof {
            lemma_scan(s@, i as int, CharClass::Is('\n'));
        }
        if j >= s.len() {
            let piece = sub_chars(s, i, s.len());
            out.push(piece);
            assert(out@.map_values(|v: Vec<char>| v@) =~= old_out.map_values(|v: Vec<char>| v@)
                + lines_from(s@, i as int));
            assert(lines_from(s@, s@.len() as int) =~= seq![]);
            i = s.len();
        } else {
            let mut piece = sub_chars(s, i, j);
            let plen = piece.len();
            if plen > 0 && piece[plen - 1] == '\r' {
                piece.pop();
                assert(piece@ =~= strip_cr(s@.subrange(i as int, j as int)));
            }
            out.push(piece);
            assert(out@.map_values(|v: Vec<char>| v@) =~= old_out.map_values(|v: Vec<char>| v@)
                + seq![strip_cr(s@.subrange(i as int, j as int))]);
            i = j + 1;
        }
    }
    assert(lines_from(s@, i as int) =~= seq![]);
    assert(out@.map_values(|v: Vec<char>| v@) + seq![] =~= out@.map_values(|v: Vec<char>| v@));
    out
}

/// `s.split_whitespace()`.
pub fn words_of(s: &[char]) -> (r: Vec<Vec<char>>)
    ensures
        r@.map_values(|v: Vec<char>| v@) == words(s@),
{
    let mut out: Vec<Vec<char>> = Vec::new();
    let mut i: usize = 0;
    while i < s.len()
        invariant
            i <= s@.len(),
            out@.map_values(|v: Vec<char>| v@) + words_from(s@, i as int) == words(s@),
        decreases s@.len() - i,
    {
        let ghost old_out = out@;
        let a = scan_exec(s, i, &CharClass::NonSpace);
        proof {
            lemma_scan(s@, i as int, CharClass::NonSpace);
        }
        if a >= s.len() {
            assert(words_from(s@, i as int) =~= seq![]);
            assert(words_from(s@, s@.len() as int) =~= seq![]);
            i = s.len();
        } else {
            let b = scan_exec(s, a, &CharClass::Space);
            proof {
                lemma_scan(s@, a as int, CharClass::Space);
            }
            let piece = sub_chars(s, a, b);
            out.push(piece);
            assert(out@.map_values(|v: Vec<char>| v@) =~= old_out.map_values(|v: Vec<char>| v@)
                + seq![s@.subrange(a as int, b as int)]);
            i = b;
        }
    }
    assert(words_from(s@, i as int) =~= seq![]);
    assert(out@.map_values(|v: Vec<char>| v@) + seq![] =~= out@.map_values(|v: Vec<char>| v@));
    out
}

/// `s.split_ascii_whitespace()`.
pub fn ascii_words_of(s: &[char]) -> (r: Vec<Vec<char>>)
    ensures
        r@.map_values(|v: Vec<char>| v@) == ascii_words(s@),
{
    let mut out: Vec<Vec<char>> = Vec::new();
    let mut i: usize = 0;
    while i < s.len()
        invariant
            i <= s@.len(),
            out@.map_values(|v: Vec<char>| v@) + ascii_words_from(s@, i as int) == ascii_words(s@),
        decreases s@.len() - i,
    {
        let ghost old_out = out@;
        let a = scan_exec(s, i, &CharClass::NonAsciiSpace);
        proof {
            lemma_scan(s@, i as int, CharClass::NonAsciiSpace);
        }
        if a >= s.len() {
            assert(ascii_words_from(s@, i as int) =~= seq![]);
            assert(ascii_words_from(s@, s@.len() as int) =~= seq![]);
            i = s.len();
        } else {
            let b = scan_exec(s, a, &CharClass::AsciiSpace);
            proof {
                lemma_scan(s@, a as int, CharClass::AsciiSpace);
            }
            let piece = sub_chars(s, a, b);
            out.push(piece);
            assert(out@.map_values(|v: Vec<char>| v@) =~= old_out.map_values(|v: Vec<char>| v@)
                + seq![s@.subrange(a as int, b as int)]);
            i = b;
        }
    }
    assert(ascii_words_from(s@, i as int) =~= seq![]);
    assert(out@.map_values(|v: Vec<char>| v@) + seq![] =~= out@.map_values(|v: Vec<char>| v@));
    out
}

/// `s.split(c)`.
pub fn split_chars(s: &[char], c: char) -> (r: Vec<Vec<char>>)
    ensures
        r@.map_values(|v: Vec<char>| v@) == split_on(s@, c),
{
    let mut out: Vec<Vec<char>> = Vec::new();
    let mut i: usize = 0;
    loop
        invariant
            i <= s@.len(),
            out@.map_values(|v: Vec<char>| v@) + split_from(s@, i as int, c) == split_on(s@, c),
        decreases s@.len() - i,
    {
        let ghost old_out = out@;
        let j = scan_exec(s, i, &CharClass::Is(c));
        proof {
            lemma_scan(s@, i as int, CharClass::Is(c));
        }
        if j >= s.len() {
            let piece = sub_chars(s, i, s.len());
            out.push(piece);
            assert(out@.map_values(|v: Vec<char>| v@) =~= old_out.map_values(|v: Vec<char>| v@)
                + split_from(s@, i as int, c));
            assert(out@.map_values(|v: Vec<char>| v@) + seq![] =~= out@.map_values(
                |v: Vec<char>| v@,
            ));
            return out;
        } else {
            let piece = sub_chars(s, i, j);
            out.push(piece);
            assert(out@.map_values(|v: Vec<char>| v@) =~= old_out.map_values(|v: Vec<char>| v@)
                + seq![s@.subrange(i as int, j as int)]);
            i = j + 1;
        }
    }
}

} // verus!

verus! {

/// The decimal digit for `d` in `0..10`.
pub open spec fn decimal_digit(d: int) -> char {
    if d == 0 { '0' } else if d == 1 { '1' } else if d == 2 { '2' } else if d == 3 { '3' }
    else if d == 4 { '4' } else if d == 5 { '5' } else if d == 6 { '6' } else if d == 7 { '7' }
    else if d == 8 { '8' } else { '9' }
}

/// `n` in decimal without leading zeros, as `format!("{n}")` writes it.
pub open spec fn decimal_of(n: nat) -> Seq<char>
    decreases n,
{
    if n < 10 {
        seq![decimal_digit(n as int)]
    } else {
        decimal_of(n / 10).push(decimal_digit((n % 10) as int))
    }
}

pub fn decimal_digit_exec(d: u64) -> (c: char)
    requires
        d < 10,
    ensures
        c == decimal_digit(d as int),
{
    if d == 0 { '0' } else if d == 1 { '1' } else if d == 2 { '2' } else if d == 3 { '3' }
    else if d == 4 { '4' } else if d == 5 { '5' } else if d == 6 { '6' } else if d == 7 { '7' }
    else if d == 8 { '8' } else { '9' }
}

/// Appends `n` in decimal.
pub fn push_decimal(out: &mut String, n: u64)
    ensures
        final(out)@ == old(out)@ + decimal_of(n as nat),
    decreases n,
{
    if n >= 10 {
        push_decimal(out, n / 10);
        let c = decimal_digit_exec(n % 10);
        push_char(out, c);
        assert(out@ =~= old(out)@ + decimal_of(n as nat));
    } else {
        let c = decimal_digit_exec(n);
        push_char(out, c);
        assert(out@ =~= old(out)@ + decimal_of(n as nat));
    }
}

/// Appends the characters of `s`.
pub fn push_chars(out: &mut String, s: &[char])
    ensures
        final(out)@ == old(out)@ + s@,
{
    let mut i: usize = 0;
    while i < s.len()
        invariant
            i <= s@.len(),
            out@ == old(out)@ + s@.take(i as int),
        decreases s@.len() - i,
    {
        push_char(out, s[i]);
        assert(s@.take(i as int).push(s@[i as int]) =~= s@.take(i + 1));
        assert(out@ =~= old(out)@ + s@.take(i + 1));
        i += 1;
    }
    assert(s@.take(s@.len() as int) =~= s@);
}

/// A `String` holding `lit`.
pub fn string_from(lit: &str) -> (r: String)
    ensures
        r@ == lit@,
{
    let mut s = String::new();
    s.append(lit);
    s
}

} // verus!

verus! {

/// Whether `p` occurs in `s` at index `j`.
pub open spec fn matches_at(s: Seq<char>, p: Seq<char>, j: int) -> bool {
    0 <= j && j + p.len() <= s.len() && s.subrange(j, j + p.len()) == p
}

/// The first index at or after `i` where `p` occurs in `s`, or the length
/// of `s` where it does not (`str::find` on the suffix).
pub open spec fn find_from(s: Seq<char>, p: Seq<char>, i: int) -> int
    decreases s.len() - i,
{
    if i < 0 || i >= s.len() {
        s.len() as int
    } else if matches_at(s, p, i) {
        i
    } else {
        find_from(s, p, i + 1)
    }
}

pub proof fn lemma_find_from(s: Seq<char>, p: Seq<char>, i: int)
    requires
        0 <= i <= s.len(),
    ensures
        i <= find_from(s, p, i) <= s.len(),
        find_from(s, p, i) < s.len() ==> matches_at(s, p, find_from(s, p, i)),
    decreases s.len() - i,
{
    if i < s.len() && !matches_at(s, p, i) {
        lemma_find_from(s, p, i + 1);
    }
}

fn matches_at_exec(s: &[char], p: &[char], j: usize) -> (r: bool)
    ensures
        r == matches_at(s@, p@, j as int),
{
    if p.len() > s.len() || j > s.len() - p.len() {
        return false;
    }
    let mut k: usize = 0;
    while k < p.len()
        invariant
            j + p@.len() <= s@.len(),
            j + p@.len() <= s.len(),
            k <= p@.len(),
            forall|m: int| 0 <= m < k ==> s@[j + m] == p@[m],
        decreases p@.len() - k,
    {
        if s[j + k] != p[k] {
            assert(s@.subrange(j as int, j + p@.len())[k as int] != p@[k as int]);
            return false;
        }
        k += 1;
    }
    assert(s@.subrange(j as int, j + p@.len()) =~= p@);
    true
}

/// The index `find_from(s, p, i)`.
pub fn find_exec(s: &[char], p: &[char], i: usize) -> (r: usize)
    requires
        i <= s@.len(),
    ensures
        r == find_from(s@, p@, i as int),
{
    let mut j = i;
    while j < s.len()
        invariant
            i <= j <= s@.len(),
            find_from(s@, p@, i as int) == find_from(s@, p@, j as int),
        decreases s@.len() - j,
    {
        if matches_at_exec(s, p, j) {
            return j;
        }
        j += 1;
    }
    j
}

} // verus!

verus! {

pub open spec fn all_digits(s: Seq<char>) -> bool {
    forall|i: int| 0 <= i < s.len() ==> is_ascii_digit(#[trigger] s[i])
}

/// The number that the decimal digits `s` write.
pub open spec fn dec_value(s: Seq<char>) -> int
    decreases s.len(),
{
    if s.len() == 0 {
        0
    } else {
        dec_value(s.drop_last()) * 10 + ((s.last() as int) - ('0' as int))
    }
}

/// `s.parse::<u32>()`: an optional `+`, then at least one decimal digit,
/// and a value that fits in 32 bits.
pub open spec fn parse_u32(s: Seq<char>) -> Option<u32> {
    let d = if s.len() > 0 && s[0] == '+' {
        s.drop_first()
    } else {
        s
    };
    if d.len() == 0 || !all_digits(d) || dec_value(d) > u32::MAX {
        None
    } else {
        Some(dec_value(d) as u32)
    }
}

pub proof fn lemma_dec_value_nonneg(s: Seq<char>)
    requires
        all_digits(s),
    ensures
        dec_value(s) >= 0,
    decreases s.len(),
{
    if s.len() > 0 {
        assert(all_digits(s.drop_last())) by {
            assert forall|i: int| 0 <= i < s.drop_last().len() implies is_ascii_digit(
                #[trigger] s.drop_last()[i],
            ) by {
                assert(s.drop_last()[i] == s[i]);
            }
        }
        lemma_dec_value_nonneg(s.drop_last());
        assert(is_ascii_digit(s[s.len() - 1]));
    }
}

proof fn lemma_dec_value_mono(s: Seq<char>, i: int)
    requires
        all_digits(s),
        0 <= i <= s.len(),
    ensures
        dec_value(s.take(i)) <= dec_value(s),
    decreases s.len() - i,
{
    if i < s.len() {
        lemma_dec_value_mono(s, i + 1);
        let t = s.take(i + 1);
        assert(t.drop_last() =~= s.take(i));
        assert(all_digits(s.take(i))) by {
            assert forall|k: int| 0 <= k < s.take(i).len() implies is_ascii_digit(
                #[trigger] s.take(i)[k],
            ) by {
                assert(s.take(i)[k] == s[k]);
            }
        }
        lemma_dec_value_nonneg(s.take(i));
        assert(t.last() == s[i]);
        assert(is_ascii_digit(s[i]));
    } else {
        assert(s.take(i) =~= s);
    }
}

/// `s.parse::<u32>()`, with `None` for every error.
pub fn parse_u32_exec(s: &[char]) -> (r: Option<u32>)
    ensures
        r == parse_u32(s@),
{
    let start: usize = if s.len() > 0 && s[0] == '+' {
        1
    } else {
        0
    };
    let ghost d = if s@.len() > 0 && s@[0] == '+' {
        s@.drop_first()
    } else {
        s@
    };
    assert(d =~= s@.subrange(start as int, s@.len() as int));
    if start >= s.len() {
        return None;
    }
    let mut acc: u64 = 0;
    let mut i = start;
    assert(d.take(0) =~= Seq::<char>::empty());
    while i < s.len()
        invariant
            start <= i <= s@.len(),
            d =~= s@.subrange(start as int, s@.len() as int),
            d == (if s@.len() > 0 && s@[0] == '+' {
                s@.drop_first()
            } else {
                s@
            }),
            all_digits(d.take(i - start)),
            acc == dec_value(d.take(i - start)),
            acc <= u32::MAX,
        decreases s@.len() - i,
    {
        let c = s[i];
        let ghost k = (i - start) as int;
        assert(d[k] == s@[i as int]);
        assert(d.take(k + 1).drop_last() =~= d.take(k));
        assert(d.take(k + 1).last() == d[k]);
        if !('0' <= c && c <= '9') {
            assert(!all_digits(d));
            return None;
        }
        assert(all_digits(d.take(k + 1))) by {
            assert forall|j: int| 0 <= j < d.take(k + 1).len() implies is_ascii_digit(
                #[trigger] d.take(k + 1)[j],
            ) by {
                if j < k {
                    assert(d.take(k + 1)[j] == d.take(k)[j]);
                }
            }
        }
        let v = (c as u32 - '0' as u32) as u64;
        let next = acc * 10 + v;
        if next > 4294967295 {
            proof {
                assert(dec_value(d.take(k + 1)) > u32::MAX);
                if all_digits(d) {
                    lemma_dec_value_mono(d, k + 1);
                }
            }
            return None;
        }
        acc = next;
        i += 1;
    }
    assert(d.take(i - start) =~= d);
    Some(acc as u32)
}

} // verus!
