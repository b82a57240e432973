//! Session ids: a counter written in lowercase hexadecimal, and the parse
//! back (`u64::from_str_radix(.., 16)`), by which the newest id ranks first.
use vstd::prelude::*;

use crate::text::push_char;

verus! {

/// The value of one hexadecimal digit, either case; -1 for any other
/// character.
pub open spec fn hex_digit_value(c: char) -> int {
    if '0' <= c && c <= '9' {
        (c as int) - ('0' as int)
    } else if 'a' <= c && c <= 'f' {
        (c as int) - ('a' as int) + 10
    } else if 'A' <= c && c <= 'F' {
        (c as int) - ('A' as int) + 10
    } else {
        -1
    }
}

pub open spec fn all_hex(s: Seq<char>) -> bool {
    forall|i: int| 0 <= i < s.len() ==> hex_digit_value(#[trigger] s[i]) >= 0
}

/// The number that the digits `s` write in base 16.
pub open spec fn hex_value(s: Seq<char>) -> int
    decreases s.len(),
{
    if s.len() == 0 {
        0
    } else {
        hex_value(s.drop_last()) * 16 + hex_digit_value(s.last())
    }
}

/// `u64::from_str_radix(s, 16)`: an optional `+`, then at least one
/// hexadecimal digit, and a value that fits in 64 bits.
pub open spec fn parse_hex(s: Seq<char>) -> Option<u64> {
    let d = if s.len() > 0 && s[0] == '+' {
        s.drop_first()
    } else {
        s
    };
    if d.len() == 0 || !all_hex(d) || hex_value(d) > u64::MAX {
        None
    } else {
        Some(hex_value(d) as u64)
    }
}

/// The lowercase digit for `d` in `0..16`.
pub open spec fn hex_char(d: int) -> char {
    if d == 0 { '0' } else if d == 1 { '1' } else if d == 2 { '2' } else if d == 3 { '3' }
    else if d == 4 { '4' } else if d == 5 { '5' } else if d == 6 { '6' } else if d == 7 { '7' }
    else if d == 8 { '8' } else if d == 9 { '9' } else if d == 10 { 'a' } else if d == 11 { 'b' }
    else if d == 12 { 'c' } else if d == 13 { 'd' } else if d == 14 { 'e' } else { 'f' }
}

/// `n` in lowercase hexadecimal without leading zeros (`format!("{n:x}")`).
pub open spec fn hex_of(n: nat) -> Seq<char>
    decreases n,
{
    if n < 16 {
        seq![hex_char(n as int)]
    } else {
        hex_of(n / 16).push(hex_char((n % 16) as int))
    }
}

proof fn lemma_hex_value_nonneg(s: Seq<char>)
    requires
        all_hex(s),
    ensures
        hex_value(s) >= 0,
    decreases s.len(),
{
    if s.len() > 0 {
        assert(all_hex(s.drop_last())) by {
            assert forall|i: int| 0 <= i < s.drop_last().len() implies hex_digit_value(
                #[trigger] s.drop_last()[i],
            ) >= 0 by {
                assert(s.drop_last()[i] == s[i]);
            }
        }
        lemma_hex_value_nonneg(s.drop_last());
        assert(hex_digit_value(s[s.len() - 1]) >= 0);
    }
}

/// Extending a run of digits never lowers its value.
proof fn lemma_hex_value_mono(s: Seq<char>, i: int)
    requires
        all_hex(s),
        0 <= i <= s.len(),
    ensures
        hex_value(s.take(i)) <= hex_value(s),
    decreases s.len() - i,
{
    if i < s.len() {
        lemma_hex_value_mono(s, i + 1);
        let t = s.take(i + 1);
        assert(t.drop_last() =~= s.take(i));
        assert(all_hex(s.take(i))) by {
            assert forall|k: int| 0 <= k < s.take(i).len() implies hex_digit_value(
                #[trigger] s.take(i)[k],
            ) >= 0 by {
                assert(s.take(i)[k] == s[k]);
            }
        }
        lemma_hex_value_nonneg(s.take(i));
        assert(t.last() == s[i]);
        assert(hex_digit_value(s[i]) >= 0);
    } else {
        assert(s.take(i) =~= s);
    }
}

proof fn lemma_hex_of(n: nat)
    ensures
        hex_of(n).len() > 0,
        all_hex(hex_of(n)),
        hex_value(hex_of(n)) == n,
        hex_of(n)[0] != '+',
    decreases n,
{
    if n < 16 {
        assert(hex_of(n).drop_last() =~= seq![]);
        assert(hex_digit_value(hex_char(n as int)) == n);
        assert(hex_value(Seq::<char>::empty()) == 0);
        assert(hex_value(hex_of(n)) == hex_value(hex_of(n).drop_last()) * 16 + hex_digit_value(
            hex_of(n).last(),
        ));
    } else {
        assert(hex_digit_value(hex_char((n % 16) as int)) == n % 16);
        lemma_hex_of(n / 16);
        let h = hex_of(n);
        assert(h.drop_last() =~= hex_of(n / 16));
        assert forall|i: int| 0 <= i < h.len() implies hex_digit_value(#[trigger] h[i]) >= 0 by {
            if i < h.len() - 1 {
                assert(h[i] == hex_of(n / 16)[i]);
            }
        }
        assert(h[0] == hex_of(n / 16)[0]);
    }
}

/// Every id that the counter writes parses back to the counter's value, so
/// ids of distinct counter values differ and rank by their value.
pub proof fn law_hex_roundtrip(n: u64)
    ensures
        parse_hex(hex_of(n as nat)) == Some(n),
{
    lemma_hex_of(n as nat);
}

fn digit_char(d: u64) -> (c: char)
    requires
        d < 16,
    ensures
        c == hex_char(d as int),
{
    if d == 0 { '0' } else if d == 1 { '1' } else if d == 2 { '2' } else if d == 3 { '3' }
    else if d == 4 { '4' } else if d == 5 { '5' } else if d == 6 { '6' } else if d == 7 { '7' }
    else if d == 8 { '8' } else if d == 9 { '9' } else if d == 10 { 'a' } else if d == 11 { 'b' }
    else if d == 12 { 'c' } else if d == 13 { 'd' } else if d == 14 { 'e' } else { 'f' }
}

/// Appends `n` in lowercase hexadecimal.
pub fn push_hex(out: &mut String, n: u64)
    ensures
        final(out)@ == old(out)@ + hex_of(n as nat),
    decreases n,
{
    if n >= 16 {
        push_hex(out, n / 16);
        let c = digit_char(n % 16);
        let ghost before = out@;
        push_char(out, c);
        assert(out@ =~= old(out)@ + hex_of(n as nat));
    } else {
        let c = digit_char(n);
        push_char(out, c);
        assert(out@ =~= old(out)@ + hex_of(n as nat));
    }
}

/// `n` in lowercase hexadecimal.
pub fn format_hex(n: u64) -> (r: String)
    ensures
        r@ == hex_of(n as nat),
{
    let mut s = String::new();
    push_hex(&mut s, n);
    assert(s@ =~= hex_of(n as nat));
    s
}

fn digit_value(c: char) -> (r: i32)
    ensures
        r == hex_digit_value(c),
{
    if '0' <= c && c <= '9' {
        (c as u32 - '0' as u32) as i32
    } else if 'a' <= c && c <= 'f' {
        (c as u32 - 'a' as u32 + 10) as i32
    } else if 'A' <= c && c <= 'F' {
        (c as u32 - 'A' as u32 + 10) as i32
    } else {
        -1
    }
}

/// `u64::from_str_radix(s, 16)`, with `None` for every error.
pub fn parse_hex_exec(s: &[char]) -> (r: Option<u64>)
    ensures
        r == parse_hex(s@),
{
    let start: usize = if s.len() > 0 && s[0] == '+' {
        1
    } else {
        0
    };
    let ghost d = if s@.len() > 0 && s@[0] == '+' {
        s@.drop_first()
    } else {
        s@
    };
    assert(d =~= s@.subrange(start as int, s@.len() as int));
    if start >= s.len() {
        return None;
    }
    let mut acc: u64 = 0;
    let mut i = start;
    assert(d.take(0) =~= Seq::<char>::empty());
    while i < s.len()
        invariant
            start <= i <= s@.len(),
            d =~= s@.subrange(start as int, s@.len() as int),
            d == (if s@.len() > 0 && s@[0] == '+' {
                s@.drop_first()
            } else {
                s@
            }),
            all_hex(d.take(i - start)),
            acc == hex_value(d.take(i - start)),
        decreases s@.len() - i,
    {
        let v = digit_value(s[i]);
        let ghost k = (i - start) as int;
        assert(d[k] == s@[i as int]);
        assert(d.take(k + 1).drop_last() =~= d.take(k));
        assert(d.take(k + 1).last() == d[k]);
        if v < 0 {
            assert(hex_digit_value(d[k]) < 0);
            assert(!all_hex(d));
            assert(parse_hex(s@) is None);
            return None;
        }
        assert(all_hex(d.take(k + 1))) by {
            assert forall|j: int| 0 <= j < d.take(k + 1).len() implies hex_digit_value(
                #[trigger] d.take(k + 1)[j],
            ) >= 0 by {
                if j < k {
                    assert(d.take(k + 1)[j] == d.take(k)[j]);
                }
            }
        }
        if acc > (u64::MAX - 15) / 16 {
            // Another digit would not fit; the whole run of digits is larger
            // still, or holds a non-digit further on.
            proof {
                assert(hex_value(d.take(k + 1)) > u64::MAX);
                if all_hex(d) {
                    lemma_hex_value_mono(d, k + 1);
                }
                assert(parse_hex(s@) is None);
            }
            return None;
        }
        acc = acc * 16 + (v as u64);
        i += 1;
    }
    assert(d.take(i - start) =~= d);
    Some(acc)
}

} // verus!
