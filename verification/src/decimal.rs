//! Unsigned decimal numerals: reading one from characters and writing one out.

use vstd::prelude::*;

verus! {

/// Whether `c` is one of the ASCII digits `0` to `9`.
pub open spec fn is_digit(c: char) -> bool {
    '0' <= c && c <= '9'
}

/// The number that the ASCII digit `c` stands for.
pub open spec fn digit_value(c: char) -> nat {
    (c as int - '0' as int) as nat
}

/// Whether every character of `s` is an ASCII digit.
pub open spec fn all_digits(s: Seq<char>) -> bool {
    forall|i: int| 0 <= i < s.len() ==> is_digit(#[trigger] s[i])
}

/// The number that the digit string `s` denotes in base ten; 0 for the empty
/// string.
pub open spec fn digits_value(s: Seq<char>) -> nat
    decreases s.len(),
{
    if s.len() == 0 {
        0
    } else {
        digits_value(s.drop_last()) * 10 + digit_value(s.last())
    }
}

/// `s` without one leading plus sign.
pub open spec fn unsigned_body(s: Seq<char>) -> Seq<char> {
    if s.len() > 0 && s[0] == '+' {
        s.subrange(1, s.len() as int)
    } else {
        s
    }
}

/// The unsigned number that `s` spells, if it spells one that is at most
/// `max`: an optional plus sign, then one or more ASCII digits and nothing
/// else. Leading zeros are allowed.
pub open spec fn parse_unsigned(s: Seq<char>, max: u32) -> Option<u32> {
    parse_digits(unsigned_body(s), max)
}

/// The number that the digits `d` spell, if they spell one that is at most
/// `max`: one or more ASCII digits and nothing else.
pub open spec fn parse_digits(d: Seq<char>, max: u32) -> Option<u32> {
    if d.len() > 0 && all_digits(d) && digits_value(d) <= max {
        Some(digits_value(d) as u32)
    } else {
        None
    }
}

/// The signed 32-bit number that `s` spells, if it spells one: an optional
/// plus or minus sign, then one or more ASCII digits and nothing else.
pub open spec fn parse_signed(s: Seq<char>) -> Option<i32> {
    if s.len() > 0 && s[0] == '-' {
        match parse_digits(s.subrange(1, s.len() as int), 2147483648) {
            Some(n) => Some((0 - n) as i32),
            None => None,
        }
    } else {
        match parse_unsigned(s, 2147483647) {
            Some(n) => Some(n as i32),
            None => None,
        }
    }
}

/// The ASCII digit for `d`, where `d` is below ten.
pub open spec fn digit_char(d: nat) -> char {
    ((48 + d) as u8) as char
}

/// The decimal numeral of `n`, without leading zeros.
pub open spec fn numeral(n: nat) -> Seq<char>
    decreases n,
{
    if n < 10 {
        seq![digit_char(n)]
    } else {
        numeral(n / 10).push(digit_char(n % 10))
    }
}

/// A digit string denotes at least what any of its prefixes denotes.
pub proof fn lemma_prefix_value_le(d: Seq<char>, k: int)
    requires
        0 <= k <= d.len(),
    ensures
        digits_value(d.take(k)) <= digits_value(d),
    decreases d.len(),
{
    if k == d.len() {
        assert(d.take(k) =~= d);
    } else {
        lemma_prefix_value_le(d.drop_last(), k);
        assert(d.drop_last().take(k) =~= d.take(k));
    }
}

/// A numeral is a nonempty string of digits that denotes its number.
pub proof fn lemma_numeral(n: nat)
    ensures
        numeral(n).len() > 0,
        all_digits(numeral(n)),
        digits_value(numeral(n)) == n,
        numeral(n)[0] != '+',
    decreases n,
{
    if n < 10 {
        let s = numeral(n);
        assert(s.drop_last() =~= Seq::<char>::empty());
        assert(digits_value(s.drop_last()) == 0);
    } else {
        lemma_numeral(n / 10);
        let s = numeral(n);
        assert(s.drop_last() =~= numeral(n / 10));
        assert(s.last() == digit_char(n % 10));
    }
}

/// Reading a numeral gives its number back.
pub proof fn lemma_parse_numeral(n: nat, max: u32)
    requires
        n <= max,
    ensures
        parse_unsigned(numeral(n), max) == Some(n as u32),
{
    lemma_numeral(n);
}

/// Reads the number that the digits of `s` from position `start` on spell.
pub fn parse_digits_from(s: &Vec<char>, start: usize, max: u32) -> (r: Option<u32>)
    requires
        start <= s.len(),
    ensures
        r == parse_digits(s@.subrange(start as int, s.len() as int), max),
{
    let ghost d = s@.subrange(start as int, s.len() as int);
    if start == s.len() {
        return None;
    }
    let mut acc: u32 = 0;
    let mut i: usize = start;
    assert(d.take(0) =~= Seq::<char>::empty());
    while i < s.len()
        invariant
            start <= i <= s.len(),
            d == s@.subrange(start as int, s.len() as int),
            all_digits(d.take(i - start)),
            acc == digits_value(d.take(i - start)),
            acc <= max,
        decreases s.len() - i,
    {
        let c = s[i];
        assert(c == d[i - start]);
        if !(c >= '0' && c <= '9') {
            return None;
        }
        let digit: u32 = c as u32 - '0' as u32;
        let next: u64 = acc as u64 * 10 + digit as u64;
        proof {
            let p = d.take(i - start + 1);
            assert(p.drop_last() =~= d.take(i - start));
            assert(p.last() == c);
            assert(digits_value(p) == next);
            assert forall|j: int| 0 <= j < p.len() implies is_digit(#[trigger] p[j]) by {
                if j < p.len() - 1 {
                    assert(p[j] == d.take(i - start)[j]);
                }
            }
            lemma_prefix_value_le(d, i - start + 1);
        }
        if next > max as u64 {
            return None;
        }
        acc = next as u32;
        i += 1;
    }
    assert(d.take(i - start) =~= d);
    Some(acc)
}

/// Reads the unsigned decimal number that `s` spells.
pub fn parse_decimal(s: &Vec<char>, max: u32) -> (r: Option<u32>)
    ensures
        r == parse_unsigned(s@, max),
{
    let start: usize = if s.len() > 0 && s[0] == '+' {
        1
    } else {
        0
    };
    assert(unsigned_body(s@) =~= s@.subrange(start as int, s.len() as int));
    parse_digits_from(s, start, max)
}

/// Reads the signed 32-bit number that `s` spells.
pub fn parse_i32(s: &Vec<char>) -> (r: Option<i32>)
    ensures
        r == parse_signed(s@),
{
    if s.len() > 0 && s[0] == '-' {
        match parse_digits_from(s, 1, 2147483648) {
            Some(n) => {
                if n == 2147483648 {
                    Some(i32::MIN)
                } else {
                    Some(0 - (n as i32))
                }
            },
            None => None,
        }
    } else {
        match parse_decimal(s, 2147483647) {
            Some(n) => Some(n as i32),
            None => None,
        }
    }
}

/// The decimal numeral of `n`, without leading zeros.
pub fn numeral_of(n: u32) -> (v: Vec<char>)
    ensures
        v@ == numeral(n as nat),
    decreases n,
{
    let last: char = ((48 + n % 10) as u8) as char;
    if n < 10 {
        let mut v: Vec<char> = Vec::new();
        v.push(last);
        assert(v@ =~= seq![last]);
        v
    } else {
        let mut v = numeral_of(n / 10);
        v.push(last);
        v
    }
}

} // verus!
