//! Decimal numbers as text: reading and writing them, with the laws that
//! relate the two.

use vstd::prelude::*;

use crate::text::{is_space, is_word};

verus! {

/// Whether `c` is one of the decimal digits `0` to `9`.
pub open spec fn is_digit(c: char) -> bool {
    '0' <= c && c <= '9'
}

/// The value of the decimal digit `c`.
pub open spec fn digit_value(c: char) -> nat {
    (c as int - '0' as int) as nat
}

/// The decimal digit of value `d`, for `d` below ten.
pub open spec fn digit_char(d: nat) -> char {
    if d == 0 {
        '0'
    } else if d == 1 {
        '1'
    } else if d == 2 {
        '2'
    } else if d == 3 {
        '3'
    } else if d == 4 {
        '4'
    } else if d == 5 {
        '5'
    } else if d == 6 {
        '6'
    } else if d == 7 {
        '7'
    } else if d == 8 {
        '8'
    } else {
        '9'
    }
}

/// Whether every character of `s` is a decimal digit.
pub open spec fn all_digits(s: Seq<char>) -> bool {
    forall|i: int| 0 <= i < s.len() ==> is_digit(#[trigger] s[i])
}

/// The number that the digits `s` write in base ten, most significant first.
pub open spec fn digits_value(s: Seq<char>) -> nat
    decreases s.len(),
{
    if s.len() == 0 {
        0
    } else {
        digits_value(s.drop_last()) * 10 + digit_value(s.last())
    }
}

/// `n` in base ten, without leading zeros.
pub open spec fn decimal(n: nat) -> Seq<char>
    decreases n,
{
    if n < 10 {
        seq![digit_char(n)]
    } else {
        decimal(n / 10).push(digit_char(n % 10))
    }
}

/// `i` in base ten, with a leading minus sign when it is negative.
pub open spec fn signed_decimal(i: int) -> Seq<char> {
    if i < 0 {
        seq!['-'] + decimal((-i) as nat)
    } else {
        decimal(i as nat)
    }
}

/// `s` without a leading plus sign.
pub open spec fn unsigned_part(s: Seq<char>) -> Seq<char> {
    if s.len() > 0 && s[0] == '+' {
        s.skip(1)
    } else {
        s
    }
}

/// The number that `s` writes if it is a non-empty run of digits of value at
/// most `limit`.
pub open spec fn magnitude(s: Seq<char>, limit: nat) -> Option<nat> {
    if s.len() > 0 && all_digits(s) && digits_value(s) <= limit {
        Some(digits_value(s))
    } else {
        None
    }
}

/// The unsigned 32-bit number that `s` writes: an optional plus sign and at
/// least one digit, of a value that fits.
pub open spec fn u32_of(s: Seq<char>) -> Option<u32> {
    match magnitude(unsigned_part(s), u32::MAX as nat) {
        Some(n) => Some(n as u32),
        None => None,
    }
}

/// The signed 32-bit number that `s` writes: an optional sign and at least
/// one digit, of a value that fits.
pub open spec fn i32_of(s: Seq<char>) -> Option<i32> {
    if s.len() > 0 && s[0] == '-' {
        match magnitude(s.skip(1), 0x8000_0000) {
            Some(n) => Some((-(n as int)) as i32),
            None => None,
        }
    } else {
        match magnitude(unsigned_part(s), i32::MAX as nat) {
            Some(n) => Some(n as i32),
            None => None,
        }
    }
}

/// A prefix of a run of digits writes no larger a number than the whole run.
pub proof fn lemma_prefix_value(s: Seq<char>, k: int)
    requires
        0 <= k <= s.len(),
    ensures
        digits_value(s.take(k)) <= digits_value(s),
    decreases s.len(),
{
    if k == s.len() {
        assert(s.take(k) =~= s);
    } else {
        lemma_prefix_value(s.drop_last(), k);
        assert(s.drop_last().take(k) =~= s.take(k));
    }
}

/// The value of a decimal digit, or `None` for any other character.
pub fn digit_of(c: char) -> (d: Option<u32>)
    ensures
        d == (if is_digit(c) {
            Some(digit_value(c) as u32)
        } else {
            None
        }),
{
    if c >= '0' && c <= '9' {
        Some(c as u32 - 48)
    } else {
        None
    }
}

/// The decimal digit of value `d`.
pub fn char_of_digit(d: u32) -> (c: char)
    requires
        d < 10,
    ensures
        c == digit_char(d as nat),
{
    if d == 0 {
        '0'
    } else if d == 1 {
        '1'
    } else if d == 2 {
        '2'
    } else if d == 3 {
        '3'
    } else if d == 4 {
        '4'
    } else if d == 5 {
        '5'
    } else if d == 6 {
        '6'
    } else if d == 7 {
        '7'
    } else if d == 8 {
        '8'
    } else {
        '9'
    }
}

/// Reads the digits of `w` from position `start` on as one number of at most
/// `limit`.
pub fn parse_magnitude(w: &Vec<char>, start: usize, limit: u64) -> (r: Option<u64>)
    requires
        start <= w.len(),
        limit <= 0x1_0000_0000,
    ensures
        match magnitude(w@.skip(start as int), limit as nat) {
            Some(n) => r == Some(n as u64),
            None => r is None,
        },
{
    let ghost s = w@.skip(start as int);
    if start == w.len() {
        return None;
    }
    let mut acc: u64 = 0;
    let mut i: usize = start;
    while i < w.len()
        invariant
            start <= i <= w.len(),
            s == w@.skip(start as int),
            limit <= 0x1_0000_0000,
            all_digits(s.take(i - start)),
            acc == digits_value(s.take(i - start)),
            acc <= limit,
        decreases w.len() - i,
    {
        let ghost k = i - start;
        proof {
            assert(s[k] == w@[i as int]);
            assert(s.take(k + 1).drop_last() =~= s.take(k));
        }
        match digit_of(w[i]) {
            None => {
                return None;
            },
            Some(d) => {
                let next: u64 = acc * 10 + d as u64;
                if next > limit {
                    proof {
                        if all_digits(s) {
                            lemma_prefix_value(s, k + 1);
                        }
                    }
                    return None;
                }
                proof {
                    assert forall|j: int| 0 <= j < k + 1 implies is_digit(
                        #[trigger] s.take(k + 1)[j],
                    ) by {}
                }
                acc = next;
            },
        }
        i += 1;
    }
    proof {
        assert(s.take(i - start) =~= s);
    }
    Some(acc)
}

/// Reads an unsigned 32-bit number written in base ten.
pub fn parse_u32(w: &Vec<char>) -> (r: Option<u32>)
    ensures
        r == u32_of(w@),
{
    let start: usize = if w.len() > 0 && w[0] == '+' {
        1
    } else {
        0
    };
    proof {
        assert(w@.skip(0) =~= w@);
    }
    match parse_magnitude(w, start, 0xffff_ffff) {
        Some(n) => Some(n as u32),
        None => None,
    }
}

/// Reads a signed 32-bit number written in base ten.
pub fn parse_i32(w: &Vec<char>) -> (r: Option<i32>)
    ensures
        r == i32_of(w@),
{
    proof {
        assert(w@.skip(0) =~= w@);
    }
    if w.len() > 0 && w[0] == '-' {
        match parse_magnitude(w, 1, 0x8000_0000) {
            Some(n) => Some((-(n as i64)) as i32),
            None => None,
        }
    } else {
        let start: usize = if w.len() > 0 && w[0] == '+' {
            1
        } else {
            0
        };
        match parse_magnitude(w, start, 0x7fff_ffff) {
            Some(n) => Some(n as i32),
            None => None,
        }
    }
}

/// Appends `n` in base ten to `out`.
pub fn push_decimal(out: &mut Vec<char>, n: u64)
    ensures
        final(out)@ == old(out)@ + decimal(n as nat),
    decreases n,
{
    if n >= 10 {
        push_decimal(out, n / 10);
    }
    out.push(char_of_digit((n % 10) as u32));
}

/// Appends `i` in base ten to `out`, with a minus sign when it is negative.
pub fn push_signed_decimal(out: &mut Vec<char>, i: i32)
    ensures
        final(out)@ == old(out)@ + signed_decimal(i as int),
{
    if i < 0 {
        out.push('-');
        let m: u64 = (-(i as i64)) as u64;
        push_decimal(out, m);
    } else {
        push_decimal(out, i as u64);
    }
}

/// `n` in base ten, as a word.
pub fn number_word(n: u64) -> (w: Vec<char>)
    ensures
        w@ == decimal(n as nat),
{
    let mut w: Vec<char> = Vec::new();
    push_decimal(&mut w, n);
    w
}

/// The decimal form of a number is a non-empty run of digits that writes
/// that number.
pub proof fn lemma_decimal_value(n: nat)
    ensures
        decimal(n).len() > 0,
        all_digits(decimal(n)),
        digits_value(decimal(n)) == n,
    decreases n,
{
    if n < 10 {
        assert(digits_value(decimal(n).drop_last()) == 0);
    } else {
        lemma_decimal_value(n / 10);
        assert(decimal(n).drop_last() =~= decimal(n / 10));
    }
}

/// Reading back the decimal form of an unsigned 32-bit number gives that
/// number.
pub proof fn lemma_u32_round_trip(n: u32)
    ensures
        u32_of(decimal(n as nat)) == Some(n),
{
    lemma_decimal_value(n as nat);
}

/// Reading back the decimal form of a signed 32-bit number gives that
/// number.
pub proof fn lemma_i32_round_trip(i: i32)
    ensures
        i32_of(signed_decimal(i as int)) == Some(i),
{
    if i < 0 {
        let m = (-(i as int)) as nat;
        lemma_decimal_value(m);
        assert(signed_decimal(i as int).skip(1) =~= decimal(m));
    } else {
        lemma_decimal_value(i as nat);
    }
}

/// The decimal form of a number can stand as a word of a line.
pub proof fn lemma_decimal_is_word(n: nat)
    ensures
        is_word(decimal(n)),
{
    lemma_decimal_value(n);
}

/// The signed decimal form of a number can stand as a word of a line.
pub proof fn lemma_signed_decimal_is_word(i: int)
    ensures
        is_word(signed_decimal(i)),
{
    if i < 0 {
        let digits = decimal((-i) as nat);
        lemma_decimal_is_word((-i) as nat);
        let text = signed_decimal(i);
        assert forall|k: int| 0 <= k < text.len() implies !is_space(#[trigger] text[k]) by {
            if k > 0 {
                assert(text[k] == digits[k - 1]);
            }
        }
    } else {
        lemma_decimal_is_word(i as nat);
    }
}

} // verus!
