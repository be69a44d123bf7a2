//! Numbers in writing: decimal and hexadecimal notation, and reading decimals back.
use crate::text::chars_of;
use vstd::prelude::*;

verus! {

/// The decimal digit of `d`, for `d` below ten.
pub open spec fn digit(d: int) -> char {
    (48 + d) as char
}

/// A natural number in decimal notation, without leading zeros.
pub open spec fn decimal_nat(n: nat) -> Seq<char>
    decreases n,
{
    if n < 10 {
        seq![digit(n as int)]
    } else {
        decimal_nat(n / 10).push(digit((n % 10) as int))
    }
}

/// An integer in decimal notation.
pub open spec fn decimal(n: int) -> Seq<char> {
    if n < 0 {
        seq!['-'] + decimal_nat((-n) as nat)
    } else {
        decimal_nat(n as nat)
    }
}

fn push_decimal(s: &mut String, n: u64)
    ensures
        final(s)@ == old(s)@ + decimal_nat(n as nat),
    decreases n,
{
    if n < 10 {
        s.push((48 + n as u8) as char);
    } else {
        push_decimal(s, n / 10);
        s.push((48 + (n % 10) as u8) as char);
    }
}

/// Writes an unsigned number in decimal notation.
pub fn decimal_u64(n: u64) -> (s: String)
    ensures
        s@ == decimal(n as int),
{
    let mut s = String::new();
    push_decimal(&mut s, n);
    assert(s@ =~= decimal(n as int));
    s
}

/// Writes a signed number in decimal notation.
pub fn decimal_i64(n: i64) -> (s: String)
    ensures
        s@ == decimal(n as int),
{
    let mut s = String::new();
    if n < 0 {
        let m: u64 = (-(n + 1)) as u64 + 1;
        s.push('-');
        push_decimal(&mut s, m);
        assert(s@ =~= seq!['-'] + decimal_nat((-(n as int)) as nat));
    } else {
        push_decimal(&mut s, n as u64);
        assert(s@ =~= decimal(n as int));
    }
    s
}

/// A decimal digit.
pub open spec fn is_digit(c: char) -> bool {
    '0' as int <= c as int <= '9' as int
}

/// The number that a non-empty row of decimal digits denotes; `None` for any
/// other text.
pub open spec fn digits_value(s: Seq<char>) -> Option<nat>
    decreases s.len(),
{
    if s.len() == 0 || !is_digit(s.last()) {
        None
    } else if s.len() == 1 {
        Some((s[0] as int - 48) as nat)
    } else {
        match digits_value(s.drop_last()) {
            Some(v) => Some((v * 10 + (s.last() as int - 48)) as nat),
            None => None,
        }
    }
}

/// The integer that a text denotes: digits, with at most one sign before them.
pub open spec fn signed_value(s: Seq<char>) -> Option<int> {
    if s.len() > 0 && s[0] == '-' {
        match digits_value(s.drop_first()) {
            Some(v) => Some(-(v as int)),
            None => None,
        }
    } else {
        unsigned_value(s)
    }
}

/// The natural number that a text denotes: digits, with at most a `+` before them.
pub open spec fn unsigned_value(s: Seq<char>) -> Option<int> {
    let rest = if s.len() > 0 && s[0] == '+' {
        s.drop_first()
    } else {
        s
    };
    match digits_value(rest) {
        Some(v) => Some(v as int),
        None => None,
    }
}

proof fn lemma_prefix_value(s: Seq<char>, k: int)
    requires
        1 <= k <= s.len(),
        digits_value(s) is Some,
    ensures
        digits_value(s.take(k)) is Some,
        digits_value(s.take(k)).unwrap() <= digits_value(s).unwrap(),
    decreases s.len(),
{
    if k == s.len() {
        assert(s.take(k) =~= s);
    } else {
        lemma_prefix_value(s.drop_last(), k);
        assert(s.drop_last().take(k) =~= s.take(k));
    }
}

/// Reads the digits `v[from..]` as a number of at most `limit`.
fn read_digits(v: &Vec<char>, from: usize, limit: u64) -> (r: Option<u64>)
    requires
        from <= v@.len(),
        limit <= i64::MAX as u64 + 1,
    ensures
        match (r, digits_value(v@.skip(from as int))) {
            (Some(n), Some(value)) => n == value && n <= limit,
            (Some(_), None) => false,
            (None, Some(value)) => value > limit,
            (None, None) => true,
        },
{
    let ghost s = v@.skip(from as int);
    if from == v.len() {
        return None;
    }
    let mut n: u64 = 0;
    let mut i: usize = from;
    while i < v.len()
        invariant
            from <= i <= v@.len(),
            s == v@.skip(from as int),
            from < v@.len(),
            n <= limit <= i64::MAX as u64 + 1,
            i == from ==> n == 0,
            i > from ==> digits_value(s.take(i - from)) == Some(n as nat),
        decreases v@.len() - i,
    {
        let c = v[i];
        let ghost k = i - from + 1;
        proof {
            assert(s.take(k).last() == c);
            assert(s.take(k).drop_last() =~= s.take(k - 1));
            if digits_value(s) is Some {
                lemma_prefix_value(s, k);
            }
        }
        if c < '0' || c > '9' {
            return None;
        }
        let d: u64 = (c as u8 - 48) as u64;
        if n > limit / 10 {
            return None;
        }
        let m: u64 = n * 10 + d;
        if m > limit {
            return None;
        }
        n = m;
        i = i + 1;
    }
    assert(s.take(i - from) =~= s);
    Some(n)
}

/// Reads a signed decimal number.
pub fn parse_i64(text: &str) -> (r: Option<i64>)
    ensures
        match signed_value(text@) {
            Some(n) => if i64::MIN <= n <= i64::MAX {
                r == Some(n as i64)
            } else {
                r is None
            },
            None => r is None,
        },
{
    let v = chars_of(text);
    assert(v@.skip(0) =~= v@);
    assert(v@.len() > 0 ==> v@.skip(1) =~= v@.drop_first());
    if v.len() > 0 && v[0] == '-' {
        match read_digits(&v, 1, i64::MAX as u64 + 1) {
            Some(n) => if n == i64::MAX as u64 + 1 {
                Some(i64::MIN)
            } else {
                Some(-(n as i64))
            },
            None => None,
        }
    } else {
        let from: usize = if v.len() > 0 && v[0] == '+' {
            1
        } else {
            0
        };
        match read_digits(&v, from, i64::MAX as u64) {
            Some(n) => Some(n as i64),
            None => None,
        }
    }
}

/// Reads an unsigned 16-bit decimal number.
pub fn parse_u16(v: &Vec<char>) -> (r: Option<u16>)
    ensures
        match unsigned_value(v@) {
            Some(n) => if n <= u16::MAX {
                r == Some(n as u16)
            } else {
                r is None
            },
            None => r is None,
        },
{
    assert(v@.skip(0) =~= v@);
    assert(v@.len() > 0 ==> v@.skip(1) =~= v@.drop_first());
    let from: usize = if v.len() > 0 && v[0] == '+' {
        1
    } else {
        0
    };
    match read_digits(v, from, 65535) {
        Some(n) => Some(n as u16),
        None => None,
    }
}

proof fn lemma_decimal_nat_value(n: nat)
    ensures
        decimal_nat(n).len() > 0,
        is_digit(decimal_nat(n)[0]),
        digits_value(decimal_nat(n)) == Some(n),
    decreases n,
{
    if n >= 10 {
        lemma_decimal_nat_value(n / 10);
        let s = decimal_nat(n);
        assert(s.drop_last() =~= decimal_nat(n / 10));
    }
}

/// Reading back the decimal notation of an integer gives the integer.
pub proof fn lemma_decimal_reads_back(n: int)
    ensures
        signed_value(decimal(n)) == Some(n),
{
    if n < 0 {
        lemma_decimal_nat_value((-n) as nat);
        assert(decimal(n).drop_first() =~= decimal_nat((-n) as nat));
    } else {
        lemma_decimal_nat_value(n as nat);
    }
}

/// Ten to a power.
pub open spec fn ten_to(k: nat) -> nat
    decreases k,
{
    if k == 0 {
        1
    } else {
        10 * ten_to((k - 1) as nat)
    }
}

proof fn lemma_decimal_nat_len(n: nat, k: nat)
    requires
        k > 0,
        n < ten_to(k),
    ensures
        decimal_nat(n).len() <= k,
    decreases k,
{
    if n >= 10 {
        if k == 1 {
            assert(ten_to(1) == 10 * ten_to(0));
        } else {
            lemma_decimal_nat_len(n / 10, (k - 1) as nat);
        }
    }
}

/// A 64-bit integer takes at most 20 characters.
pub proof fn lemma_decimal_len(n: int)
    requires
        i64::MIN <= n <= i64::MAX,
    ensures
        decimal(n).len() <= 20,
{
    reveal_with_fuel(ten_to, 20);
    if n < 0 {
        lemma_decimal_nat_len((-n) as nat, 19);
    } else {
        lemma_decimal_nat_len(n as nat, 19);
    }
}

/// The lower-case hexadecimal digit of `d`, for `d` below sixteen.
pub open spec fn hex_digit(d: int) -> char {
    if d < 10 {
        (48 + d) as char
    } else {
        (87 + d) as char
    }
}

/// A byte string in lower-case hexadecimal notation, two digits a byte.
pub open spec fn hex_of(bytes: Seq<u8>) -> Seq<char>
    decreases bytes.len(),
{
    if bytes.len() == 0 {
        Seq::empty()
    } else {
        hex_of(bytes.drop_last()).push(hex_digit(bytes.last() as int / 16)).push(
            hex_digit(bytes.last() as int % 16),
        )
    }
}

fn hex_char(d: u8) -> (c: char)
    requires
        d < 16,
    ensures
        c == hex_digit(d as int),
{
    if d < 10 {
        (48 + d) as char
    } else {
        (87 + d) as char
    }
}

/// Writes a byte string in hexadecimal notation.
pub fn hex(bytes: &Vec<u8>) -> (s: String)
    ensures
        s@ == hex_of(bytes@),
{
    let mut s = String::new();
    let mut i: usize = 0;
    while i < bytes.len()
        invariant
            i <= bytes@.len(),
            s@ == hex_of(bytes@.take(i as int)),
        decreases bytes@.len() - i,
    {
        s.push(hex_char(bytes[i] / 16));
        s.push(hex_char(bytes[i] % 16));
        i = i + 1;
        assert(bytes@.take(i as int).drop_last() =~= bytes@.take(i - 1));
    }
    assert(bytes@.take(i as int) =~= bytes@);
    s
}

pub proof fn lemma_hex_len(bytes: Seq<u8>)
    ensures
        hex_of(bytes).len() == 2 * bytes.len(),
    decreases bytes.len(),
{
    if bytes.len() > 0 {
        lemma_hex_len(bytes.drop_last());
    }
}

} // verus!
