//! Parsing of the byte-sized numeric option values (`7`, `0xf4`, `0XF5`).
use crate::text::{decimal, digit_char, hex_byte};
use vstd::prelude::*;

verus! {

/// The value of `c` as a digit in base `radix` (10 or 16), if it is one.
pub open spec fn digit_value(c: char, radix: nat) -> Option<nat> {
    if '0' <= c && c <= '9' {
        Some((c as nat - '0' as nat) as nat)
    } else if radix == 16 && 'a' <= c && c <= 'f' {
        Some((c as nat - 'a' as nat + 10) as nat)
    } else if radix == 16 && 'A' <= c && c <= 'F' {
        Some((c as nat - 'A' as nat + 10) as nat)
    } else {
        None
    }
}

/// Every character of `s` is a digit in base `radix`.
pub open spec fn all_digits(s: Seq<char>, radix: nat) -> bool {
    forall|i: int| 0 <= i < s.len() ==> (#[trigger] digit_value(s[i], radix)) is Some
}

/// The number that the digits `s` denote in base `radix`, most significant first.
pub open spec fn digits_value(s: Seq<char>, radix: nat) -> nat
    decreases s.len(),
{
    if s.len() == 0 {
        0
    } else {
        digits_value(s.drop_last(), radix) * radix + match digit_value(s.last(), radix) {
            Some(d) => d,
            None => 0,
        }
    }
}

/// `s` starts with `0x` or `0X` and has at least one character after it.
pub open spec fn is_hex_prefixed(s: Seq<char>) -> bool {
    s.len() > 2 && s[0] == '0' && (s[1] == 'x' || s[1] == 'X')
}

/// The number written in `s`: hexadecimal after a `0x` / `0X` prefix, decimal otherwise.
pub open spec fn number_value(s: Seq<char>) -> Option<nat> {
    if is_hex_prefixed(s) {
        let digits = s.subrange(2, s.len() as int);
        if all_digits(digits, 16) {
            Some(digits_value(digits, 16))
        } else {
            None
        }
    } else if s.len() > 0 && all_digits(s, 10) {
        Some(digits_value(s, 10))
    } else {
        None
    }
}

/// The byte written in `s`, if `s` is a number (see `number_value`) no larger than 255.
pub open spec fn byte_value(s: Seq<char>) -> Option<u8> {
    match number_value(s) {
        Some(v) => if v <= 255 {
            Some(v as u8)
        } else {
            None
        },
        None => None,
    }
}

/// The integer written in `s` as `str::parse::<i32>` reads it: an optional `+` or `-`, then at
/// least one decimal digit.
pub open spec fn integer_value(s: Seq<char>) -> Option<int> {
    if s.len() > 0 && (s[0] == '+' || s[0] == '-') {
        let digits = s.subrange(1, s.len() as int);
        if digits.len() > 0 && all_digits(digits, 10) {
            Some(
                if s[0] == '-' {
                    -digits_value(digits, 10)
                } else {
                    digits_value(digits, 10) as int
                },
            )
        } else {
            None
        }
    } else if s.len() > 0 && all_digits(s, 10) {
        Some(digits_value(s, 10) as int)
    } else {
        None
    }
}

/// The `i32` written in `s` (see `integer_value`), if it is in range.
pub open spec fn i32_value(s: Seq<char>) -> Option<i32> {
    match integer_value(s) {
        Some(v) => if i32::MIN <= v <= i32::MAX {
            Some(v as i32)
        } else {
            None
        },
        None => None,
    }
}

/// Digit values never make a prefix worth more than the whole.
proof fn lemma_digits_value_monotonic(s: Seq<char>, radix: nat, i: int, j: int)
    requires
        radix >= 1,
        0 <= i <= j <= s.len(),
    ensures
        digits_value(s.subrange(0, i), radix) <= digits_value(s.subrange(0, j), radix),
    decreases j - i,
{
    if i < j {
        lemma_digits_value_monotonic(s, radix, i, j - 1);
        let prefix = s.subrange(0, j);
        assert(prefix.drop_last() =~= s.subrange(0, j - 1));
        let v = digits_value(s.subrange(0, j - 1), radix);
        assert(v * radix >= v) by (nonlinear_arith)
            requires
                radix >= 1,
        ;
    }
}

fn digit_of(c: char, radix: u32) -> (r: Option<u32>)
    requires
        radix == 10 || radix == 16,
    ensures
        r matches Some(d) ==> digit_value(c, radix as nat) == Some(d as nat) && d < radix,
        r is None ==> digit_value(c, radix as nat) is None,
{
    let n = c as u32;
    if '0' <= c && c <= '9' {
        Some(n - ('0' as u32))
    } else if radix == 16 && 'a' <= c && c <= 'f' {
        Some(n - ('a' as u32) + 10)
    } else if radix == 16 && 'A' <= c && c <= 'F' {
        Some(n - ('A' as u32) + 10)
    } else {
        None
    }
}

/// The number that the digits `s[start..]` denote in base `radix`, if they are all digits and
/// denote at most `limit`.
fn parse_digits(s: &str, start: usize, radix: u32, limit: u64) -> (r: Option<u64>)
    requires
        radix == 10 || radix == 16,
        start <= s@.len(),
        limit <= 0x8000_0000,
    ensures
        ({
            let digits = s@.subrange(start as int, s@.len() as int);
            r == (if all_digits(digits, radix as nat) && digits_value(digits, radix as nat) <= limit {
                Some(digits_value(digits, radix as nat) as u64)
            } else {
                None
            })
        }),
{
    let n = s.unicode_len();
    let ghost digits = s@.subrange(start as int, s@.len() as int);
    let mut acc: u64 = 0;
    let mut i: usize = start;
    while i < n
        invariant
            n == s@.len(),
            start <= i <= n,
            radix == 10 || radix == 16,
            limit <= 0x8000_0000,
            digits == s@.subrange(start as int, s@.len() as int),
            acc <= limit,
            acc == digits_value(digits.subrange(0, i - start), radix as nat),
            all_digits(digits.subrange(0, i - start), radix as nat),
        decreases n - i,
    {
        let c = s.get_char(i);
        match digit_of(c, radix) {
            None => {
                assert(digits[i - start] == c);
                assert(!all_digits(digits, radix as nat));
                return None;
            },
            Some(d) => {
                let ghost prefix = digits.subrange(0, i + 1 - start);
                assert(prefix.drop_last() =~= digits.subrange(0, i - start));
                assert(prefix.last() == c);
                assert(all_digits(prefix, radix as nat)) by {
                    assert forall|j: int| 0 <= j < prefix.len() implies (#[trigger] digit_value(
                        prefix[j],
                        radix as nat,
                    )) is Some by {
                        if j < prefix.len() - 1 {
                            assert(prefix[j] == digits.subrange(0, i - start)[j]);
                        }
                    }
                }
                assert(acc * (radix as u64) + (d as u64) <= 0x8000_0000 * 16 + 15) by (nonlinear_arith)
                    requires
                        acc <= 0x8000_0000,
                        radix <= 16,
                        d < 16,
                ;
                acc = acc * (radix as u64) + (d as u64);
                i = i + 1;
                if acc > limit {
                    proof {
                        if all_digits(digits, radix as nat) {
                            lemma_digits_value_monotonic(
                                digits,
                                radix as nat,
                                i - start,
                                digits.len() as int,
                            );
                            assert(digits.subrange(0, digits.len() as int) =~= digits);
                        }
                    }
                    return None;
                }
            },
        }
    }
    assert(digits.subrange(0, n - start) =~= digits);
    Some(acc)
}

/// Parses a byte-sized number: decimal digits, or `0x` / `0X` followed by hexadecimal digits.
pub fn parse_byte(s: &str) -> (r: Option<u8>)
    ensures
        r == byte_value(s@),
{
    let n = s.unicode_len();
    if n > 2 && s.get_char(0) == '0' && (s.get_char(1) == 'x' || s.get_char(1) == 'X') {
        match parse_digits(s, 2, 16, 255) {
            Some(v) => Some(v as u8),
            None => None,
        }
    } else if n > 0 {
        let r = parse_digits(s, 0, 10, 255);
        assert(s@.subrange(0, s@.len() as int) =~= s@);
        match r {
            Some(v) => Some(v as u8),
            None => None,
        }
    } else {
        None
    }
}

/// Parses an `i32` in decimal with an optional sign (see `integer_value`).
pub fn parse_i32(s: &str) -> (r: Option<i32>)
    ensures
        r == i32_value(s@),
{
    let n = s.unicode_len();
    if n == 0 {
        return None;
    }
    let first = s.get_char(0);
    if first == '+' || first == '-' {
        if n == 1 {
            return None;
        }
        match parse_digits(s, 1, 10, 0x8000_0000) {
            None => None,
            Some(m) => if first == '-' {
                Some((0 - (m as i64)) as i32)
            } else if m <= 0x7fff_ffff {
                Some(m as i32)
            } else {
                None
            },
        }
    } else {
        let r = parse_digits(s, 0, 10, 0x7fff_ffff);
        assert(s@.subrange(0, s@.len() as int) =~= s@);
        match r {
            Some(m) => Some(m as i32),
            None => None,
        }
    }
}

proof fn lemma_digit_char_value(k: nat)
    requires
        k < 16,
    ensures
        digit_value(digit_char(k), 16) == Some(k),
        k < 10 ==> digit_value(digit_char(k), 10) == Some(k),
        k < 10 ==> '0' <= digit_char(k) <= '9',
{
}

proof fn lemma_digits_value_push(s: Seq<char>, c: char, radix: nat)
    ensures
        digits_value(s.push(c), radix) == digits_value(s, radix) * radix + match digit_value(
            c,
            radix,
        ) {
            Some(d) => d,
            None => 0,
        },
{
    assert(s.push(c).drop_last() =~= s);
}

proof fn lemma_decimal_digits(n: nat)
    ensures
        decimal(n).len() >= 1,
        all_digits(decimal(n), 10),
        digits_value(decimal(n), 10) == n,
        forall|i: int| 0 <= i < decimal(n).len() ==> '0' <= #[trigger] decimal(n)[i] <= '9',
    decreases n,
{
    if n < 10 {
        lemma_digit_char_value(n);
        assert(seq![digit_char(n)].drop_last() =~= Seq::<char>::empty());
        assert(digits_value(Seq::<char>::empty(), 10) == 0);
        assert(digits_value(decimal(n), 10) == 0 * 10 + n);
    } else {
        lemma_decimal_digits(n / 10);
        lemma_digit_char_value(n % 10);
        let prefix = decimal(n / 10);
        assert(decimal(n) == prefix.push(digit_char(n % 10)));
        lemma_digits_value_push(prefix, digit_char(n % 10), 10);
        assert(n == (n / 10) * 10 + n % 10);
        assert(digits_value(decimal(n), 10) == digits_value(prefix, 10) * 10 + n % 10);
        assert forall|i: int| 0 <= i < decimal(n).len() implies '0' <= #[trigger] decimal(n)[i]
            <= '9' && (#[trigger] digit_value(decimal(n)[i], 10)) is Some by {
            if i < prefix.len() {
                assert(decimal(n)[i] == prefix[i]);
            }
        }
    }
}

/// Reading back a byte written as `format!("{b:#04x}")` gives the byte: every lower-case hex
/// digit has its value.
pub proof fn law_hex_byte_round_trip(b: u8)
    ensures
        byte_value(hex_byte(b)) == Some(b),
        number_value(hex_byte(b)) == Some(b as nat),
{
    let hi = b as nat / 16;
    let lo = b as nat % 16;
    lemma_digit_char_value(hi);
    lemma_digit_char_value(lo);
    let digits = hex_byte(b).subrange(2, 4);
    assert(digits =~= seq![digit_char(hi), digit_char(lo)]);
    assert(digits.drop_last() =~= seq![digit_char(hi)]);
    assert(digits.drop_last().drop_last() =~= Seq::<char>::empty());
    assert(digits_value(Seq::<char>::empty(), 16) == 0);
    assert(digits_value(digits.drop_last(), 16) == 0 * 16 + hi);
    assert(digits.last() == digit_char(lo));
    assert(digits_value(digits, 16) == hi * 16 + lo);
    assert(hi * 16 + lo == b);
}

/// Reading back a byte written in decimal (`format!("{b}")`) gives the byte.
pub proof fn law_decimal_byte_round_trip(b: u8)
    ensures
        byte_value(decimal(b as nat)) == Some(b),
{
    lemma_decimal_digits(b as nat);
    let d = decimal(b as nat);
    if d.len() > 2 {
        assert('0' <= d[1] <= '9');
    }
}

/// Reading back an `i32` written in decimal (`format!("{v}")`: a `-` before negative values)
/// gives the value.
pub proof fn law_decimal_i32_round_trip(v: i32)
    ensures
        v >= 0 ==> i32_value(decimal(v as nat)) == Some(v),
        v < 0 ==> i32_value(seq!['-'] + decimal((-v) as nat)) == Some(v),
{
    if v >= 0 {
        lemma_decimal_digits(v as nat);
        assert('0' <= decimal(v as nat)[0] <= '9');
    } else {
        let d = decimal((-v) as nat);
        lemma_decimal_digits((-v) as nat);
        let s = seq!['-'] + d;
        assert(s.subrange(1, s.len() as int) =~= d);
        assert(s[0] == '-');
    }
}

/// Upper-case hexadecimal digits have the values of their lower-case forms, and decimal digits
/// are worth the same in both bases.
pub proof fn law_digit_cases(k: nat)
    requires
        k < 16,
    ensures
        k >= 10 ==> digit_value(((digit_char(k) as u32) - 32) as char, 16) == Some(k),
        k < 10 ==> digit_value(digit_char(k), 10) == digit_value(digit_char(k), 16),
        digit_value(digit_char(k), 16) == Some(k),
{
    lemma_digit_char_value(k);
}

/// The decimal text of a number consists of decimal digits that denote it.
pub proof fn law_decimal_denotes_its_value(n: nat)
    ensures
        decimal(n).len() >= 1,
        all_digits(decimal(n), 10),
        digits_value(decimal(n), 10) == n,
{
    lemma_decimal_digits(n);
}

} // verus!
