//! Reading integers written in a radix, the way Rust's `from_str_radix` reads them: an
//! optional sign (`-` only for signed types), then at least one digit, and nothing else.

use vstd::prelude::*;

verus! {

/// The value of an ASCII digit or letter, or 36 for any other byte.
pub open spec fn digit_value(b: u8) -> int {
    if 48 <= b <= 57 {
        b - 48
    } else if 97 <= b <= 122 {
        b - 97 + 10
    } else if 65 <= b <= 90 {
        b - 65 + 10
    } else {
        36
    }
}

/// Whether every byte of `s` is a digit in `radix`.
pub open spec fn all_digits(s: Seq<u8>, radix: int) -> bool {
    forall|i: int| 0 <= i < s.len() ==> #[trigger] digit_value(s[i]) < radix
}

/// The value of the digits `s` in `radix`, most significant first.
pub open spec fn digits_value(s: Seq<u8>, radix: int) -> int
    decreases s.len(),
{
    if s.len() == 0 {
        0
    } else {
        digits_value(s.drop_last(), radix) * radix + digit_value(s.last())
    }
}

/// The integer that `s` spells in `radix`, if it spells one.
pub open spec fn spec_integer(s: Seq<u8>, radix: int, signed: bool) -> Option<int> {
    let negative = signed && s.len() > 0 && s[0] == 45u8;
    let digits = if s.len() > 0 && (s[0] == 43u8 || negative) {
        s.skip(1)
    } else {
        s
    };
    if digits.len() > 0 && all_digits(digits, radix) {
        Some(
            if negative {
                -digits_value(digits, radix)
            } else {
                digits_value(digits, radix)
            },
        )
    } else {
        None
    }
}

/// The integer that `s` spells in `radix`, if it spells one within `minimum ..= maximum`.
pub open spec fn spec_integer_in(s: Seq<u8>, radix: int, signed: bool, minimum: int, maximum: int) -> Option<int> {
    match spec_integer(s, radix, signed) {
        Some(v) => if minimum <= v <= maximum {
            Some(v)
        } else {
            None
        },
        None => None,
    }
}

proof fn lemma_digits_value_nonnegative(s: Seq<u8>, radix: int)
    requires
        2 <= radix <= 36,
        all_digits(s, radix),
    ensures
        digits_value(s, radix) >= 0,
    decreases s.len(),
{
    if s.len() > 0 {
        lemma_digits_value_nonnegative(s.drop_last(), radix);
        assert(digit_value(s[s.len() - 1]) >= 0);
        assert(digits_value(s.drop_last(), radix) * radix >= 0) by (nonlinear_arith)
            requires
                digits_value(s.drop_last(), radix) >= 0,
                radix >= 2,
        ;
    }
}

/// Appending digits never makes the value smaller.
proof fn lemma_digits_value_grows(s: Seq<u8>, j: int, radix: int)
    requires
        2 <= radix <= 36,
        0 <= j <= s.len(),
        all_digits(s, radix),
    ensures
        digits_value(s.take(j), radix) <= digits_value(s, radix),
    decreases s.len() - j,
{
    if j < s.len() {
        lemma_digits_value_grows(s, j + 1, radix);
        let p = s.take(j + 1);
        assert(p.drop_last() =~= s.take(j));
        lemma_digits_value_nonnegative(s.take(j), radix);
        assert(digit_value(p.last()) >= 0);
        let v = digits_value(s.take(j), radix);
        assert(v <= v * radix) by (nonlinear_arith)
            requires
                v >= 0,
                radix >= 2,
        ;
    } else {
        assert(s.take(j) =~= s);
    }
}

/// Reads the digits `s[start..]` in `radix` into a `u64`, if they are all digits, there is
/// at least one, and their value fits.
fn parse_digits(s: &[u8], start: usize, radix: u64) -> (r: Option<u64>)
    requires
        2 <= radix <= 36,
        start <= s@.len(),
    ensures
        ({
            let digits = s@.skip(start as int);
            match r {
                Some(v) => digits.len() > 0 && all_digits(digits, radix as int) && v == digits_value(
                    digits,
                    radix as int,
                ),
                None => digits.len() == 0 || !all_digits(digits, radix as int) || digits_value(
                    digits,
                    radix as int,
                ) > u64::MAX,
            }
        }),
{
    let ghost digits = s@.skip(start as int);
    if start == s.len() {
        return None;
    }
    let mut value: u64 = 0;
    let mut i: usize = start;
    while i < s.len()
        invariant
            start <= i <= s@.len(),
            digits == s@.skip(start as int),
            2 <= radix <= 36,
            all_digits(digits.take(i - start), radix as int),
            value == digits_value(digits.take(i - start), radix as int),
        decreases s@.len() - i,
    {
        let b = s[i];
        let d: u64 = if 48 <= b && b <= 57 {
            (b - 48) as u64
        } else if 97 <= b && b <= 122 {
            (b - 97 + 10) as u64
        } else if 65 <= b && b <= 90 {
            (b - 65 + 10) as u64
        } else {
            36
        };
        proof {
            assert(digits[i - start] == b);
            assert(d == digit_value(b));
            assert(digits.take(i - start + 1).drop_last() =~= digits.take(i - start));
        }
        if d >= radix {
            return None;
        }
        proof {
            assert(all_digits(digits.take(i - start + 1), radix as int));
        }
        let next = match value.checked_mul(radix) {
            Some(m) => m.checked_add(d),
            None => None,
        };
        match next {
            Some(n) => {
                value = n;
            },
            None => {
                proof {
                    if all_digits(digits, radix as int) {
                        lemma_digits_value_grows(digits, i - start + 1, radix as int);
                        lemma_digits_value_nonnegative(digits.take(i - start), radix as int);
                        assert(value * radix + d > u64::MAX);
                    }
                }
                return None;
            },
        }
        i = i + 1;
    }
    assert(digits.take(i - start) =~= digits);
    Some(value)
}

/// Reads the integer `s` spells in `radix`, if it spells one within
/// `minimum ..= maximum`; a `-` sign is taken only when `signed`.
pub fn parse_integer(s: &[u8], radix: u32, signed: bool, minimum: i64, maximum: u64) -> (r: Option<i128>)
    requires
        2 <= radix <= 36,
        minimum <= 0,
    ensures
        r matches Some(v) ==> spec_integer_in(s@, radix as int, signed, minimum as int, maximum as int)
            == Some(v as int),
        r is None ==> spec_integer_in(s@, radix as int, signed, minimum as int, maximum as int) is None,
{
    let negative = signed && s.len() > 0 && s[0] == 45u8;
    let start: usize = if s.len() > 0 && (s[0] == 43u8 || negative) {
        1
    } else {
        0
    };
    proof {
        if start == 0 {
            assert(s@.skip(0) =~= s@);
        }
    }
    match parse_digits(s, start, radix as u64) {
        Some(magnitude) => {
            if negative {
                let bound: u64 = if minimum == i64::MIN {
                    0x8000_0000_0000_0000
                } else {
                    (-minimum) as u64
                };
                if magnitude <= bound {
                    Some(-(magnitude as i128))
                } else {
                    None
                }
            } else if magnitude <= maximum {
                Some(magnitude as i128)
            } else {
                None
            }
        },
        None => {
            proof {
                let digits = s@.skip(start as int);
                if digits.len() > 0 && all_digits(digits, radix as int) {
                    assert(digits_value(digits, radix as int) > u64::MAX);
                }
            }
            None
        },
    }
}

} // verus!
