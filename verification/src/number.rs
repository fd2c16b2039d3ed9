//! Integer text: parsing decimal and hexadecimal numerals the way
//! `i64::from_str_radix` and `u32::from_str` read them.
use vstd::prelude::*;

verus! {

/// Why a numeral failed to parse (the kinds of `core::num::IntErrorKind`
/// that signed and unsigned parsing can produce).
#[derive(Clone, Copy, Debug, PartialEq, Eq, Structural)]
pub enum IntErrorKind {
    Empty,
    InvalidDigit,
    PosOverflow,
    NegOverflow,
}

/// The text that `ParseIntError` displays for each kind.
pub open spec fn int_error_text(e: IntErrorKind) -> Seq<char> {
    match e {
        IntErrorKind::Empty => "cannot parse integer from empty string"@,
        IntErrorKind::InvalidDigit => "invalid digit found in string"@,
        IntErrorKind::PosOverflow => "number too large to fit in target type"@,
        IntErrorKind::NegOverflow => "number too small to fit in target type"@,
    }
}

/// The value of `c` as a digit in `radix` (2..=36), as `char::to_digit` gives it.
pub open spec fn digit_value(c: char, radix: int) -> Option<int> {
    let v = if '0' <= c && c <= '9' {
        c as int - '0' as int
    } else if 'a' <= c && c <= 'z' {
        c as int - 'a' as int + 10
    } else if 'A' <= c && c <= 'Z' {
        c as int - 'A' as int + 10
    } else {
        36
    };
    if v < radix {
        Some(v)
    } else {
        None
    }
}

/// Reads the digits `d` left to right in `radix`, accumulating towards
/// negative values when `negative` holds; the first digit that is invalid
/// or that leaves the range of `i64` decides the error.
pub open spec fn digits_value(d: Seq<char>, radix: int, negative: bool) -> Result<int, IntErrorKind>
    decreases d.len(),
{
    if d.len() == 0 {
        Ok(0)
    } else {
        match digits_value(d.drop_last(), radix, negative) {
            Err(e) => Err(e),
            Ok(v) => match digit_value(d.last(), radix) {
                None => Err(IntErrorKind::InvalidDigit),
                Some(x) => if negative {
                    if v * radix - x < i64::MIN {
                        Err(IntErrorKind::NegOverflow)
                    } else {
                        Ok(v * radix - x)
                    }
                } else {
                    if v * radix + x > i64::MAX {
                        Err(IntErrorKind::PosOverflow)
                    } else {
                        Ok(v * radix + x)
                    }
                },
            },
        }
    }
}

/// What `i64::from_str_radix(s, radix)` returns for the text `s`.
pub open spec fn parse_i64_spec(s: Seq<char>, radix: int) -> Result<i64, IntErrorKind> {
    if s.len() == 0 {
        Err(IntErrorKind::Empty)
    } else if s.len() == 1 && (s[0] == '+' || s[0] == '-') {
        Err(IntErrorKind::InvalidDigit)
    } else {
        let negative = s[0] == '-';
        let d = if s[0] == '-' || s[0] == '+' {
            s.drop_first()
        } else {
            s
        };
        match digits_value(d, radix, negative) {
            Ok(v) => Ok(v as i64),
            Err(e) => Err(e),
        }
    }
}

/// Whether every character of `d` is an ASCII decimal digit.
pub open spec fn all_decimal(d: Seq<char>) -> bool {
    forall|i: int| 0 <= i < d.len() ==> '0' <= #[trigger] d[i] && d[i] <= '9'
}

/// The value of the decimal numeral `d`.
pub open spec fn decimal_value(d: Seq<char>) -> nat
    decreases d.len(),
{
    if d.len() == 0 {
        0
    } else {
        (decimal_value(d.drop_last()) * 10 + (d.last() as int - '0' as int)) as nat
    }
}

/// The value that `u32::from_str(s)` succeeds with, when that value is at
/// most 31; `None` when it fails or gives a larger value.
pub open spec fn small_u32(s: Seq<char>) -> Option<u32> {
    let d = if s.len() > 0 && s[0] == '+' {
        s.drop_first()
    } else {
        s
    };
    if d.len() > 0 && all_decimal(d) && decimal_value(d) <= 31 {
        Some(decimal_value(d) as u32)
    } else {
        None
    }
}

proof fn lemma_digits_value_range(d: Seq<char>, radix: int, negative: bool)
    requires
        2 <= radix <= 36,
    ensures
        digits_value(d, radix, negative) matches Ok(v) ==> if negative {
            i64::MIN <= v <= 0
        } else {
            0 <= v <= i64::MAX
        },
    decreases d.len(),
{
    if d.len() > 0 {
        lemma_digits_value_range(d.drop_last(), radix, negative);
        if let Ok(v) = digits_value(d.drop_last(), radix, negative) {
            if let Some(x) = digit_value(d.last(), radix) {
                if negative {
                    assert(v * radix <= 0) by (nonlinear_arith)
                        requires
                            v <= 0,
                            radix >= 2,
                    ;
                } else {
                    assert(v * radix >= 0) by (nonlinear_arith)
                        requires
                            v >= 0,
                            radix >= 2,
                    ;
                }
            }
        }
    }
}

/// `char::to_digit(c, radix)`.
pub fn digit_of(c: char, radix: u32) -> (r: Option<u32>)
    requires
        2 <= radix <= 36,
    ensures
        r matches Some(v) ==> digit_value(c, radix as int) == Some(v as int),
        r is None ==> digit_value(c, radix as int) is None,
{
    let v: u32 = if '0' <= c && c <= '9' {
        (c as u32) - ('0' as u32)
    } else if 'a' <= c && c <= 'z' {
        (c as u32) - ('a' as u32) + 10
    } else if 'A' <= c && c <= 'Z' {
        (c as u32) - ('A' as u32) + 10
    } else {
        36
    };
    if v < radix {
        Some(v)
    } else {
        None
    }
}

/// Parses `s` as `i64::from_str_radix(s, radix)` does.
pub fn parse_i64(s: &[char], radix: u32) -> (r: Result<i64, IntErrorKind>)
    requires
        radix == 10 || radix == 16,
    ensures
        r == parse_i64_spec(s@, radix as int),
{
    let n = s.len();
    if n == 0 {
        return Err(IntErrorKind::Empty);
    }
    if n == 1 && (s[0] == '+' || s[0] == '-') {
        return Err(IntErrorKind::InvalidDigit);
    }
    let negative = s[0] == '-';
    let start: usize = if s[0] == '-' || s[0] == '+' {
        1
    } else {
        0
    };
    let ghost d = if s@[0] == '-' || s@[0] == '+' {
        s@.drop_first()
    } else {
        s@
    };
    assert(d =~= s@.skip(start as int));
    let mut v: i64 = 0;
    let mut i: usize = start;
    assert(d.take(0) =~= Seq::<char>::empty());
    assert(parse_i64_spec(s@, radix as int) == match digits_value(d, radix as int, negative) {
        Ok(v) => Ok(v as i64),
        Err(e) => Err(e),
    });
    while i < n
        invariant
            start <= i <= n == s@.len(),
            d == s@.skip(start as int),
            radix == 10 || radix == 16,
            parse_i64_spec(s@, radix as int) == match digits_value(d, radix as int, negative) {
                Ok(v) => Ok(v as i64),
                Err(e) => Err(e),
            },
            digits_value(d.take(i - start), radix as int, negative) == Ok::<int, IntErrorKind>(v as int),
        decreases n - i,
    {
        let k = i - start;
        assert(d.take(k + 1).drop_last() =~= d.take(k as int));
        assert(d.take(k + 1).last() == s@[i as int]);
        let x = match digit_of(s[i], radix) {
            Some(x) => x,
            None => {
                proof {
                    lemma_prefix_error(d, radix as int, negative, k + 1);
                }
                return Err(IntErrorKind::InvalidDigit);
            },
        };
        proof {
            lemma_digits_value_range(d.take(k as int), radix as int, negative);
        }
        assert(-0x10_0000_0000_0000_0000 <= (v as int) * (radix as int) <= 0x10_0000_0000_0000_0000)
            by (nonlinear_arith)
            requires
                0 <= radix <= 16,
                i64::MIN <= v <= i64::MAX,
        ;
        let wide: i128 = if negative {
            (v as i128) * (radix as i128) - (x as i128)
        } else {
            (v as i128) * (radix as i128) + (x as i128)
        };
        if negative && wide < (i64::MIN as i128) {
            proof {
                lemma_prefix_error(d, radix as int, negative, k + 1);
            }
            return Err(IntErrorKind::NegOverflow);
        }
        if !negative && wide > (i64::MAX as i128) {
            proof {
                lemma_prefix_error(d, radix as int, negative, k + 1);
            }
            return Err(IntErrorKind::PosOverflow);
        }
        v = wide as i64;
        i = i + 1;
    }
    assert(d.take(n - start) =~= d);
    Ok(v)
}

/// Once a prefix of the digits fails, the whole numeral fails the same way.
proof fn lemma_prefix_error(d: Seq<char>, radix: int, negative: bool, k: int)
    requires
        0 <= k <= d.len(),
        digits_value(d.take(k), radix, negative) is Err,
    ensures
        digits_value(d, radix, negative) == digits_value(d.take(k), radix, negative),
    decreases d.len(),
{
    if k < d.len() {
        assert(d.drop_last().take(k) =~= d.take(k));
        lemma_prefix_error(d.drop_last(), radix, negative, k);
    } else {
        assert(d.take(k) =~= d);
    }
}

/// Reads a register number as `u32::from_str` does, keeping it only when it
/// is at most 31.
pub fn parse_small_u32(s: &[char]) -> (r: Option<u32>)
    ensures
        r == small_u32(s@),
{
    let n = s.len();
    let start: usize = if n > 0 && s[0] == '+' {
        1
    } else {
        0
    };
    let ghost d = if s@.len() > 0 && s@[0] == '+' {
        s@.drop_first()
    } else {
        s@
    };
    assert(d =~= s@.skip(start as int));
    if start == n {
        return None;
    }
    let mut v: u32 = 0;
    let mut i: usize = start;
    assert(d.take(0) =~= Seq::<char>::empty());
    while i < n
        invariant
            start <= i <= n == s@.len(),
            d == s@.skip(start as int),
            small_u32(s@) == if d.len() > 0 && all_decimal(d) && decimal_value(d) <= 31 {
                Some(decimal_value(d) as u32)
            } else {
                None
            },
            all_decimal(d.take(i - start)),
            v as int == if decimal_value(d.take(i - start)) >= 32 {
                32
            } else {
                decimal_value(d.take(i - start)) as int
            },
        decreases n - i,
    {
        let k = i - start;
        assert(d.take(k + 1).drop_last() =~= d.take(k as int));
        let c = s[i];
        if !('0' <= c && c <= '9') {
            assert(!all_decimal(d)) by {
                assert(d[k as int] == c);
            }
            return None;
        }
        let x = (c as u32) - ('0' as u32);
        let w = v * 10 + x;
        v = if w >= 32 {
            32
        } else {
            w
        };
        assert(all_decimal(d.take(k + 1))) by {
            assert forall|j: int| 0 <= j < k + 1 implies '0' <= #[trigger] d.take(k + 1)[j]
                && d.take(k + 1)[j] <= '9' by {
                if j < k {
                    assert(d.take(k + 1)[j] == d.take(k as int)[j]);
                }
            }
        }
        i = i + 1;
    }
    assert(d.take(n - start) =~= d);
    if v <= 31 {
        Some(v)
    } else {
        None
    }
}

} // verus!
