//! Operands of an assembly instruction: register names, immediates and
//! `offset(register)` memory references.
use vstd::prelude::*;
use crate::number::{IntErrorKind, int_error_text, parse_i64, parse_i64_spec, parse_small_u32, small_u32};
use crate::text::{
    chars_of, eq_lit, find, find_char, lemma_find_bounds, lit_then, starts_with_lit, token,
    token_range, trim, trimmed,
};

verus! {

/// A result whose error text is taken by its characters.
pub open spec fn view_res<T>(r: Result<T, String>) -> Result<T, Seq<char>> {
    match r {
        Ok(v) => Ok(v),
        Err(e) => Err(e@),
    }
}

/// The register number of an ABI register name.
pub open spec fn abi_register(name: Seq<char>) -> Option<u32> {
    if name == "zero"@ {
        Some(0)
    } else if name == "ra"@ {
        Some(1)
    } else if name == "sp"@ {
        Some(2)
    } else if name == "gp"@ {
        Some(3)
    } else if name == "tp"@ {
        Some(4)
    } else if name == "t0"@ {
        Some(5)
    } else if name == "t1"@ {
        Some(6)
    } else if name == "t2"@ {
        Some(7)
    } else if name == "s0"@ || name == "fp"@ {
        Some(8)
    } else if name == "s1"@ {
        Some(9)
    } else if name == "a0"@ {
        Some(10)
    } else if name == "a1"@ {
        Some(11)
    } else if name == "a2"@ {
        Some(12)
    } else if name == "a3"@ {
        Some(13)
    } else if name == "a4"@ {
        Some(14)
    } else if name == "a5"@ {
        Some(15)
    } else if name == "a6"@ {
        Some(16)
    } else if name == "a7"@ {
        Some(17)
    } else if name == "s2"@ {
        Some(18)
    } else if name == "s3"@ {
        Some(19)
    } else if name == "s4"@ {
        Some(20)
    } else if name == "s5"@ {
        Some(21)
    } else if name == "s6"@ {
        Some(22)
    } else if name == "s7"@ {
        Some(23)
    } else if name == "s8"@ {
        Some(24)
    } else if name == "s9"@ {
        Some(25)
    } else if name == "s10"@ {
        Some(26)
    } else if name == "s11"@ {
        Some(27)
    } else if name == "t3"@ {
        Some(28)
    } else if name == "t4"@ {
        Some(29)
    } else if name == "t5"@ {
        Some(30)
    } else if name == "t6"@ {
        Some(31)
    } else {
        None
    }
}

/// The number of an `x0`..`x31` register name.
pub open spec fn x_register(name: Seq<char>) -> Option<u32> {
    if name.len() > 0 && name[0] == 'x' {
        small_u32(name.drop_first())
    } else {
        None
    }
}

/// What reading `s` as a register gives: the token (trimmed, trailing
/// commas dropped) is `x0`..`x31` or an ABI name.
pub open spec fn register_spec(s: Seq<char>) -> Result<u32, Seq<char>> {
    let name = token(s);
    match x_register(name) {
        Some(n) => Ok(n),
        None => match abi_register(name) {
            Some(n) => Ok(n),
            None => Err("unknown register: "@ + name),
        },
    }
}

/// Whether `s` begins with `p`.
pub open spec fn has_prefix(s: Seq<char>, p: Seq<char>) -> bool {
    p.len() <= s.len() && s.take(p.len() as int) == p
}

/// The error text for an immediate `t` that failed to parse.
pub open spec fn immediate_error(t: Seq<char>, hex: bool, e: IntErrorKind) -> Seq<char> {
    (if hex {
        "bad hex immediate '"@
    } else {
        "bad immediate '"@
    }) + t + "': "@ + int_error_text(e)
}

/// Whether the token starts with `0x` or `0X`.
pub open spec fn is_hex_token(t: Seq<char>) -> bool {
    has_prefix(t, "0x"@) || has_prefix(t, "0X"@)
}

/// Whether the token starts with `-0x` or `-0X`.
pub open spec fn is_neg_hex_token(t: Seq<char>) -> bool {
    has_prefix(t, "-0x"@) || has_prefix(t, "-0X"@)
}

/// What reading `s` as an immediate gives: a hexadecimal numeral after
/// `0x`/`0X`, the negation of one after `-0x`/`-0X`, else a decimal numeral.
pub open spec fn immediate_spec(s: Seq<char>) -> Result<i64, Seq<char>> {
    let t = token(s);
    if is_hex_token(t) {
        match parse_i64_spec(t.skip(2), 16) {
            Ok(v) => Ok(v),
            Err(e) => Err(immediate_error(t, true, e)),
        }
    } else if is_neg_hex_token(t) {
        match parse_i64_spec(t.skip(3), 16) {
            Ok(v) => Ok((-v) as i64),
            Err(e) => Err(immediate_error(t, true, e)),
        }
    } else {
        match parse_i64_spec(t, 10) {
            Ok(v) => Ok(v),
            Err(e) => Err(immediate_error(t, false, e)),
        }
    }
}

/// Reading `s` as an immediate overflows: `-0x` followed by a numeral for
/// `i64::MIN`, whose negation does not fit.
pub open spec fn immediate_panics(s: Seq<char>) -> bool {
    let t = token(s);
    !is_hex_token(t) && is_neg_hex_token(t) && parse_i64_spec(t.skip(3), 16) == Ok::<
        i64,
        IntErrorKind,
    >(i64::MIN)
}

/// The error text for a malformed `offset(register)` operand.
pub open spec fn mem_syntax_error(t: Seq<char>) -> Seq<char> {
    "expected offset(reg) syntax, got '"@ + t + "'"@
}

/// What reading `s` as `offset(register)` gives: the immediate before the
/// first `(` and the register between it and the first `)`.
pub open spec fn mem_operand_spec(s: Seq<char>) -> Result<(i64, u32), Seq<char>> {
    let t = trim(s);
    match find(t, '(') {
        None => Err(mem_syntax_error(t)),
        Some(open) => match find(t, ')') {
            None => Err(mem_syntax_error(t)),
            Some(close) => match immediate_spec(t.take(open)) {
                Err(e) => Err(e),
                Ok(offset) => match register_spec(t.subrange(open + 1, close)) {
                    Err(e) => Err(e),
                    Ok(r) => Ok((offset, r)),
                },
            },
        },
    }
}

/// Reading `s` as `offset(register)` fails at run time: the offset
/// overflows, or the first `)` comes before the first `(`.
pub open spec fn mem_operand_panics(s: Seq<char>) -> bool {
    let t = trim(s);
    match (find(t, '('), find(t, ')')) {
        (Some(open), Some(close)) => immediate_panics(t.take(open)) || (immediate_spec(
            t.take(open),
        ) is Ok && close < open + 1),
        _ => false,
    }
}

/// Every register that reads successfully is one of the 32 registers.
pub proof fn law_register_below_32(s: Seq<char>)
    ensures
        register_spec(s) matches Ok(n) ==> n < 32,
{
}

fn abi_register_of(name: &[char]) -> (r: Option<u32>)
    ensures
        r == abi_register(name@),
{
    if eq_lit(name, "zero") {
        Some(0)
    } else if eq_lit(name, "ra") {
        Some(1)
    } else if eq_lit(name, "sp") {
        Some(2)
    } else if eq_lit(name, "gp") {
        Some(3)
    } else if eq_lit(name, "tp") {
        Some(4)
    } else if eq_lit(name, "t0") {
        Some(5)
    } else if eq_lit(name, "t1") {
        Some(6)
    } else if eq_lit(name, "t2") {
        Some(7)
    } else if eq_lit(name, "s0") || eq_lit(name, "fp") {
        Some(8)
    } else if eq_lit(name, "s1") {
        Some(9)
    } else if eq_lit(name, "a0") {
        Some(10)
    } else if eq_lit(name, "a1") {
        Some(11)
    } else if eq_lit(name, "a2") {
        Some(12)
    } else if eq_lit(name, "a3") {
        Some(13)
    } else if eq_lit(name, "a4") {
        Some(14)
    } else if eq_lit(name, "a5") {
        Some(15)
    } else if eq_lit(name, "a6") {
        Some(16)
    } else if eq_lit(name, "a7") {
        Some(17)
    } else if eq_lit(name, "s2") {
        Some(18)
    } else if eq_lit(name, "s3") {
        Some(19)
    } else if eq_lit(name, "s4") {
        Some(20)
    } else if eq_lit(name, "s5") {
        Some(21)
    } else if eq_lit(name, "s6") {
        Some(22)
    } else if eq_lit(name, "s7") {
        Some(23)
    } else if eq_lit(name, "s8") {
        Some(24)
    } else if eq_lit(name, "s9") {
        Some(25)
    } else if eq_lit(name, "s10") {
        Some(26)
    } else if eq_lit(name, "s11") {
        Some(27)
    } else if eq_lit(name, "t3") {
        Some(28)
    } else if eq_lit(name, "t4") {
        Some(29)
    } else if eq_lit(name, "t5") {
        Some(30)
    } else if eq_lit(name, "t6") {
        Some(31)
    } else {
        None
    }
}

/// Reads the characters `s` as a register.
pub fn register_of(s: &[char]) -> (r: Result<u32, String>)
    ensures
        view_res(r) == register_spec(s@),
{
    let (i, j) = token_range(s);
    let name = vstd::slice::slice_subrange(s, i, j);
    if name.len() > 0 && name[0] == 'x' {
        let rest = vstd::slice::slice_subrange(name, 1, name.len());
        assert(rest@ =~= name@.drop_first());
        if let Some(n) = parse_small_u32(rest) {
            return Ok(n);
        }
    }
    match abi_register_of(name) {
        Some(n) => Ok(n),
        None => Err(lit_then("unknown register: ", name)),
    }
}

/// Reads `name` as a register: `x0`..`x31` or an ABI name such as `a0`,
/// after trimming whitespace and trailing commas.
pub fn parse_register(name: &str) -> (r: Result<u32, String>)
    ensures
        view_res(r) == register_spec(name@),
{
    let cs = chars_of(name);
    register_of(cs.as_slice())
}

fn immediate_error_string(t: &[char], hex: bool, e: IntErrorKind) -> (s: String)
    ensures
        s@ == immediate_error(t@, hex, e),
{
    let mut s = if hex {
        lit_then("bad hex immediate '", t)
    } else {
        lit_then("bad immediate '", t)
    };
    s.append("': ");
    match e {
        IntErrorKind::Empty => s.append("cannot parse integer from empty string"),
        IntErrorKind::InvalidDigit => s.append("invalid digit found in string"),
        IntErrorKind::PosOverflow => s.append("number too large to fit in target type"),
        IntErrorKind::NegOverflow => s.append("number too small to fit in target type"),
    }
    s
}

/// Reads the characters `s` as an immediate; `None` exactly where the
/// reading overflows.
pub fn immediate_of(s: &[char]) -> (r: Option<Result<i64, String>>)
    ensures
        r is None <==> immediate_panics(s@),
        r matches Some(x) ==> view_res(x) == immediate_spec(s@),
{
    proof {
        reveal_strlit("0x");
        reveal_strlit("0X");
        reveal_strlit("-0x");
        reveal_strlit("-0X");
    }
    let (i, j) = token_range(s);
    let t = vstd::slice::slice_subrange(s, i, j);
    if starts_with_lit(t, "0x") || starts_with_lit(t, "0X") {
        let hex = vstd::slice::slice_subrange(t, 2, t.len());
        assert(hex@ =~= t@.skip(2));
        match parse_i64(hex, 16) {
            Ok(v) => Some(Ok(v)),
            Err(e) => Some(Err(immediate_error_string(t, true, e))),
        }
    } else if starts_with_lit(t, "-0x") || starts_with_lit(t, "-0X") {
        let hex = vstd::slice::slice_subrange(t, 3, t.len());
        assert(hex@ =~= t@.skip(3));
        match parse_i64(hex, 16) {
            Ok(v) => {
                if v == i64::MIN {
                    None
                } else {
                    Some(Ok(-v))
                }
            },
            Err(e) => Some(Err(immediate_error_string(t, true, e))),
        }
    } else {
        match parse_i64(t, 10) {
            Ok(v) => Some(Ok(v)),
            Err(e) => Some(Err(immediate_error_string(t, false, e))),
        }
    }
}

/// Reads `s` as an immediate: `0x`/`0X` hexadecimal, `-0x`/`-0X` negated
/// hexadecimal, or decimal, after trimming whitespace and trailing commas.
pub fn parse_immediate(s: &str) -> (r: Result<i64, String>)
    requires
        !immediate_panics(s@),
    ensures
        view_res(r) == immediate_spec(s@),
{
    let cs = chars_of(s);
    match immediate_of(cs.as_slice()) {
        Some(r) => r,
        None => {
            proof {
                assert(false);
            }
            Err(String::new())
        },
    }
}

/// Reads the characters `s` as `offset(register)`; `None` exactly where the
/// reading fails at run time.
pub fn mem_operand_of(s: &[char]) -> (r: Option<Result<(i64, u32), String>>)
    ensures
        r is None <==> mem_operand_panics(s@),
        r matches Some(x) ==> view_res(x) == mem_operand_spec(s@),
{
    let t = trimmed(s);
    let open = match find_char(t, '(') {
        Some(k) => k,
        None => {
            let mut e = lit_then("expected offset(reg) syntax, got '", t);
            e.append("'");
            return Some(Err(e));
        },
    };
    let close = match find_char(t, ')') {
        Some(k) => k,
        None => {
            let mut e = lit_then("expected offset(reg) syntax, got '", t);
            e.append("'");
            return Some(Err(e));
        },
    };
    proof {
        lemma_find_bounds(t@, '(');
        lemma_find_bounds(t@, ')');
    }
    let head = vstd::slice::slice_subrange(t, 0, open);
    assert(head@ =~= t@.take(open as int));
    let offset = match immediate_of(head) {
        None => return None,
        Some(Err(e)) => return Some(Err(e)),
        Some(Ok(v)) => v,
    };
    if close <= open {
        return None;
    }
    let inner = vstd::slice::slice_subrange(t, open + 1, close);
    match register_of(inner) {
        Ok(r) => Some(Ok((offset, r))),
        Err(e) => Some(Err(e)),
    }
}

/// Reads `s` as `offset(register)`, as load and store instructions write
/// their address.
pub fn parse_mem_operand(s: &str) -> (r: Result<(i64, u32), String>)
    requires
        !mem_operand_panics(s@),
    ensures
        view_res(r) == mem_operand_spec(s@),
{
    let cs = chars_of(s);
    match mem_operand_of(cs.as_slice()) {
        Some(r) => r,
        None => {
            proof {
                assert(false);
            }
            Err(String::new())
        },
    }
}

} // verus!
