//! Reading back what was written: numerals rendered by `render` read as
//! immediates and register names give the values they were made from.
use vstd::prelude::*;
use crate::number::{all_decimal, decimal_value, digit_value, digits_value, small_u32, IntErrorKind};
use crate::operand::{immediate_spec, is_hex_token, is_neg_hex_token, register_spec, x_register};
use crate::render::{dec_text, hex_digit, hex_text};
use crate::text::{is_ws, lemma_token_plain};

verus! {

proof fn lemma_dec_text(n: nat)
    ensures
        dec_text(n).len() >= 1,
        all_decimal(dec_text(n)),
        decimal_value(dec_text(n)) == n,
        n <= i64::MAX ==> digits_value(dec_text(n), 10, false) == Ok::<int, IntErrorKind>(n as int),
        n <= 0x8000_0000_0000_0000 ==> digits_value(dec_text(n), 10, true) == Ok::<
            int,
            IntErrorKind,
        >(-n),
    decreases n,
{
    let c = ('0' as int + n % 10) as char;
    assert(c as int == '0' as int + n % 10);
    if n < 10 {
        let s = dec_text(n);
        assert(s =~= seq![c]);
        assert(s.drop_last() =~= Seq::<char>::empty());
        assert(digit_value(c, 10) == Some(n as int));
        assert(decimal_value(Seq::<char>::empty()) == 0);
        assert(digits_value(Seq::<char>::empty(), 10, false) == Ok::<int, IntErrorKind>(0));
        assert(digits_value(Seq::<char>::empty(), 10, true) == Ok::<int, IntErrorKind>(0));
    } else {
        lemma_dec_text(n / 10);
        let s = dec_text(n);
        let p = dec_text(n / 10);
        assert(s == p.push(c));
        assert(s.drop_last() =~= p);
        assert(digit_value(c, 10) == Some((n % 10) as int));
        assert((n / 10) as int * 10 + (n % 10) as int == n) by (nonlinear_arith);
        assert((n / 10) as int * 10 - (n % 10) as int == -(n / 10) * 10 - n % 10 + 2 * ((n / 10)
            * 10)) by (nonlinear_arith);
        assert(-((n / 10) as int) * 10 - (n % 10) as int == -(n as int)) by (nonlinear_arith);
        assert forall|i: int| 0 <= i < s.len() implies '0' <= #[trigger] s[i] && s[i] <= '9' by {
            if i < p.len() {
                assert(s[i] == p[i]);
            }
        }
    }
}

proof fn lemma_hex_text(n: nat)
    ensures
        hex_text(n).len() >= 1,
        forall|i: int| 0 <= i < hex_text(n).len() ==> digit_value(#[trigger] hex_text(n)[i], 16) is Some,
        n <= i64::MAX ==> digits_value(hex_text(n), 16, false) == Ok::<int, IntErrorKind>(n as int),
    decreases n,
{
    let c = hex_digit((n % 16) as int);
    assert(digit_value(c, 16) == Some((n % 16) as int));
    if n < 16 {
        let s = hex_text(n);
        assert(s =~= seq![c]);
        assert(s.drop_last() =~= Seq::<char>::empty());
        assert(n % 16 == n);
        assert(digits_value(Seq::<char>::empty(), 16, false) == Ok::<int, IntErrorKind>(0));
    } else {
        lemma_hex_text(n / 16);
        let s = hex_text(n);
        let p = hex_text(n / 16);
        assert(s.drop_last() =~= p);
        assert((n / 16) as int * 16 + (n % 16) as int == n) by (nonlinear_arith);
        assert forall|i: int| 0 <= i < s.len() implies digit_value(#[trigger] s[i], 16) is Some by {
            if i < p.len() {
                assert(s[i] == p[i]);
            }
        }
    }
}

/// A non-negative value written in decimal reads back as that immediate.
pub proof fn law_decimal_immediate(v: i64)
    requires
        v >= 0,
    ensures
        immediate_spec(dec_text(v as nat)) == Ok::<i64, Seq<char>>(v),
{
    let t = dec_text(v as nat);
    lemma_dec_text(v as nat);
    assert('0' <= t[0] <= '9' && '0' <= t.last() <= '9');
    lemma_token_plain(t);
    reveal_strlit("0x");
    reveal_strlit("0X");
    reveal_strlit("-0x");
    reveal_strlit("-0X");
    assert(!is_hex_token(t)) by {
        if t.len() >= 2 {
            assert('0' <= t.take(2)[1] <= '9');
        }
    }
    assert(!is_neg_hex_token(t)) by {
        if t.len() >= 3 {
            assert('0' <= t.take(3)[0] <= '9');
        }
    }
    if t.len() == 1 {
        assert(t[0] != '+' && t[0] != '-');
    }
}

/// A negative value written as `-` and its magnitude in decimal reads back
/// as that immediate.
pub proof fn law_negative_decimal_immediate(v: i64)
    requires
        v < 0,
    ensures
        immediate_spec(seq!['-'] + dec_text((-v) as nat)) == Ok::<i64, Seq<char>>(v),
{
    let d = dec_text((-v) as nat);
    let t = seq!['-'] + d;
    lemma_dec_text((-v) as nat);
    assert(t[0] == '-' && t.last() == d.last() && '0' <= d.last() <= '9');
    lemma_token_plain(t);
    reveal_strlit("0x");
    reveal_strlit("0X");
    reveal_strlit("-0x");
    reveal_strlit("-0X");
    assert(!is_hex_token(t)) by {
        assert(t.take(2)[0] == '-');
    }
    assert(!is_neg_hex_token(t)) by {
        if t.len() >= 3 {
            assert(t.take(3)[2] == d[1]);
            assert('0' <= d[1] <= '9');
        }
    }
    assert(t.drop_first() =~= d);
}

/// A non-negative value written as `0x` and its hexadecimal digits reads
/// back as that immediate.
pub proof fn law_hex_immediate(v: i64)
    requires
        v >= 0,
    ensures
        immediate_spec("0x"@ + hex_text(v as nat)) == Ok::<i64, Seq<char>>(v),
{
    let h = hex_text(v as nat);
    lemma_hex_text(v as nat);
    reveal_strlit("0x");
    let t = "0x"@ + h;
    assert(digit_value(h.last(), 16) is Some);
    assert(t[0] == '0' && t.last() == h.last());
    assert(!is_ws(h.last()) && h.last() != ',');
    lemma_token_plain(t);
    assert(t.take(2) =~= "0x"@);
    assert(t.skip(2) =~= h);
    assert(digit_value(h[0], 16) is Some);
    if h.len() == 1 {
        assert(h[0] != '+' && h[0] != '-');
    }
    assert(h[0] != '+' && h[0] != '-');
}

/// A negative value other than `i64::MIN` written as `-0x` and the
/// hexadecimal digits of its magnitude reads back as that immediate.
pub proof fn law_negative_hex_immediate(v: i64)
    requires
        i64::MIN < v < 0,
    ensures
        immediate_spec("-0x"@ + hex_text((-v) as nat)) == Ok::<i64, Seq<char>>(v),
{
    let h = hex_text((-v) as nat);
    lemma_hex_text((-v) as nat);
    reveal_strlit("0x");
    reveal_strlit("0X");
    reveal_strlit("-0x");
    let t = "-0x"@ + h;
    assert(digit_value(h.last(), 16) is Some);
    assert(t[0] == '-' && t.last() == h.last());
    assert(!is_ws(h.last()) && h.last() != ',');
    lemma_token_plain(t);
    assert(!is_hex_token(t)) by {
        assert(t.take(2)[0] == '-');
    }
    assert(t.take(3) =~= "-0x"@);
    assert(t.skip(3) =~= h);
    assert(digit_value(h[0], 16) is Some);
    assert(h[0] != '+' && h[0] != '-');
}

/// `x` followed by the decimal number of a register names that register.
pub proof fn law_x_register_name(n: u32)
    requires
        n < 32,
    ensures
        register_spec(seq!['x'] + dec_text(n as nat)) == Ok::<u32, Seq<char>>(n),
{
    let d = dec_text(n as nat);
    lemma_dec_text(n as nat);
    let t = seq!['x'] + d;
    assert(t[0] == 'x' && t.last() == d.last() && '0' <= d.last() <= '9');
    lemma_token_plain(t);
    assert(t.drop_first() =~= d);
    assert(d[0] != '+');
    assert(small_u32(d) == Some(n));
    assert(x_register(t) == Some(n));
}

} // verus!
