//! Rendering numbers and byte strings as text: lower-case hexadecimal and
//! decimal numerals, zero padding, and byte dumps.
use vstd::prelude::*;
use crate::text::{push_char, append_chars};

verus! {

/// The lower-case hexadecimal digit for `d` (0..16).
pub open spec fn hex_digit(d: int) -> char {
    if d < 10 {
        ('0' as int + d) as char
    } else {
        ('a' as int + d - 10) as char
    }
}

/// `n` in lower-case hexadecimal, without leading zeros (`{:x}`).
pub open spec fn hex_text(n: nat) -> Seq<char>
    decreases n,
{
    if n < 16 {
        seq![hex_digit(n as int)]
    } else {
        hex_text(n / 16).push(hex_digit((n % 16) as int))
    }
}

/// `n` in decimal, without leading zeros (`{}`).
pub open spec fn dec_text(n: nat) -> Seq<char>
    decreases n,
{
    if n < 10 {
        seq![('0' as int + n) as char]
    } else {
        dec_text(n / 10).push(('0' as int + n % 10) as char)
    }
}

/// `s` preceded by as many `'0'` as it takes to reach `width` characters.
pub open spec fn zero_pad(s: Seq<char>, width: nat) -> Seq<char> {
    if s.len() >= width {
        s
    } else {
        Seq::new((width - s.len()) as nat, |i: int| '0') + s
    }
}

/// `{:#x}`: `0x` and the hexadecimal digits.
pub open spec fn alt_hex(n: nat) -> Seq<char> {
    "0x"@ + hex_text(n)
}

/// `{:08x}`: at least eight hexadecimal digits.
pub open spec fn hex8(n: nat) -> Seq<char> {
    zero_pad(hex_text(n), 8)
}

/// `{:#010x}`: `0x` and at least eight hexadecimal digits.
pub open spec fn alt_hex8(n: nat) -> Seq<char> {
    "0x"@ + zero_pad(hex_text(n), 8)
}

/// `{:02x}` of a byte: exactly two hexadecimal digits.
pub open spec fn byte_hex(b: u8) -> Seq<char> {
    zero_pad(hex_text(b as nat), 2)
}

/// The bytes `d` as two-digit hexadecimal numbers separated by single spaces.
pub open spec fn spaced_bytes(d: Seq<u8>) -> Seq<char>
    decreases d.len(),
{
    if d.len() == 0 {
        Seq::empty()
    } else if d.len() == 1 {
        byte_hex(d[0])
    } else {
        spaced_bytes(d.drop_last()) + seq![' '] + byte_hex(d.last())
    }
}

/// The dump of `data` that shows at most `max_len` bytes and tells how many
/// were left out.
pub open spec fn bytes_hex_text(data: Seq<u8>, max_len: nat) -> Seq<char> {
    if data.len() == 0 {
        "(empty)"@
    } else {
        let shown = if data.len() < max_len {
            data.len()
        } else {
            max_len
        };
        spaced_bytes(data.take(shown as int)) + if data.len() > max_len {
            " ... ("@ + dec_text((data.len() - max_len) as nat) + " more bytes)"@
        } else {
            Seq::empty()
        }
    }
}

pub proof fn lemma_hex_text_len(n: nat)
    ensures
        hex_text(n).len() >= 1,
        n < 16 ==> hex_text(n).len() == 1,
        16 <= n < 256 ==> hex_text(n).len() == 2,
    decreases n,
{
    if n >= 16 {
        lemma_hex_text_len(n / 16);
    }
}

/// The character for the hexadecimal digit `d`.
pub fn hex_digit_char(d: u64) -> (c: char)
    requires
        d < 16,
    ensures
        c == hex_digit(d as int),
{
    if d < 10 {
        ((d as u8) + 48u8) as char
    } else {
        ((d as u8) - 10 + 97u8) as char
    }
}

/// Appends `hex_text(n)` to `out`.
pub fn push_hex(out: &mut String, n: u64)
    ensures
        final(out)@ == old(out)@ + hex_text(n as nat),
    decreases n,
{
    if n >= 16 {
        push_hex(out, n / 16);
    }
    push_char(out, hex_digit_char(n % 16));
    assert(final(out)@ =~= old(out)@ + hex_text(n as nat));
}

/// The hexadecimal digits of `n`.
pub fn hex_chars(n: u64) -> (v: Vec<char>)
    ensures
        v@ == hex_text(n as nat),
    decreases n,
{
    let mut v = if n >= 16 {
        hex_chars(n / 16)
    } else {
        Vec::new()
    };
    v.push(hex_digit_char(n % 16));
    assert(v@ =~= hex_text(n as nat));
    v
}

/// Appends `dec_text(n)` to `out`.
pub fn push_dec(out: &mut String, n: u64)
    ensures
        final(out)@ == old(out)@ + dec_text(n as nat),
    decreases n,
{
    if n >= 10 {
        push_dec(out, n / 10);
    }
    let c = (((n % 10) as u8) + 48u8) as char;
    push_char(out, c);
    assert(final(out)@ =~= old(out)@ + dec_text(n as nat));
}

/// Appends `zero_pad(hex_text(n), width)` to `out`.
pub fn push_hex_padded(out: &mut String, n: u64, width: usize)
    ensures
        final(out)@ == old(out)@ + zero_pad(hex_text(n as nat), width as nat),
{
    let digits = hex_chars(n);
    let zeros: usize = if digits.len() < width {
        width - digits.len()
    } else {
        0
    };
    let mut k: usize = 0;
    while k < zeros
        invariant
            k <= zeros,
            out@ == old(out)@ + Seq::new(k as nat, |i: int| '0'),
        decreases zeros - k,
    {
        push_char(out, '0');
        assert(Seq::new((k + 1) as nat, |i: int| '0') =~= Seq::new(k as nat, |i: int| '0').push(
            '0',
        ));
        k = k + 1;
    }
    append_chars(out, digits.as_slice());
    assert(final(out)@ =~= old(out)@ + zero_pad(hex_text(n as nat), width as nat));
}

/// Appends `"0x"` and the hexadecimal digits of `n` (`{:#x}`).
pub fn push_alt_hex(out: &mut String, n: u64)
    ensures
        final(out)@ == old(out)@ + alt_hex(n as nat),
{
    out.append("0x");
    push_hex(out, n);
    assert(final(out)@ =~= old(out)@ + alt_hex(n as nat));
}

/// Appends `"0x"` and at least eight hexadecimal digits of `n` (`{:#010x}`).
pub fn push_alt_hex8(out: &mut String, n: u64)
    ensures
        final(out)@ == old(out)@ + alt_hex8(n as nat),
{
    out.append("0x");
    push_hex_padded(out, n, 8);
    assert(final(out)@ =~= old(out)@ + alt_hex8(n as nat));
}

/// Appends the two hexadecimal digits of `b` (`{:02x}`).
pub fn push_byte_hex(out: &mut String, b: u8)
    ensures
        final(out)@ == old(out)@ + byte_hex(b),
{
    push_hex_padded(out, b as u64, 2);
}

/// Shows the bytes of `data` in hexadecimal, two digits each, separated by
/// spaces; at most `max_len` of them, followed by how many more there are.
/// An empty `data` shows as `(empty)`.
pub fn format_bytes_hex(data: &[u8], max_len: usize) -> (s: String)
    ensures
        s@ == bytes_hex_text(data@, max_len as nat),
{
    if data.len() == 0 {
        return String::from_str("(empty)");
    }
    let shown = if data.len() < max_len {
        data.len()
    } else {
        max_len
    };
    let mut out = String::new();
    let mut i: usize = 0;
    assert(data@.take(0) =~= Seq::<u8>::empty());
    while i < shown
        invariant
            i <= shown <= data@.len(),
            out@ == spaced_bytes(data@.take(i as int)),
        decreases shown - i,
    {
        assert(data@.take(i + 1).drop_last() =~= data@.take(i as int));
        if i > 0 {
            push_char(&mut out, ' ');
        }
        push_byte_hex(&mut out, data[i]);
        i = i + 1;
    }
    if data.len() > max_len {
        out.append(" ... (");
        push_dec(&mut out, (data.len() - max_len) as u64);
        out.append(" more bytes)");
    }
    assert(out@ =~= bytes_hex_text(data@, max_len as nat));
    out
}

} // verus!
