//! ASCII numerals: zero-padded decimal and lowercase hexadecimal renderings
//! of integers, the numbers they denote, and the proof that a rendering can
//! be read back.

use vstd::prelude::*;

verus! {

/// The ASCII byte `0`.
pub const ZERO: u8 = 48;

/// The ASCII byte `a`.
pub const LOWER_A: u8 = 97;

/// The ASCII byte `-`.
pub const DASH: u8 = 45;

/// The ASCII byte `+`.
pub const PLUS: u8 = 43;

/// The ASCII byte of a digit below sixteen: `0`-`9`, then lowercase `a`-`f`.
pub open spec fn digit_byte(d: nat) -> u8 {
    if d < 10 {
        (ZERO + d) as u8
    } else {
        (LOWER_A + d - 10) as u8
    }
}

/// The digit that an ASCII byte written by [`digit_byte`] stands for.
pub open spec fn digit_value(b: u8) -> nat {
    if b < LOWER_A {
        (b - ZERO) as nat
    } else {
        (b - LOWER_A + 10) as nat
    }
}

/// `n` in decimal, most significant digit first, padded with leading zeros
/// to at least `width` digits (and never fewer than one).
pub open spec fn decimal(n: nat, width: nat) -> Seq<u8>
    decreases n, width,
{
    if n < 10 && width <= 1 {
        seq![digit_byte(n)]
    } else {
        decimal(
            n / 10,
            if width > 0 {
                (width - 1) as nat
            } else {
                0
            },
        ).push(digit_byte(n % 10))
    }
}

/// `n` in lowercase hexadecimal, most significant digit first, padded with
/// leading zeros to at least `width` digits (and never fewer than one).
pub open spec fn hexadecimal(n: nat, width: nat) -> Seq<u8>
    decreases n, width,
{
    if n < 16 && width <= 1 {
        seq![digit_byte(n)]
    } else {
        hexadecimal(
            n / 16,
            if width > 0 {
                (width - 1) as nat
            } else {
                0
            },
        ).push(digit_byte(n % 16))
    }
}

/// A signed integer in decimal: a `-` before the magnitude of a negative one.
pub open spec fn signed_decimal(n: int) -> Seq<u8> {
    if n < 0 {
        seq![DASH] + decimal((-n) as nat, 1)
    } else {
        decimal(n as nat, 1)
    }
}

/// The number that a sequence of decimal digit bytes denotes.
pub open spec fn decimal_value(s: Seq<u8>) -> nat
    decreases s.len(),
{
    if s.len() == 0 {
        0
    } else {
        decimal_value(s.drop_last()) * 10 + digit_value(s.last())
    }
}

/// The number that a sequence of hexadecimal digit bytes denotes.
pub open spec fn hexadecimal_value(s: Seq<u8>) -> nat
    decreases s.len(),
{
    if s.len() == 0 {
        0
    } else {
        hexadecimal_value(s.drop_last()) * 16 + digit_value(s.last())
    }
}

/// Reading a decimal rendering back gives the number that was rendered.
pub proof fn lemma_decimal_value(n: nat, width: nat)
    ensures
        decimal_value(decimal(n, width)) == n,
    decreases n, width,
{
    if n < 10 && width <= 1 {
        let s = seq![digit_byte(n)];
        assert(s.drop_last() =~= Seq::<u8>::empty());
        assert(decimal_value(s.drop_last()) == 0);
        assert(s.last() == digit_byte(n));
    } else {
        let w: nat = if width > 0 {
            (width - 1) as nat
        } else {
            0
        };
        let rest = decimal(n / 10, w);
        let s = rest.push(digit_byte(n % 10));
        lemma_decimal_value(n / 10, w);
        assert(s.drop_last() =~= rest);
        assert(s.last() == digit_byte(n % 10));
    }
}

/// Reading a hexadecimal rendering back gives the number that was rendered.
pub proof fn lemma_hexadecimal_value(n: nat, width: nat)
    ensures
        hexadecimal_value(hexadecimal(n, width)) == n,
    decreases n, width,
{
    if n < 16 && width <= 1 {
        let s = seq![digit_byte(n)];
        assert(s.drop_last() =~= Seq::<u8>::empty());
        assert(hexadecimal_value(s.drop_last()) == 0);
        assert(s.last() == digit_byte(n));
    } else {
        let w: nat = if width > 0 {
            (width - 1) as nat
        } else {
            0
        };
        let rest = hexadecimal(n / 16, w);
        let s = rest.push(digit_byte(n % 16));
        lemma_hexadecimal_value(n / 16, w);
        assert(s.drop_last() =~= rest);
        assert(s.last() == digit_byte(n % 16));
    }
}

/// A number below `16^8` takes exactly eight hexadecimal digits at width
/// eight.
pub proof fn lemma_hexadecimal_len_8(n: nat)
    requires
        n < 0x1_0000_0000,
    ensures
        hexadecimal(n, 8).len() == 8,
{
    reveal_with_fuel(hexadecimal, 9);
}

/// Appends the ASCII byte of the digit `d` to `buf`.
fn push_digit(buf: &mut Vec<u8>, d: u8)
    requires
        d < 16,
    ensures
        final(buf)@ == old(buf)@.push(digit_byte(d as nat)),
{
    if d < 10 {
        buf.push(ZERO + d);
    } else {
        buf.push(LOWER_A + (d - 10));
    }
}

/// Appends `n` in decimal, zero-padded to at least `width` digits.
pub fn push_decimal(buf: &mut Vec<u8>, n: u64, width: u8)
    ensures
        final(buf)@ == old(buf)@ + decimal(n as nat, width as nat),
    decreases n, width,
{
    if n >= 10 || width > 1 {
        let w: u8 = if width > 0 {
            width - 1
        } else {
            0
        };
        push_decimal(buf, n / 10, w);
    }
    push_digit(buf, (n % 10) as u8);
    assert(final(buf)@ =~= old(buf)@ + decimal(n as nat, width as nat));
}

/// Appends `n` in lowercase hexadecimal, zero-padded to at least `width`
/// digits.
pub fn push_hexadecimal(buf: &mut Vec<u8>, n: u64, width: u8)
    ensures
        final(buf)@ == old(buf)@ + hexadecimal(n as nat, width as nat),
    decreases n, width,
{
    if n >= 16 || width > 1 {
        let w: u8 = if width > 0 {
            width - 1
        } else {
            0
        };
        push_hexadecimal(buf, n / 16, w);
    }
    push_digit(buf, (n % 16) as u8);
    assert(final(buf)@ =~= old(buf)@ + hexadecimal(n as nat, width as nat));
}

/// Appends a signed integer in decimal.
pub fn push_signed_decimal(buf: &mut Vec<u8>, n: i64)
    ensures
        final(buf)@ == old(buf)@ + signed_decimal(n as int),
{
    if n < 0 {
        buf.push(DASH);
        let magnitude: u64 = ((-(n + 1)) as u64) + 1;
        push_decimal(buf, magnitude, 1);
        assert(final(buf)@ =~= old(buf)@ + signed_decimal(n as int));
    } else {
        push_decimal(buf, n as u64, 1);
    }
}

} // verus!
