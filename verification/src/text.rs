//! Low-level text building blocks: digit characters, decimal and hexadecimal
//! renderings of bytes, the two-decimal alpha fraction, and string equality.

use vstd::prelude::*;

verus! {

/// The character for a single digit value in `[0, 16)`: decimal digits first,
/// then the uppercase hex letters.
pub open spec fn digit_char(d: int) -> char {
    if d == 0 {
        '0'
    } else if d == 1 {
        '1'
    } else if d == 2 {
        '2'
    } else if d == 3 {
        '3'
    } else if d == 4 {
        '4'
    } else if d == 5 {
        '5'
    } else if d == 6 {
        '6'
    } else if d == 7 {
        '7'
    } else if d == 8 {
        '8'
    } else if d == 9 {
        '9'
    } else if d == 10 {
        'A'
    } else if d == 11 {
        'B'
    } else if d == 12 {
        'C'
    } else if d == 13 {
        'D'
    } else if d == 14 {
        'E'
    } else {
        'F'
    }
}

/// Base-10 rendering of a byte value: plain digits, no padding, no leading
/// zeros.
pub open spec fn dec_str(n: int) -> Seq<char> {
    if n < 10 {
        seq![digit_char(n)]
    } else if n < 100 {
        seq![digit_char(n / 10), digit_char(n % 10)]
    } else {
        seq![digit_char(n / 100), digit_char((n / 10) % 10), digit_char(n % 10)]
    }
}

/// Two-digit zero-padded uppercase base-16 rendering of a byte value.
pub open spec fn hex2(n: int) -> Seq<char> {
    seq![digit_char(n / 16), digit_char(n % 16)]
}

/// The alpha fraction `a / 255` scaled to hundredths and rounded to the
/// nearest integer: `floor(a * 100 / 255 + 1/2)`. No byte value lands exactly
/// on a half, so every rounding convention agrees on these inputs.
pub open spec fn alpha_hundredths(a: int) -> int {
    (a * 200 + 255) / 510
}

/// The alpha fraction `a / 255` rendered with exactly two digits after the
/// decimal point, e.g. `0.67` for byte `170` and `1.00` for byte `255`.
pub open spec fn frac2(a: int) -> Seq<char> {
    let h = alpha_hundredths(a);
    seq![digit_char(h / 100), '.', digit_char((h / 10) % 10), digit_char(h % 10)]
}

/// The one-character string for a digit value in `[0, 16)`.
pub fn digit_str(d: u8) -> (r: &'static str)
    requires
        d < 16,
    ensures
        r@ == seq![digit_char(d as int)],
{
    let s: &'static str = match d {
        0 => "0",
        1 => "1",
        2 => "2",
        3 => "3",
        4 => "4",
        5 => "5",
        6 => "6",
        7 => "7",
        8 => "8",
        9 => "9",
        10 => "A",
        11 => "B",
        12 => "C",
        13 => "D",
        14 => "E",
        _ => "F",
    };
    proof {
        reveal_strlit("0");
        reveal_strlit("1");
        reveal_strlit("2");
        reveal_strlit("3");
        reveal_strlit("4");
        reveal_strlit("5");
        reveal_strlit("6");
        reveal_strlit("7");
        reveal_strlit("8");
        reveal_strlit("9");
        reveal_strlit("A");
        reveal_strlit("B");
        reveal_strlit("C");
        reveal_strlit("D");
        reveal_strlit("E");
        reveal_strlit("F");
        assert(s@ =~= seq![digit_char(d as int)]);
    }
    s
}

/// Appends the base-10 rendering of `n` to `out`.
pub fn push_dec(out: &mut String, n: u8)
    ensures
        final(out)@ == old(out)@ + dec_str(n as int),
{
    if n >= 100 {
        out.append(digit_str(n / 100));
        out.append(digit_str((n / 10) % 10));
        out.append(digit_str(n % 10));
    } else if n >= 10 {
        out.append(digit_str(n / 10));
        out.append(digit_str(n % 10));
    } else {
        out.append(digit_str(n));
    }
    assert(out@ =~= old(out)@ + dec_str(n as int));
}

/// Appends the two-digit uppercase base-16 rendering of `n` to `out`.
pub fn push_hex2(out: &mut String, n: u8)
    ensures
        final(out)@ == old(out)@ + hex2(n as int),
{
    out.append(digit_str(n / 16));
    out.append(digit_str(n % 16));
    assert(out@ =~= old(out)@ + hex2(n as int));
}

/// Appends the two-decimal rendering of the alpha fraction `a / 255` to
/// `out`.
pub fn push_frac2(out: &mut String, a: u8)
    ensures
        final(out)@ == old(out)@ + frac2(a as int),
{
    let h: u16 = ((a as u16) * 200 + 255) / 510;
    assert(h == alpha_hundredths(a as int));
    assert(h <= 100);
    out.append(digit_str((h / 100) as u8));
    out.append(".");
    out.append(digit_str(((h / 10) % 10) as u8));
    out.append(digit_str((h % 10) as u8));
    proof {
        reveal_strlit(".");
        assert(out@ =~= old(out)@ + frac2(a as int));
    }
}

/// Character-by-character string equality: `true` exactly when the two
/// strings hold the same sequence of characters.
pub fn str_eq(a: &str, b: &str) -> (r: bool)
    ensures
        r <==> a@ == b@,
{
    let a_len = a.unicode_len();
    let b_len = b.unicode_len();
    if a_len != b_len {
        assert(a@ != b@) by {
            assert(a@.len() != b@.len());
        }
        return false;
    }
    let mut i: usize = 0;
    while i < a_len
        invariant
            i <= a_len,
            a_len == a@.len(),
            a_len == b@.len(),
            forall|j: int| 0 <= j < i ==> a@[j] == b@[j],
        decreases a_len - i,
    {
        if a.get_char(i) != b.get_char(i) {
            assert(a@ != b@) by {
                assert(a@[i as int] != b@[i as int]);
            }
            return false;
        }
        i += 1;
    }
    assert(a@ =~= b@);
    true
}

} // verus!
