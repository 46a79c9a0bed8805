//! Rendering of integers and booleans as text.
//!
//! The specification side describes the digit string of a number in a given
//! base as a recursive sequence of characters; the executable functions
//! build exactly that string.

use vstd::prelude::*;

verus! {

/// The character standing for one digit value, for bases up to sixteen.
pub open spec fn digit_char(d: nat) -> char
    recommends
        d < 16,
{
    if d == 0 {
        '0'
    } else if d == 1 {
        '1'
    } else if d == 2 {
        '2'
    } else if d == 3 {
        '3'
    } else if d == 4 {
        '4'
    } else if d == 5 {
        '5'
    } else if d == 6 {
        '6'
    } else if d == 7 {
        '7'
    } else if d == 8 {
        '8'
    } else if d == 9 {
        '9'
    } else if d == 10 {
        'a'
    } else if d == 11 {
        'b'
    } else if d == 12 {
        'c'
    } else if d == 13 {
        'd'
    } else if d == 14 {
        'e'
    } else {
        'f'
    }
}

/// The digits of `n` written in base `base`, most significant first, with
/// no leading zeros (zero itself is a single `'0'`).
pub open spec fn base_digits(n: nat, base: nat) -> Seq<char>
    recommends
        2 <= base <= 16,
    decreases n,
        when 2 <= base
        via base_digits_decreases
{
    if n < base {
        seq![digit_char(n)]
    } else {
        base_digits(n / base, base).push(digit_char(n % base))
    }
}

#[via_fn]
proof fn base_digits_decreases(n: nat, base: nat) {
    if base <= n {
        assert(n / base < n) by (nonlinear_arith)
            requires
                2 <= base && base <= n,
        ;
    }
}

/// The decimal digit string of `n`.
pub open spec fn dec_digits(n: nat) -> Seq<char> {
    base_digits(n, 10)
}

/// The decimal digit string of a signed number: a leading `'-'` before the
/// digits of the magnitude when the number is negative.
pub open spec fn signed_dec_digits(n: int) -> Seq<char> {
    if n < 0 {
        seq!['-'] + dec_digits((-n) as nat)
    } else {
        dec_digits(n as nat)
    }
}

/// `s` left-padded with `'0'` up to `width` characters; `s` itself when it
/// is already at least that wide.
pub open spec fn zero_padded(s: Seq<char>, width: nat) -> Seq<char> {
    if s.len() >= width {
        s
    } else {
        Seq::new((width - s.len()) as nat, |i: int| '0') + s
    }
}

/// The words `true` and `false` as character sequences.
pub open spec fn bool_text(b: bool) -> Seq<char> {
    if b {
        "true"@
    } else {
        "false"@
    }
}

/// The one-character string for a digit value below sixteen.
fn digit_str(d: u64) -> (r: &'static str)
    requires
        d < 16,
    ensures
        r@ == seq![digit_char(d as nat)],
{
    let r: &'static str = if d == 0 {
        "0"
    } else if d == 1 {
        "1"
    } else if d == 2 {
        "2"
    } else if d == 3 {
        "3"
    } else if d == 4 {
        "4"
    } else if d == 5 {
        "5"
    } else if d == 6 {
        "6"
    } else if d == 7 {
        "7"
    } else if d == 8 {
        "8"
    } else if d == 9 {
        "9"
    } else if d == 10 {
        "a"
    } else if d == 11 {
        "b"
    } else if d == 12 {
        "c"
    } else if d == 13 {
        "d"
    } else if d == 14 {
        "e"
    } else {
        "f"
    };
    proof {
        reveal_strlit("0");
        reveal_strlit("1");
        reveal_strlit("2");
        reveal_strlit("3");
        reveal_strlit("4");
        reveal_strlit("5");
        reveal_strlit("6");
        reveal_strlit("7");
        reveal_strlit("8");
        reveal_strlit("9");
        reveal_strlit("a");
        reveal_strlit("b");
        reveal_strlit("c");
        reveal_strlit("d");
        reveal_strlit("e");
        reveal_strlit("f");
        assert(r@ =~= seq![digit_char(d as nat)]);
    }
    r
}

/// Renders `n` in base `base` (between two and sixteen), most significant
/// digit first, without leading zeros.
pub fn base_u64(n: u64, base: u64) -> (r: String)
    requires
        2 <= base <= 16,
    ensures
        r@ == base_digits(n as nat, base as nat),
    decreases n,
{
    if n < base {
        digit_str(n).to_owned()
    } else {
        proof {
            assert(n / base < n) by (nonlinear_arith)
                requires
                    2 <= base && base <= n,
            ;
        }
        let rest = base_u64(n / base, base);
        let r = rest.concat(digit_str(n % base));
        proof {
            assert(r@ =~= base_digits(n as nat, base as nat));
        }
        r
    }
}

/// Renders a 64-bit unsigned number in decimal.
pub fn dec_u64(n: u64) -> (r: String)
    ensures
        r@ == dec_digits(n as nat),
{
    base_u64(n, 10)
}

/// Renders a 32-bit unsigned number in decimal.
pub fn dec_u32(n: u32) -> (r: String)
    ensures
        r@ == dec_digits(n as nat),
{
    base_u64(n as u64, 10)
}

/// Renders a 32-bit signed number in decimal, with a leading minus sign
/// when it is negative.
pub fn dec_i32(n: i32) -> (r: String)
    ensures
        r@ == signed_dec_digits(n as int),
{
    if n >= 0 {
        base_u64(n as u64, 10)
    } else {
        let magnitude: u64 = (-(n as i64)) as u64;
        let digits = base_u64(magnitude, 10);
        let r = "-".to_owned().concat(digits.as_str());
        proof {
            reveal_strlit("-");
            assert(r@ =~= signed_dec_digits(n as int));
        }
        r
    }
}

/// Renders a 32-bit unsigned number in base `base` (between two and
/// sixteen).
pub fn base_u32(n: u32, base: u32) -> (r: String)
    requires
        2 <= base <= 16,
    ensures
        r@ == base_digits(n as nat, base as nat),
{
    base_u64(n as u64, base as u64)
}

/// Renders a 32-bit unsigned number in base `base`, left-padded with
/// zeros up to `width` characters.
pub fn padded_base_u32(n: u32, base: u32, width: usize) -> (r: String)
    requires
        2 <= base <= 16,
    ensures
        r@ == zero_padded(base_digits(n as nat, base as nat), width as nat),
{
    let digits = base_u64(n as u64, base as u64);
    let len = digits.as_str().unicode_len();
    if len >= width {
        digits
    } else {
        let mut pad = String::new();
        let mut i: usize = len;
        proof {
            assert(pad@ =~= Seq::new((i - len) as nat, |j: int| '0'));
        }
        while i < width
            invariant
                len <= i <= width,
                pad@ == Seq::new((i - len) as nat, |j: int| '0'),
            decreases width - i,
        {
            pad.append("0");
            i = i + 1;
            proof {
                reveal_strlit("0");
                assert(pad@ =~= Seq::new((i - len) as nat, |j: int| '0'));
            }
        }
        let r = pad.concat(digits.as_str());
        proof {
            assert(r@ =~= zero_padded(base_digits(n as nat, base as nat), width as nat));
        }
        r
    }
}

/// Renders a boolean as the word `true` or `false`.
pub fn bool_str(b: bool) -> (r: &'static str)
    ensures
        r@ == bool_text(b),
{
    if b {
        "true"
    } else {
        "false"
    }
}

} // verus!
