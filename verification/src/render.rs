//! Rendering of unsigned integers as decimal and hexadecimal text,
//! for diagnostic messages.

use vstd::prelude::*;

verus! {

/// The character for one digit value below sixteen, with lower-case letters
/// for the values ten to fifteen.
pub open spec fn spec_digit_char(d: nat) -> char {
    if d == 0 {
        '0'
    } else if d == 1 {
        '1'
    } else if d == 2 {
        '2'
    } else if d == 3 {
        '3'
    } else if d == 4 {
        '4'
    } else if d == 5 {
        '5'
    } else if d == 6 {
        '6'
    } else if d == 7 {
        '7'
    } else if d == 8 {
        '8'
    } else if d == 9 {
        '9'
    } else if d == 10 {
        'a'
    } else if d == 11 {
        'b'
    } else if d == 12 {
        'c'
    } else if d == 13 {
        'd'
    } else if d == 14 {
        'e'
    } else {
        'f'
    }
}

/// The decimal digits of `v`, most significant first, without leading
/// zeros (a single `'0'` for zero).
pub open spec fn spec_decimal_digits(v: nat) -> Seq<char>
    decreases v,
{
    if v < 10 {
        seq![spec_digit_char(v)]
    } else {
        spec_decimal_digits(v / 10) + seq![spec_digit_char(v % 10)]
    }
}

/// The hexadecimal digits of `v`, most significant first, without leading
/// zeros (a single `'0'` for zero), lower case, no prefix.
pub open spec fn spec_hex_digits(v: nat) -> Seq<char>
    decreases v,
{
    if v < 16 {
        seq![spec_digit_char(v)]
    } else {
        spec_hex_digits(v / 16) + seq![spec_digit_char(v % 16)]
    }
}

/// The one-character string for a digit value below sixteen.
fn digit_str(d: u32) -> (r: &'static str)
    requires
        d < 16,
    ensures
        r@ == seq![spec_digit_char(d as nat)],
{
    let r: &'static str = if d == 0 {
        "0"
    } else if d == 1 {
        "1"
    } else if d == 2 {
        "2"
    } else if d == 3 {
        "3"
    } else if d == 4 {
        "4"
    } else if d == 5 {
        "5"
    } else if d == 6 {
        "6"
    } else if d == 7 {
        "7"
    } else if d == 8 {
        "8"
    } else if d == 9 {
        "9"
    } else if d == 10 {
        "a"
    } else if d == 11 {
        "b"
    } else if d == 12 {
        "c"
    } else if d == 13 {
        "d"
    } else if d == 14 {
        "e"
    } else {
        "f"
    };
    proof {
        reveal_strlit("0");
        reveal_strlit("1");
        reveal_strlit("2");
        reveal_strlit("3");
        reveal_strlit("4");
        reveal_strlit("5");
        reveal_strlit("6");
        reveal_strlit("7");
        reveal_strlit("8");
        reveal_strlit("9");
        reveal_strlit("a");
        reveal_strlit("b");
        reveal_strlit("c");
        reveal_strlit("d");
        reveal_strlit("e");
        reveal_strlit("f");
        assert(r@ =~= seq![spec_digit_char(d as nat)]);
    }
    r
}

/// The decimal rendering of `v`, matching `spec_decimal_digits`.
pub fn decimal_string(v: u32) -> (r: String)
    ensures
        r@ == spec_decimal_digits(v as nat),
    decreases v,
{
    if v < 10 {
        let r = digit_str(v).to_owned();
        r
    } else {
        proof {
            assert(v / 10 < v) by (nonlinear_arith)
                requires
                    10 <= v,
            ;
        }
        let mut s = decimal_string(v / 10);
        s.append(digit_str(v % 10));
        proof {
            assert(s@ =~= spec_decimal_digits(v as nat));
        }
        s
    }
}

/// The hexadecimal rendering of `v` (no prefix), matching `spec_hex_digits`.
pub fn hex_string(v: u32) -> (r: String)
    ensures
        r@ == spec_hex_digits(v as nat),
    decreases v,
{
    if v < 16 {
        let r = digit_str(v).to_owned();
        r
    } else {
        proof {
            assert(v / 16 < v) by (nonlinear_arith)
                requires
                    16 <= v,
            ;
        }
        let mut s = hex_string(v / 16);
        s.append(digit_str(v % 16));
        proof {
            assert(s@ =~= spec_hex_digits(v as nat));
        }
        s
    }
}

} // verus!
