//! Decimal digits and number-to-text conversion, the base of every canonical
//! name the library produces.

use vstd::prelude::*;

verus! {

/// The character for one decimal digit.
pub open spec fn digit_char(d: int) -> char {
    if d == 0 {
        '0'
    } else if d == 1 {
        '1'
    } else if d == 2 {
        '2'
    } else if d == 3 {
        '3'
    } else if d == 4 {
        '4'
    } else if d == 5 {
        '5'
    } else if d == 6 {
        '6'
    } else if d == 7 {
        '7'
    } else if d == 8 {
        '8'
    } else {
        '9'
    }
}

/// The value of one decimal digit character; 10 for any other character.
pub open spec fn digit_val(c: char) -> int {
    if c == '0' {
        0
    } else if c == '1' {
        1
    } else if c == '2' {
        2
    } else if c == '3' {
        3
    } else if c == '4' {
        4
    } else if c == '5' {
        5
    } else if c == '6' {
        6
    } else if c == '7' {
        7
    } else if c == '8' {
        8
    } else if c == '9' {
        9
    } else {
        10
    }
}

/// Whether a character is a decimal digit.
pub open spec fn is_digit_char(c: char) -> bool {
    digit_val(c) < 10
}

/// The plain (unpadded) decimal rendering of a non-negative number.
pub open spec fn dec_chars(n: int) -> Seq<char>
    decreases n,
{
    if n < 10 {
        seq![digit_char(n)]
    } else {
        dec_chars(n / 10).push(digit_char(n % 10))
    }
}

/// The two-digit zero-padded rendering of a number below 100.
pub open spec fn two_digit_chars(n: int) -> Seq<char> {
    seq![digit_char(n / 10), digit_char(n % 10)]
}

/// Reading a digit back gives the digit.
pub proof fn lemma_digit_round_trip(d: int)
    requires
        0 <= d < 10,
    ensures
        digit_val(digit_char(d)) == d,
{
}

/// The one-character string for a decimal digit.
pub fn digit_str(d: u8) -> (r: &'static str)
    requires
        d < 10,
    ensures
        r@ == seq![digit_char(d as int)],
{
    proof {
        reveal_strlit("0");
        reveal_strlit("1");
        reveal_strlit("2");
        reveal_strlit("3");
        reveal_strlit("4");
        reveal_strlit("5");
        reveal_strlit("6");
        reveal_strlit("7");
        reveal_strlit("8");
        reveal_strlit("9");
    }
    let r: &'static str = match d {
        0 => "0",
        1 => "1",
        2 => "2",
        3 => "3",
        4 => "4",
        5 => "5",
        6 => "6",
        7 => "7",
        8 => "8",
        _ => "9",
    };
    proof {
        assert(r@ =~= seq![digit_char(d as int)]);
    }
    r
}

/// The two-digit zero-padded string for a number below 100.
pub fn two_digit_string(n: u8) -> (r: String)
    requires
        n < 100,
    ensures
        r@ == two_digit_chars(n as int),
{
    let mut s = String::new();
    s.append(digit_str(n / 10));
    s.append(digit_str(n % 10));
    proof {
        assert(s@ =~= two_digit_chars(n as int));
    }
    s
}

/// The plain decimal string for a number.
pub fn decimal_string(n: u32) -> (r: String)
    ensures
        r@ == dec_chars(n as int),
    decreases n,
{
    if n < 10 {
        let mut s = String::new();
        s.append(digit_str(n as u8));
        proof {
            assert(s@ =~= dec_chars(n as int));
        }
        s
    } else {
        let mut s = decimal_string(n / 10);
        s.append(digit_str((n % 10) as u8));
        proof {
            assert(s@ =~= dec_chars(n as int));
        }
        s
    }
}

} // verus!
