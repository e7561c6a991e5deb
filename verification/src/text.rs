//! Verified rendering of the numeric fields of a trace line: uppercase
//! hexadecimal for bytes and addresses, decimal for the cycle counter.
//!
//! Every rendering function is pinned to a spec-level character sequence, so
//! the exact text of a trace line is part of the crate's contracts.

use vstd::prelude::*;
use vstd::string::StringExecFns;

verus! {

/// The character standing for one digit value, `0`–`9` then uppercase
/// `A`–`F`.  Digit values above fifteen do not arise; they map to `'0'` so
/// that the function stays total.
pub open spec fn digit_char(n: u8) -> char {
    match n {
        0 => '0',
        1 => '1',
        2 => '2',
        3 => '3',
        4 => '4',
        5 => '5',
        6 => '6',
        7 => '7',
        8 => '8',
        9 => '9',
        10 => 'A',
        11 => 'B',
        12 => 'C',
        13 => 'D',
        14 => 'E',
        15 => 'F',
        _ => '0',
    }
}

/// The two uppercase hexadecimal digits of a byte.
pub open spec fn hex2_chars(b: u8) -> Seq<char> {
    seq![digit_char(b / 16), digit_char(b % 16)]
}

/// The four uppercase hexadecimal digits of a 16-bit address.
pub open spec fn hex4_chars(w: u16) -> Seq<char> {
    hex2_chars((w / 256) as u8) + hex2_chars((w % 256) as u8)
}

/// The decimal digits of a counter, most significant first, with no leading
/// zeros.
pub open spec fn dec_chars(n: u64) -> Seq<char>
    decreases n,
{
    if n < 10 {
        seq![digit_char(n as u8)]
    } else {
        dec_chars(n / 10) + seq![digit_char((n % 10) as u8)]
    }
}

/// One digit value rendered as a string slice.
pub fn digit_str(n: u8) -> (r: &'static str)
    requires
        n < 16,
    ensures
        r@ =~= seq![digit_char(n)],
{
    proof {
        reveal_strlit("0");
        reveal_strlit("1");
        reveal_strlit("2");
        reveal_strlit("3");
        reveal_strlit("4");
        reveal_strlit("5");
        reveal_strlit("6");
        reveal_strlit("7");
        reveal_strlit("8");
        reveal_strlit("9");
        reveal_strlit("A");
        reveal_strlit("B");
        reveal_strlit("C");
        reveal_strlit("D");
        reveal_strlit("E");
        reveal_strlit("F");
    }
    match n {
        0 => "0",
        1 => "1",
        2 => "2",
        3 => "3",
        4 => "4",
        5 => "5",
        6 => "6",
        7 => "7",
        8 => "8",
        9 => "9",
        10 => "A",
        11 => "B",
        12 => "C",
        13 => "D",
        14 => "E",
        _ => "F",
    }
}

/// A byte as two uppercase hexadecimal digits.
pub fn hex2(b: u8) -> (r: String)
    ensures
        r@ == hex2_chars(b),
{
    let mut s = String::new();
    s.append(digit_str(b / 16));
    s.append(digit_str(b % 16));
    proof {
        assert(s@ =~= hex2_chars(b));
    }
    s
}

/// A 16-bit address as four uppercase hexadecimal digits.
pub fn hex4(w: u16) -> (r: String)
    ensures
        r@ == hex4_chars(w),
{
    let mut s = hex2((w / 256) as u8);
    let low = hex2((w % 256) as u8);
    s.append(low.as_str());
    proof {
        assert(s@ =~= hex4_chars(w));
    }
    s
}

/// A counter in decimal, most significant digit first.
pub fn dec_u64(n: u64) -> (r: String)
    ensures
        r@ == dec_chars(n),
    decreases n,
{
    if n < 10 {
        digit_str(n as u8).to_owned()
    } else {
        let mut s = dec_u64(n / 10);
        s.append(digit_str((n % 10) as u8));
        proof {
            assert(s@ =~= dec_chars(n));
        }
        s
    }
}

} // verus!
