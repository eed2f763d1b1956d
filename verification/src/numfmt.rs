//! Decimal rendering of the integers that appear in item descriptions and
//! health bars, with an exact character-level specification.

use vstd::prelude::*;

verus! {

/// The character for a single decimal digit.
pub open spec fn dec_digit(d: nat) -> char {
    if d == 0 {
        '0'
    } else if d == 1 {
        '1'
    } else if d == 2 {
        '2'
    } else if d == 3 {
        '3'
    } else if d == 4 {
        '4'
    } else if d == 5 {
        '5'
    } else if d == 6 {
        '6'
    } else if d == 7 {
        '7'
    } else if d == 8 {
        '8'
    } else {
        '9'
    }
}

/// The usual decimal notation of `n`, most significant digit first, without
/// leading zeroes (except for `n == 0` itself).
pub open spec fn dec_str(n: nat) -> Seq<char>
    decreases n,
{
    if n < 10 {
        seq![dec_digit(n)]
    } else {
        dec_str(n / 10) + seq![dec_digit(n % 10)]
    }
}

/// Decimal notation with an explicit sign, as a signed bonus is displayed:
/// `+5`, `-2`, `+0`.
pub open spec fn signed_dec_str(n: int) -> Seq<char> {
    if n >= 0 {
        seq!['+'] + dec_str(n as nat)
    } else {
        seq!['-'] + dec_str((-n) as nat)
    }
}

/// Decimal notation without a plus sign: `17`, `-3`.
pub open spec fn plain_dec_str(n: int) -> Seq<char> {
    if n >= 0 {
        dec_str(n as nat)
    } else {
        seq!['-'] + dec_str((-n) as nat)
    }
}

/// The one-character string for a single decimal digit.
fn digit_str(d: u32) -> (s: &'static str)
    requires
        d < 10,
    ensures
        s@ == seq![dec_digit(d as nat)],
{
    proof {
        reveal_strlit("0");
        reveal_strlit("1");
        reveal_strlit("2");
        reveal_strlit("3");
        reveal_strlit("4");
        reveal_strlit("5");
        reveal_strlit("6");
        reveal_strlit("7");
        reveal_strlit("8");
        reveal_strlit("9");
    }
    let s: &'static str = match d {
        0 => "0",
        1 => "1",
        2 => "2",
        3 => "3",
        4 => "4",
        5 => "5",
        6 => "6",
        7 => "7",
        8 => "8",
        _ => "9",
    };
    proof {
        assert(s@ =~= seq![dec_digit(d as nat)]);
    }
    s
}

/// Renders `n` in decimal.
pub fn u32_dec(n: u32) -> (s: String)
    ensures
        s@ == dec_str(n as nat),
    decreases n,
{
    if n < 10 {
        let mut s = String::new();
        s.append(digit_str(n));
        proof {
            assert(s@ =~= dec_str(n as nat));
        }
        s
    } else {
        let mut s = u32_dec(n / 10);
        s.append(digit_str(n % 10));
        proof {
            assert(s@ =~= dec_str(n as nat));
        }
        s
    }
}

/// Renders `n` in decimal with its sign spelled out, as `{:+}` formatting does.
pub fn i32_signed_dec(n: i32) -> (s: String)
    ensures
        s@ == signed_dec_str(n as int),
{
    proof {
        reveal_strlit("+");
        reveal_strlit("-");
    }
    if n >= 0 {
        let mut s = String::new();
        s.append("+");
        s.append(u32_dec(n as u32).as_str());
        proof {
            assert(s@ =~= signed_dec_str(n as int));
        }
        s
    } else {
        let mag: u32 = (-(n as i64)) as u32;
        let mut s = String::new();
        s.append("-");
        s.append(u32_dec(mag).as_str());
        proof {
            assert(s@ =~= signed_dec_str(n as int));
        }
        s
    }
}

/// Renders `n` in decimal, with a minus sign only where it is negative.
pub fn i32_dec(n: i32) -> (s: String)
    ensures
        s@ == plain_dec_str(n as int),
{
    proof {
        reveal_strlit("-");
    }
    if n >= 0 {
        let s = u32_dec(n as u32);
        s
    } else {
        let mag: u32 = (-(n as i64)) as u32;
        let mut s = String::new();
        s.append("-");
        s.append(u32_dec(mag).as_str());
        proof {
            assert(s@ =~= plain_dec_str(n as int));
        }
        s
    }
}

} // verus!
