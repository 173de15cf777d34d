//! Integers written out in decimal.
use vstd::prelude::*;

verus! {

/// The character for the digit `d`, for `d` from 0 to 9.
pub open spec fn digit(d: int) -> char
    recommends
        0 <= d <= 9,
{
    (('0' as u8) + d) as u8 as char
}

/// The decimal digits of `n`, most significant first, without leading zeros.
pub open spec fn decimal_nat(n: nat) -> Seq<char>
    decreases n,
{
    if n < 10 {
        seq![digit(n as int)]
    } else {
        decimal_nat(n / 10).push(digit((n % 10) as int))
    }
}

/// `n` in decimal, with a minus sign in front where it is negative.
pub open spec fn decimal(n: int) -> Seq<char> {
    if n < 0 {
        seq!['-'] + decimal_nat((-n) as nat)
    } else {
        decimal_nat(n as nat)
    }
}

fn digit_str(d: u32) -> (s: &'static str)
    requires
        d <= 9,
    ensures
        s@ == seq![digit(d as int)],
{
    proof {
        reveal_strlit("0");
        reveal_strlit("1");
        reveal_strlit("2");
        reveal_strlit("3");
        reveal_strlit("4");
        reveal_strlit("5");
        reveal_strlit("6");
        reveal_strlit("7");
        reveal_strlit("8");
        reveal_strlit("9");
    }
    let s = match d {
        0 => "0",
        1 => "1",
        2 => "2",
        3 => "3",
        4 => "4",
        5 => "5",
        6 => "6",
        7 => "7",
        8 => "8",
        _ => "9",
    };
    assert(s@ =~= seq![digit(d as int)]);
    s
}

fn nat_to_decimal(n: u32) -> (text: String)
    ensures
        text@ == decimal_nat(n as nat),
    decreases n,
{
    if n < 10 {
        String::from_str(digit_str(n))
    } else {
        let text = nat_to_decimal(n / 10).concat(digit_str(n % 10));
        assert(text@ =~= decimal_nat(n as nat));
        text
    }
}

/// Writes `n` out in decimal.
pub fn to_decimal(n: i32) -> (text: String)
    ensures
        text@ == decimal(n as int),
{
    if n < 0 {
        let magnitude: u32 = (0 - (n as i64)) as u32;
        proof {
            reveal_strlit("-");
        }
        let text = String::from_str("-").concat(nat_to_decimal(magnitude).as_str());
        assert(text@ =~= decimal(n as int));
        text
    } else {
        nat_to_decimal(n as u32)
    }
}

} // verus!
