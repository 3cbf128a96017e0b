//! Building the messages that the gateway and the handlers report.

use vstd::prelude::*;

verus! {

/// The decimal digit with value `d`.
pub open spec fn digit_char(d: int) -> char {
    if d == 0 { '0' }
    else if d == 1 { '1' }
    else if d == 2 { '2' }
    else if d == 3 { '3' }
    else if d == 4 { '4' }
    else if d == 5 { '5' }
    else if d == 6 { '6' }
    else if d == 7 { '7' }
    else if d == 8 { '8' }
    else { '9' }
}

/// The decimal digits of `n`, most significant first, without leading zeros.
pub open spec fn digits(n: nat) -> Seq<char>
    decreases n,
{
    if n < 10 {
        seq![digit_char(n as int)]
    } else {
        digits(n / 10).push(digit_char((n % 10) as int))
    }
}

/// How an integer is written in decimal: a minus sign, then the digits of its magnitude.
pub open spec fn decimal(n: int) -> Seq<char> {
    if n < 0 {
        seq!['-'] + digits((-n) as nat)
    } else {
        digits(n as nat)
    }
}

fn digit_str(d: u32) -> (r: &'static str)
    requires
        d < 10,
    ensures
        r@ == seq![digit_char(d as int)],
{
    proof {
        reveal_strlit("0");
        reveal_strlit("1");
        reveal_strlit("2");
        reveal_strlit("3");
        reveal_strlit("4");
        reveal_strlit("5");
        reveal_strlit("6");
        reveal_strlit("7");
        reveal_strlit("8");
        reveal_strlit("9");
    }
    match d {
        0 => "0",
        1 => "1",
        2 => "2",
        3 => "3",
        4 => "4",
        5 => "5",
        6 => "6",
        7 => "7",
        8 => "8",
        _ => "9",
    }
}

fn digits_text(n: u32) -> (r: String)
    ensures
        r@ == digits(n as nat),
{
    let mut acc = String::from_str(digit_str(n % 10));
    let mut rest: u32 = n / 10;
    assert(n < 10 ==> digits(n as nat) == acc@);
    while rest > 0
        invariant
            rest == 0 ==> digits(n as nat) == acc@,
            rest > 0 ==> digits(n as nat) == digits(rest as nat) + acc@,
        decreases rest,
    {
        let mut t = String::from_str(digit_str(rest % 10));
        t.append(acc.as_str());
        proof {
            if rest >= 10 {
                let d = seq![digit_char((rest % 10) as int)];
                assert(digits((rest / 10) as nat).push(digit_char((rest % 10) as int)) + acc@
                    =~= digits((rest / 10) as nat) + (d + acc@));
            }
        }
        acc = t;
        rest = rest / 10;
    }
    acc
}

/// `n` written in decimal.
pub fn decimal_text(n: i32) -> (r: String)
    ensures
        r@ == decimal(n as int),
{
    if n < 0 {
        let magnitude: u32 = if n == i32::MIN { 2147483648u32 } else { (-n) as u32 };
        let mut r = String::from_str("-");
        proof {
            reveal_strlit("-");
        }
        r.append(digits_text(magnitude).as_str());
        r
    } else {
        digits_text(n as u32)
    }
}

/// `prefix`, then `middle`, then `suffix`.
pub fn enclose(prefix: &str, middle: &str, suffix: &str) -> (r: String)
    ensures
        r@ == prefix@ + middle@ + suffix@,
{
    let mut r = String::from_str(prefix);
    r.append(middle);
    r.append(suffix);
    r
}

} // verus!
