//! Numbers in words: what a report shows of a count or of a version.

use vstd::prelude::*;

verus! {

/// The digit of a value below ten.
pub open spec fn digit(d: nat) -> char {
    (48 + d) as u8 as char
}

/// A number in decimal, without sign and without leading zeros.
pub open spec fn decimal(n: nat) -> Seq<char>
    decreases n,
{
    if n < 10 {
        seq![digit(n)]
    } else {
        decimal(n / 10).push(digit(n % 10))
    }
}

/// The digit of a value below ten, as a text of one character.
fn digit_text(d: u64) -> (s: &'static str)
    requires
        d < 10,
    ensures
        s@ == seq![digit(d as nat)],
{
    proof {
        reveal_strlit("0");
        reveal_strlit("1");
        reveal_strlit("2");
        reveal_strlit("3");
        reveal_strlit("4");
        reveal_strlit("5");
        reveal_strlit("6");
        reveal_strlit("7");
        reveal_strlit("8");
        reveal_strlit("9");
    }
    let s = if d == 0 {
        "0"
    } else if d == 1 {
        "1"
    } else if d == 2 {
        "2"
    } else if d == 3 {
        "3"
    } else if d == 4 {
        "4"
    } else if d == 5 {
        "5"
    } else if d == 6 {
        "6"
    } else if d == 7 {
        "7"
    } else if d == 8 {
        "8"
    } else {
        "9"
    };
    assert(s@ =~= seq![digit(d as nat)]);
    s
}

/// Writes a number in decimal.
pub fn decimal_text(n: u64) -> (s: String)
    ensures
        s@ == decimal(n as nat),
{
    let mut s = String::from_str(digit_text(n % 10));
    let mut rest: u64 = n / 10;
    while rest > 0
        invariant
            rest > 0 ==> decimal(n as nat) == decimal(rest as nat) + s@,
            rest == 0 ==> s@ == decimal(n as nat),
        decreases rest,
    {
        let ghost before = s@;
        s = String::from_str(digit_text(rest % 10)).concat(s.as_str());
        proof {
            let d = seq![digit((rest % 10) as nat)];
            assert(s@ == d + before);
            if rest >= 10 {
                assert(decimal(rest as nat) =~= decimal((rest / 10) as nat) + d);
                assert(decimal(n as nat) =~= decimal((rest / 10) as nat) + s@);
            } else {
                assert(decimal(rest as nat) =~= d);
            }
        }
        rest = rest / 10;
    }
    s
}

} // verus!
