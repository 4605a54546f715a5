//! Numbers as decimal text.

use vstd::prelude::*;
use vstd::string::StringExecFns;

verus! {

/// The character of the digit `d`.
pub open spec fn digit(d: int) -> char {
    (48 + d) as char
}

/// The decimal digits of `n`, the most significant first and no leading zero.
pub open spec fn digits(n: nat) -> Seq<char>
    decreases n,
{
    if n < 10 {
        seq![digit(n as int)]
    } else {
        digits(n / 10).push(digit((n % 10) as int))
    }
}

/// The integer `n` in decimal, with a minus sign in front where it is
/// negative.
pub open spec fn decimal(n: int) -> Seq<char> {
    if n < 0 {
        seq!['-'] + digits((-n) as nat)
    } else {
        digits(n as nat)
    }
}

fn digit_text(d: u32) -> (s: &'static str)
    requires
        d < 10,
    ensures
        s@ == seq![digit(d as int)],
{
    proof {
        reveal_strlit("0");
        reveal_strlit("1");
        reveal_strlit("2");
        reveal_strlit("3");
        reveal_strlit("4");
        reveal_strlit("5");
        reveal_strlit("6");
        reveal_strlit("7");
        reveal_strlit("8");
        reveal_strlit("9");
    }
    let s = if d == 0 {
        "0"
    } else if d == 1 {
        "1"
    } else if d == 2 {
        "2"
    } else if d == 3 {
        "3"
    } else if d == 4 {
        "4"
    } else if d == 5 {
        "5"
    } else if d == 6 {
        "6"
    } else if d == 7 {
        "7"
    } else if d == 8 {
        "8"
    } else {
        "9"
    };
    assert(s@ =~= seq![digit(d as int)]);
    s
}

/// The decimal text of `n`.
pub fn to_decimal(n: i32) -> (r: String)
    ensures
        r@ == decimal(n as int),
{
    let magnitude: u32 = if n < 0 {
        (-(n as i64)) as u32
    } else {
        n as u32
    };
    let mut out = String::from_str(digit_text(magnitude % 10));
    let mut rest: u32 = magnitude / 10;
    while rest > 0
        invariant
            digits(magnitude as nat) == if rest > 0 {
                digits(rest as nat) + out@
            } else {
                out@
            },
        decreases rest,
    {
        let ghost before = out@;
        out = String::from_str(digit_text(rest % 10)).concat(out.as_str());
        proof {
            let d = seq![digit((rest % 10) as int)];
            assert(out@ == d + before);
            if rest >= 10 {
                assert(digits(rest as nat) == digits((rest / 10) as nat) + d);
                assert(digits((rest / 10) as nat) + d + before == digits((rest / 10) as nat) + (d
                    + before));
            }
        }
        rest = rest / 10;
    }
    if n < 0 {
        proof {
            reveal_strlit("-");
            assert("-"@ =~= seq!['-']);
        }
        String::from_str("-").concat(out.as_str())
    } else {
        out
    }
}

} // verus!
