//! Unsigned integers written in decimal.

use vstd::prelude::*;
use vstd::string::*;
use vstd::utf8::is_ascii_chars;

verus! {

/// The character for one decimal digit.
pub open spec fn digit(d: nat) -> char {
    seq!['0', '1', '2', '3', '4', '5', '6', '7', '8', '9'][d as int]
}

/// A natural number in decimal, without leading zeros.
pub open spec fn decimal(n: nat) -> Seq<char>
    decreases n,
{
    if n < 10 {
        seq![digit(n)]
    } else {
        decimal(n / 10) + seq![digit(n % 10)]
    }
}

/// A number in decimal is made of ASCII characters, and of no more of them
/// than the number is large.
pub proof fn lemma_decimal_is_short_ascii(n: nat)
    ensures
        is_ascii_chars(decimal(n)),
        1 <= decimal(n).len() <= n + 1,
    decreases n,
{
    if n >= 10 {
        lemma_decimal_is_short_ascii(n / 10);
    }
}

/// The one-character text for a decimal digit.
fn digit_text(d: u32) -> (r: &'static str)
    requires
        d < 10,
    ensures
        r@ == seq![digit(d as nat)],
{
    proof {
        reveal_strlit("0");
        reveal_strlit("1");
        reveal_strlit("2");
        reveal_strlit("3");
        reveal_strlit("4");
        reveal_strlit("5");
        reveal_strlit("6");
        reveal_strlit("7");
        reveal_strlit("8");
        reveal_strlit("9");
    }
    let r = match d {
        0 => "0",
        1 => "1",
        2 => "2",
        3 => "3",
        4 => "4",
        5 => "5",
        6 => "6",
        7 => "7",
        8 => "8",
        _ => "9",
    };
    assert(r@ =~= seq![digit(d as nat)]);
    r
}

/// Writes `n` in decimal.
pub fn decimal_string(n: u32) -> (r: String)
    ensures
        r@ == decimal(n as nat),
{
    let mut rest: u32 = n / 10;
    let mut out = String::from_str(digit_text(n % 10));
    while rest > 0
        invariant
            decimal(n as nat) == if rest > 0 {
                decimal(rest as nat) + out@
            } else {
                out@
            },
        decreases rest,
    {
        let ghost before = out@;
        out = String::from_str(digit_text(rest % 10)).concat(out.as_str());
        assert(decimal(rest as nat) + before =~= if rest / 10 > 0 {
            decimal((rest / 10) as nat) + out@
        } else {
            out@
        });
        rest = rest / 10;
    }
    out
}

} // verus!
