//! Small verified text helpers for the debug rendering: decimal digits,
//! decimal numbers, and dash borders.

use vstd::prelude::*;
use vstd::string::StringExecFns;

verus! {

/// The glyph for a single decimal digit; values past 9 fall back to `'?'`.
pub open spec fn digit_char(d: nat) -> char {
    if d == 0 {
        '0'
    } else if d == 1 {
        '1'
    } else if d == 2 {
        '2'
    } else if d == 3 {
        '3'
    } else if d == 4 {
        '4'
    } else if d == 5 {
        '5'
    } else if d == 6 {
        '6'
    } else if d == 7 {
        '7'
    } else if d == 8 {
        '8'
    } else if d == 9 {
        '9'
    } else {
        '?'
    }
}

/// The decimal rendering of `n`, most significant digit first, without
/// leading zeroes (a single `'0'` for zero).
pub open spec fn spec_decimal(n: nat) -> Seq<char>
    decreases n,
{
    if n < 10 {
        seq![digit_char(n)]
    } else {
        spec_decimal(n / 10) + seq![digit_char(n % 10)]
    }
}

/// A line of `n` dashes.
pub open spec fn spec_dashes(n: nat) -> Seq<char> {
    Seq::new(n, |i: int| '-')
}

/// The one-character string for a decimal digit.
pub fn digit_str(d: u8) -> (s: &'static str)
    ensures
        s@ == seq![digit_char(d as nat)],
{
    proof {
        reveal_strlit("0");
        reveal_strlit("1");
        reveal_strlit("2");
        reveal_strlit("3");
        reveal_strlit("4");
        reveal_strlit("5");
        reveal_strlit("6");
        reveal_strlit("7");
        reveal_strlit("8");
        reveal_strlit("9");
        reveal_strlit("?");
    }
    if d == 0 {
        proof {
            assert("0"@ =~= seq![digit_char(d as nat)]);
        }
        "0"
    } else if d == 1 {
        proof {
            assert("1"@ =~= seq![digit_char(d as nat)]);
        }
        "1"
    } else if d == 2 {
        proof {
            assert("2"@ =~= seq![digit_char(d as nat)]);
        }
        "2"
    } else if d == 3 {
        proof {
            assert("3"@ =~= seq![digit_char(d as nat)]);
        }
        "3"
    } else if d == 4 {
        proof {
            assert("4"@ =~= seq![digit_char(d as nat)]);
        }
        "4"
    } else if d == 5 {
        proof {
            assert("5"@ =~= seq![digit_char(d as nat)]);
        }
        "5"
    } else if d == 6 {
        proof {
            assert("6"@ =~= seq![digit_char(d as nat)]);
        }
        "6"
    } else if d == 7 {
        proof {
            assert("7"@ =~= seq![digit_char(d as nat)]);
        }
        "7"
    } else if d == 8 {
        proof {
            assert("8"@ =~= seq![digit_char(d as nat)]);
        }
        "8"
    } else if d == 9 {
        proof {
            assert("9"@ =~= seq![digit_char(d as nat)]);
        }
        "9"
    } else {
        proof {
            assert("?"@ =~= seq![digit_char(d as nat)]);
        }
        "?"
    }
}

/// The decimal rendering of a 16-bit number.
pub fn u16_decimal(n: u16) -> (s: String)
    ensures
        s@ == spec_decimal(n as nat),
    decreases n,
{
    if n < 10 {
        digit_str(n as u8).to_owned()
    } else {
        let mut s = u16_decimal(n / 10);
        s.append(digit_str((n % 10) as u8));
        s
    }
}

/// A string of `n` dashes.
pub fn dashes(n: usize) -> (s: String)
    ensures
        s@ == spec_dashes(n as nat),
{
    let mut s = String::new();
    let mut i: usize = 0;
    while i < n
        invariant
            i <= n,
            s@ =~= spec_dashes(i as nat),
        decreases n - i,
    {
        s.append("-");
        i = i + 1;
        proof {
            reveal_strlit("-");
            assert(s@ =~= spec_dashes(i as nat));
        }
    }
    proof {
        assert(s@ =~= spec_dashes(n as nat));
    }
    s
}

} // verus!
