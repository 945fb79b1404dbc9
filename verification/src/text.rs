//! Building blocks for the human-readable strings the runtime returns:
//! decimal rendering of non-negative integers, two-decimal money amounts and
//! zero-padded counters.

use vstd::prelude::*;

verus! {

/// The character for one decimal digit value.
pub open spec fn digit_char(d: nat) -> char {
    if d == 0 {
        '0'
    } else if d == 1 {
        '1'
    } else if d == 2 {
        '2'
    } else if d == 3 {
        '3'
    } else if d == 4 {
        '4'
    } else if d == 5 {
        '5'
    } else if d == 6 {
        '6'
    } else if d == 7 {
        '7'
    } else if d == 8 {
        '8'
    } else {
        '9'
    }
}

/// The usual decimal notation of `n`, most significant digit first, with no
/// leading zeros (a single `'0'` for zero).
pub open spec fn spec_decimal(n: nat) -> Seq<char>
    decreases n,
{
    if n < 10 {
        seq![digit_char(n)]
    } else {
        spec_decimal(n / 10).push(digit_char(n % 10))
    }
}

fn digit_str(d: u64) -> (s: &'static str)
    requires
        d < 10,
    ensures
        s@ == seq![digit_char(d as nat)],
{
    proof {
        reveal_strlit("0");
        reveal_strlit("1");
        reveal_strlit("2");
        reveal_strlit("3");
        reveal_strlit("4");
        reveal_strlit("5");
        reveal_strlit("6");
        reveal_strlit("7");
        reveal_strlit("8");
        reveal_strlit("9");
    }
    let s: &'static str = if d == 0 {
        "0"
    } else if d == 1 {
        "1"
    } else if d == 2 {
        "2"
    } else if d == 3 {
        "3"
    } else if d == 4 {
        "4"
    } else if d == 5 {
        "5"
    } else if d == 6 {
        "6"
    } else if d == 7 {
        "7"
    } else if d == 8 {
        "8"
    } else {
        "9"
    };
    proof {
        assert(s@ =~= seq![digit_char(d as nat)]);
    }
    s
}

/// Renders `n` in decimal.
pub fn decimal_string(n: u64) -> (s: String)
    ensures
        s@ == spec_decimal(n as nat),
    decreases n,
{
    if n < 10 {
        String::from_str(digit_str(n))
    } else {
        let mut s = decimal_string(n / 10);
        s.append(digit_str(n % 10));
        proof {
            assert(s@ =~= spec_decimal(n as nat));
        }
        s
    }
}

/// A money amount held in cents, written with two decimal places.
pub open spec fn spec_money(cents: nat) -> Seq<char> {
    spec_decimal(cents / 100) + seq!['.', digit_char((cents / 10) % 10), digit_char(cents % 10)]
}

/// Renders an amount of `cents` as whole units, a dot, and two digits.
pub fn money_string(cents: u64) -> (s: String)
    ensures
        s@ == spec_money(cents as nat),
{
    proof {
        reveal_strlit(".");
    }
    let mut s = decimal_string(cents / 100);
    s.append(".");
    s.append(digit_str((cents / 10) % 10));
    s.append(digit_str(cents % 10));
    proof {
        assert(s@ =~= spec_money(cents as nat));
    }
    s
}

/// `n` in decimal, left-padded with zeros to at least six digits.
pub open spec fn spec_padded6(n: nat) -> Seq<char> {
    if n < 10 {
        "00000"@ + spec_decimal(n)
    } else if n < 100 {
        "0000"@ + spec_decimal(n)
    } else if n < 1000 {
        "000"@ + spec_decimal(n)
    } else if n < 10000 {
        "00"@ + spec_decimal(n)
    } else if n < 100000 {
        "0"@ + spec_decimal(n)
    } else {
        spec_decimal(n)
    }
}

/// Renders `n` zero-padded to at least six digits.
pub fn padded6_string(n: u64) -> (s: String)
    ensures
        s@ == spec_padded6(n as nat),
{
    let mut s = if n < 10 {
        String::from_str("00000")
    } else if n < 100 {
        String::from_str("0000")
    } else if n < 1000 {
        String::from_str("000")
    } else if n < 10000 {
        String::from_str("00")
    } else if n < 100000 {
        String::from_str("0")
    } else {
        String::new()
    };
    let digits = decimal_string(n);
    s.append(digits.as_str());
    proof {
        assert(s@ =~= spec_padded6(n as nat));
    }
    s
}

} // verus!
