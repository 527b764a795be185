//! Decimal rendering of the counter for its label.

use vstd::prelude::*;

verus! {

/// The character of a decimal digit `d` (taken as 9 when `d` exceeds 9).
pub open spec fn digit_char(d: nat) -> char {
    if d == 0 {
        '0'
    } else if d == 1 {
        '1'
    } else if d == 2 {
        '2'
    } else if d == 3 {
        '3'
    } else if d == 4 {
        '4'
    } else if d == 5 {
        '5'
    } else if d == 6 {
        '6'
    } else if d == 7 {
        '7'
    } else if d == 8 {
        '8'
    } else {
        '9'
    }
}

/// The decimal digits of `n`, most significant first, with no leading zeros.
pub open spec fn decimal(n: nat) -> Seq<char>
    decreases n,
{
    if n < 10 {
        seq![digit_char(n)]
    } else {
        decimal(n / 10).push(digit_char(n % 10))
    }
}

/// The text of the label for counter value `v`: `Counter: ` and then `v` in decimal.
pub open spec fn label_of(v: u8) -> Seq<char> {
    "Counter: "@ + decimal(v as nat)
}

/// The one-character string of the decimal digit `d`.
fn digit_str(d: u8) -> (r: &'static str)
    requires
        d < 10,
    ensures
        r@ == seq![digit_char(d as nat)],
{
    match d {
        0 => {
            proof { reveal_strlit("0"); }
            "0"
        },
        1 => {
            proof { reveal_strlit("1"); }
            "1"
        },
        2 => {
            proof { reveal_strlit("2"); }
            "2"
        },
        3 => {
            proof { reveal_strlit("3"); }
            "3"
        },
        4 => {
            proof { reveal_strlit("4"); }
            "4"
        },
        5 => {
            proof { reveal_strlit("5"); }
            "5"
        },
        6 => {
            proof { reveal_strlit("6"); }
            "6"
        },
        7 => {
            proof { reveal_strlit("7"); }
            "7"
        },
        8 => {
            proof { reveal_strlit("8"); }
            "8"
        },
        _ => {
            proof { reveal_strlit("9"); }
            "9"
        },
    }
}

/// The label text for counter value `v`.
pub fn label_text_of(v: u8) -> (r: String)
    ensures
        r@ == label_of(v),
{
    let mut s = String::from_str("Counter: ");
    if v >= 100 {
        s.append(digit_str(v / 100));
    }
    if v >= 10 {
        s.append(digit_str((v / 10) % 10));
    }
    s.append(digit_str(v % 10));
    proof {
        let n = v as nat;
        if n >= 100 {
            assert(decimal(n / 100) == seq![digit_char(n / 100)]);
            assert(decimal(n / 10) == decimal(n / 100).push(digit_char((n / 10) % 10)));
        } else if n >= 10 {
            assert(decimal(n / 10) == seq![digit_char(n / 10)]);
        }
        assert(s@ =~= label_of(v));
    }
    s
}

} // verus!
