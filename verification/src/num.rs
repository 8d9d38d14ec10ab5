//! Exact integer arithmetic helpers: rounding division and decimal string
//! rendering for values held in hundredths of a unit.

use vstd::prelude::*;

verus! {

/// `p / d` rounded to the nearest integer, halves rounded up. For the
/// non-negative numerators the library uses this equals rounding halves away
/// from zero.
pub open spec fn spec_round_half_up(p: int, d: int) -> int
    recommends
        0 <= p,
        1 <= d,
{
    (2 * p + d) / (2 * d)
}

/// Rounding division, halves up.
pub fn div_round_half_up(p: i64, d: i64) -> (r: i64)
    requires
        0 <= p,
        1 <= d,
        2 * p + d <= i64::MAX,
        2 * d <= i64::MAX,
    ensures
        r == spec_round_half_up(p as int, d as int),
        0 <= r,
        2 * d * r <= 2 * p + d,
        2 * p + d < 2 * d * r + 2 * d,
{
    let r = (2 * p + d) / (2 * d);
    proof {
        vstd::arithmetic::div_mod::lemma_fundamental_div_mod(2 * p + d, 2 * d);
    }
    r
}

/// The decimal digit character for `d`.
pub open spec fn digit_char(d: int) -> char
    recommends
        0 <= d < 10,
{
    if d == 0 {
        '0'
    } else if d == 1 {
        '1'
    } else if d == 2 {
        '2'
    } else if d == 3 {
        '3'
    } else if d == 4 {
        '4'
    } else if d == 5 {
        '5'
    } else if d == 6 {
        '6'
    } else if d == 7 {
        '7'
    } else if d == 8 {
        '8'
    } else {
        '9'
    }
}

/// The decimal digit sequence of `v`, without sign and without leading
/// zeros (`0` itself is rendered as one digit).
pub open spec fn dec_digits(v: nat) -> Seq<char>
    decreases v,
{
    if v < 10 {
        seq![digit_char(v as int)]
    } else {
        dec_digits(v / 10).push(digit_char((v % 10) as int))
    }
}

/// The single-character string for decimal digit `d`.
pub fn digit_str(d: i64) -> (r: &'static str)
    requires
        0 <= d < 10,
    ensures
        r@ == seq![digit_char(d as int)],
{
    if d == 0 {
        proof {
            reveal_strlit("0");
            assert(("0")@ =~= seq![digit_char(0)]);
        }
        "0"
    } else if d == 1 {
        proof {
            reveal_strlit("1");
            assert(("1")@ =~= seq![digit_char(1)]);
        }
        "1"
    } else if d == 2 {
        proof {
            reveal_strlit("2");
            assert(("2")@ =~= seq![digit_char(2)]);
        }
        "2"
    } else if d == 3 {
        proof {
            reveal_strlit("3");
            assert(("3")@ =~= seq![digit_char(3)]);
        }
        "3"
    } else if d == 4 {
        proof {
            reveal_strlit("4");
            assert(("4")@ =~= seq![digit_char(4)]);
        }
        "4"
    } else if d == 5 {
        proof {
            reveal_strlit("5");
            assert(("5")@ =~= seq![digit_char(5)]);
        }
        "5"
    } else if d == 6 {
        proof {
            reveal_strlit("6");
            assert(("6")@ =~= seq![digit_char(6)]);
        }
        "6"
    } else if d == 7 {
        proof {
            reveal_strlit("7");
            assert(("7")@ =~= seq![digit_char(7)]);
        }
        "7"
    } else if d == 8 {
        proof {
            reveal_strlit("8");
            assert(("8")@ =~= seq![digit_char(8)]);
        }
        "8"
    } else {
        proof {
            reveal_strlit("9");
            assert(("9")@ =~= seq![digit_char(9)]);
        }
        "9"
    }
}

/// Renders a non-negative integer in decimal.
pub fn int_to_decimal_string(v: i64) -> (r: String)
    requires
        0 <= v,
    ensures
        r@ == dec_digits(v as nat),
    decreases v,
{
    if v < 10 {
        let s = digit_str(v);
        s.to_owned()
    } else {
        let mut prefix = int_to_decimal_string(v / 10);
        prefix.append(digit_str(v % 10));
        proof {
            assert(dec_digits((v / 10) as nat).push(digit_char((v % 10) as int)) =~= dec_digits(
                (v / 10) as nat,
            ) + seq![digit_char((v % 10) as int)]);
            assert((v as nat) / 10 == (v / 10) as nat);
            assert((v as nat) % 10 == (v % 10) as nat);
        }
        prefix
    }
}

/// The label text for a value of `v` hundredths: the value rendered with up
/// to two decimal places, trailing zeros of the fraction dropped, and a
/// leading minus sign when `negative` is set (the magnitude is stored
/// unsigned, so the sign is always explicit).
pub open spec fn spec_centi_label(v: int, negative: bool) -> Seq<char>
    recommends
        0 <= v,
{
    let whole = dec_digits((v / 100) as nat);
    let base = if v % 100 == 0 {
        whole
    } else if v % 10 == 0 {
        whole + seq!['.', digit_char((v / 10) % 10)]
    } else {
        whole + seq!['.', digit_char((v / 10) % 10), digit_char(v % 10)]
    };
    if negative {
        seq!['-'] + base
    } else {
        base
    }
}

/// Renders a value of `v` hundredths as a marking label.
pub fn centi_label(v: i64, negative: bool) -> (r: String)
    requires
        0 <= v,
    ensures
        r@ == spec_centi_label(v as int, negative),
{
    let mut s = if negative {
        proof {
            reveal_strlit("-");
            assert(("-")@ =~= seq!['-']);
        }
        let m: &str = "-";
        m.to_owned()
    } else {
        String::new()
    };
    let whole = int_to_decimal_string(v / 100);
    s.append(whole.as_str());
    let f = v % 100;
    if f != 0 {
        proof {
            reveal_strlit(".");
            assert((".")@ =~= seq!['.']);
        }
        s.append(".");
        s.append(digit_str(f / 10));
        if f % 10 != 0 {
            s.append(digit_str(f % 10));
        }
        proof {
            vstd::arithmetic::div_mod::lemma_mod_breakdown(v as int, 10, 10);
            assert(v % 100 == 10 * ((v / 10) % 10) + v % 10);
            vstd::arithmetic::div_mod::lemma_fundamental_div_mod_converse(
                f as int,
                10,
                (v / 10) % 10,
                (v % 10) as int,
            );
            assert(f / 10 == (v / 10) % 10);
            assert(f % 10 == v % 10);
        }
    }
    proof {
        assert(s@ =~= spec_centi_label(v as int, negative));
    }
    s
}

} // verus!
