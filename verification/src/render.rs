//! Rendering of the report's count line.
//!
//! The line attributes the surplus candidate-relative: a positive delta says
//! the candidate document has more attribute values than the reference, a
//! negative one that it has fewer, with singular phrasing at magnitude one.

use crate::diff::delta_phrase;
use crate::diff::DeltaPhrase;
use vstd::prelude::*;
use vstd::string::StrSliceExecFns;
use vstd::string::StringExecFns;

verus! {

/// The decimal digit character for one digit value.
pub open spec fn digit_char(d: nat) -> char {
    if d == 0 {
        '0'
    } else if d == 1 {
        '1'
    } else if d == 2 {
        '2'
    } else if d == 3 {
        '3'
    } else if d == 4 {
        '4'
    } else if d == 5 {
        '5'
    } else if d == 6 {
        '6'
    } else if d == 7 {
        '7'
    } else if d == 8 {
        '8'
    } else {
        '9'
    }
}

/// The decimal numeral of a number, most significant digit first.
pub open spec fn dec_seq(n: nat) -> Seq<char>
    decreases n,
{
    if n < 10 {
        seq![digit_char(n)]
    } else {
        dec_seq(n / 10).push(digit_char(n % 10))
    }
}

fn digit_str(d: u128) -> (r: String)
    requires
        d < 10,
    ensures
        r@ == seq![digit_char(d as nat)],
{
    let s: &str = if d == 0 {
        "0"
    } else if d == 1 {
        "1"
    } else if d == 2 {
        "2"
    } else if d == 3 {
        "3"
    } else if d == 4 {
        "4"
    } else if d == 5 {
        "5"
    } else if d == 6 {
        "6"
    } else if d == 7 {
        "7"
    } else if d == 8 {
        "8"
    } else {
        "9"
    };
    proof {
        reveal_strlit("0");
        reveal_strlit("1");
        reveal_strlit("2");
        reveal_strlit("3");
        reveal_strlit("4");
        reveal_strlit("5");
        reveal_strlit("6");
        reveal_strlit("7");
        reveal_strlit("8");
        reveal_strlit("9");
        assert(s@ =~= seq![digit_char(d as nat)]);
    }
    s.to_owned()
}

fn numeral(n: u128) -> (r: String)
    ensures
        r@ == dec_seq(n as nat),
{
    let mut s = digit_str(n % 10);
    let mut m = n / 10;
    proof {
        assert(n < 10 ==> n % 10 == n && n / 10 == 0) by (nonlinear_arith);
        assert(n >= 10 ==> n / 10 >= 1) by (nonlinear_arith);
        if m > 0 {
            assert(dec_seq(n as nat) =~= dec_seq(m as nat) + s@);
        }
    }
    while m > 0
        invariant
            m > 0 ==> dec_seq(n as nat) == dec_seq(m as nat) + s@,
            m == 0 ==> dec_seq(n as nat) == s@,
        decreases m,
    {
        let ghost m0 = m as nat;
        let ghost s0 = s@;
        let d = digit_str(m % 10);
        s = d.concat(s.as_str());
        m = m / 10;
        proof {
            assert(m0 < 10 ==> m0 % 10 == m0 && m0 / 10 == 0) by (nonlinear_arith);
            assert(m0 >= 10 ==> m0 / 10 >= 1) by (nonlinear_arith);
            if m > 0 {
                assert(dec_seq(m0) =~= dec_seq(m as nat) + seq![digit_char(m0 % 10)]);
                assert(dec_seq(n as nat) =~= dec_seq(m as nat) + s@);
            } else {
                assert(dec_seq(m0) =~= seq![digit_char(m0 % 10)]);
                assert(dec_seq(n as nat) =~= s@);
            }
        }
    }
    s
}

/// Builds the report's count line. Attribution is candidate-relative: a
/// positive delta credits the candidate document with the surplus, a
/// negative one with the shortfall; magnitude one is phrased in the
/// singular, larger magnitudes in the plural with the decimal magnitude.
pub fn delta_line(delta: i128, reference_name: &str, candidate_name: &str) -> (r: String)
    ensures
        delta == 0 ==> r@ == reference_name@ + " has the same amount of attributes as "@
            + candidate_name@,
        delta == 1 ==> r@ == candidate_name@ + " has one attribute more than "@ + reference_name@,
        delta == -1 ==> r@ == candidate_name@ + " has one attribute less than "@
            + reference_name@,
        delta > 1 ==> r@ == candidate_name@ + " has "@ + dec_seq(delta as nat)
            + " attributes more than "@ + reference_name@,
        delta < -1 ==> r@ == candidate_name@ + " has "@ + dec_seq((-(delta as int)) as nat)
            + " attributes less than "@ + reference_name@,
{
    match delta_phrase(delta) {
        DeltaPhrase::Same => reference_name.to_owned().concat(
            " has the same amount of attributes as ",
        ).concat(candidate_name),
        DeltaPhrase::OneMore => candidate_name.to_owned().concat(" has one attribute more than ")
            .concat(reference_name),
        DeltaPhrase::OneLess => candidate_name.to_owned().concat(" has one attribute less than ")
            .concat(reference_name),
        DeltaPhrase::MoreBy(n) => {
            let magnitude = numeral(n);
            candidate_name.to_owned().concat(" has ").concat(magnitude.as_str()).concat(
                " attributes more than ",
            ).concat(reference_name)
        },
        DeltaPhrase::LessBy(n) => {
            let magnitude = numeral(n);
            candidate_name.to_owned().concat(" has ").concat(magnitude.as_str()).concat(
                " attributes less than ",
            ).concat(reference_name)
        },
    }
}

} // verus!
