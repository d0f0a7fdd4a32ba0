//! Canonical decimal rendering of integer values.
//!
//! Every numeric kind renders through these functions, so the evaluator's
//! string-concatenation contracts can speak of one rendering function,
//! [`spec_int_string`], for all of them.

use vstd::prelude::*;

verus! {

/// The character for a single decimal digit.
pub open spec fn digit_char(d: int) -> char {
    if d == 0 {
        '0'
    } else if d == 1 {
        '1'
    } else if d == 2 {
        '2'
    } else if d == 3 {
        '3'
    } else if d == 4 {
        '4'
    } else if d == 5 {
        '5'
    } else if d == 6 {
        '6'
    } else if d == 7 {
        '7'
    } else if d == 8 {
        '8'
    } else {
        '9'
    }
}

/// Decimal rendering of a natural number, most significant digit first.
pub open spec fn spec_nat_string(n: nat) -> Seq<char>
    decreases n,
{
    if n < 10 {
        seq![digit_char(n as int)]
    } else {
        spec_nat_string(n / 10) + seq![digit_char((n % 10) as int)]
    }
}

/// Decimal rendering of an integer: a leading minus sign for negative
/// values, then the digits of the magnitude.
pub open spec fn spec_int_string(i: int) -> Seq<char> {
    if i < 0 {
        seq!['-'] + spec_nat_string((-i) as nat)
    } else {
        spec_nat_string(i as nat)
    }
}

/// The characters for a sequence of digit values read back to front; the
/// shape in which a division loop produces the digits of a number.
pub open spec fn rev_digit_chars(ds: Seq<u64>) -> Seq<char>
    decreases ds.len(),
{
    if ds.len() == 0 {
        Seq::empty()
    } else {
        seq![digit_char(ds.last() as int)] + rev_digit_chars(ds.drop_last())
    }
}

proof fn lemma_rev_digit_chars_index(ds: Seq<u64>)
    ensures
        rev_digit_chars(ds).len() == ds.len(),
        forall|k: int|
            0 <= k < ds.len() ==> rev_digit_chars(ds)[k] == digit_char(
                ds[ds.len() - 1 - k] as int,
            ),
    decreases ds.len(),
{
    if ds.len() > 0 {
        lemma_rev_digit_chars_index(ds.drop_last());
        assert forall|k: int| 0 <= k < ds.len() implies rev_digit_chars(ds)[k] == digit_char(
            ds[ds.len() - 1 - k] as int,
        ) by {
            if k > 0 {
                assert(rev_digit_chars(ds)[k] == rev_digit_chars(ds.drop_last())[k - 1]);
            }
        }
    }
}

/// The one-character string for a single decimal digit.
fn digit_str(d: u64) -> (res: &'static str)
    requires
        d < 10,
    ensures
        res@ == seq![digit_char(d as int)],
{
    let res: &'static str = if d == 0 {
        "0"
    } else if d == 1 {
        "1"
    } else if d == 2 {
        "2"
    } else if d == 3 {
        "3"
    } else if d == 4 {
        "4"
    } else if d == 5 {
        "5"
    } else if d == 6 {
        "6"
    } else if d == 7 {
        "7"
    } else if d == 8 {
        "8"
    } else {
        "9"
    };
    proof {
        reveal_strlit("0");
        reveal_strlit("1");
        reveal_strlit("2");
        reveal_strlit("3");
        reveal_strlit("4");
        reveal_strlit("5");
        reveal_strlit("6");
        reveal_strlit("7");
        reveal_strlit("8");
        reveal_strlit("9");
        assert(res@ =~= seq![digit_char(d as int)]);
    }
    res
}

/// Renders an unsigned 64-bit value in decimal.
pub fn u64_to_string(n: u64) -> (res: String)
    ensures
        res@ == spec_nat_string(n as nat),
{
    let mut digits: Vec<u64> = Vec::new();
    let mut m: u64 = n;
    proof {
        assert(spec_nat_string(n as nat) =~= spec_nat_string(m as nat) + rev_digit_chars(
            digits@,
        ));
    }
    while m >= 10
        invariant
            spec_nat_string(n as nat) == spec_nat_string(m as nat) + rev_digit_chars(digits@),
            forall|k: int| 0 <= k < digits@.len() ==> digits@[k] < 10,
        decreases m,
    {
        let ghost m0 = m;
        let ghost ds0 = digits@;
        let d: u64 = m % 10;
        digits.push(d);
        m = m / 10;
        proof {
            assert(digits@.drop_last() =~= ds0);
            assert(rev_digit_chars(digits@) == seq![digit_char(d as int)] + rev_digit_chars(
                ds0,
            ));
            assert(spec_nat_string(m0 as nat) == spec_nat_string(m as nat) + seq![
                digit_char(d as int),
            ]);
            assert((spec_nat_string(m as nat) + seq![digit_char(d as int)]) + rev_digit_chars(
                ds0,
            ) =~= spec_nat_string(m as nat) + rev_digit_chars(digits@));
        }
    }
    let ghost ds1 = digits@;
    digits.push(m);
    proof {
        assert(digits@.drop_last() =~= ds1);
        assert(rev_digit_chars(digits@) == seq![digit_char(m as int)] + rev_digit_chars(ds1));
        assert(spec_nat_string(m as nat) =~= seq![digit_char(m as int)]);
        assert(spec_nat_string(n as nat) =~= rev_digit_chars(digits@));
        lemma_rev_digit_chars_index(digits@);
    }
    let len: usize = digits.len();
    let mut s: String = String::new();
    let mut j: usize = len;
    while j > 0
        invariant
            j <= len,
            len == digits@.len(),
            forall|k: int| 0 <= k < digits@.len() ==> digits@[k] < 10,
            rev_digit_chars(digits@).len() == digits@.len(),
            forall|k: int|
                0 <= k < digits@.len() ==> rev_digit_chars(digits@)[k] == digit_char(
                    digits@[digits@.len() - 1 - k] as int,
                ),
            spec_nat_string(n as nat) == rev_digit_chars(digits@),
            s@.len() == len - j,
            forall|k: int| 0 <= k < s@.len() ==> s@[k] == rev_digit_chars(digits@)[k],
        decreases j,
    {
        let piece: &str = digit_str(digits[j - 1]);
        s.append(piece);
        j = j - 1;
    }
    proof {
        assert(s@ =~= rev_digit_chars(digits@));
    }
    s
}

/// Renders a signed 64-bit value in decimal, with a leading minus sign for
/// negative values.
pub fn i64_to_string(n: i64) -> (res: String)
    ensures
        res@ == spec_int_string(n as int),
{
    if n >= 0 {
        let res = u64_to_string(n as u64);
        res
    } else {
        let mag: u64 = if n == i64::MIN {
            9223372036854775808u64
        } else {
            (-n) as u64
        };
        let mut s: String = String::from_str("-");
        let digits: String = u64_to_string(mag);
        s.append(digits.as_str());
        proof {
            reveal_strlit("-");
            assert(s@ =~= seq!['-'] + spec_nat_string((-(n as int)) as nat));
        }
        s
    }
}

} // verus!
