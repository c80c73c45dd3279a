//! Canonical decimal text of numbers.
//!
//! The identifier extractor returns a number-typed field as its canonical
//! decimal text: minus sign for negative values, no leading zeros, `0` for
//! zero. These functions produce that text and prove it equal to the
//! mathematical digit sequence [`dec_str`].

use vstd::prelude::*;

use crate::value::JsonNumber;

verus! {

/// The decimal digit character for `d` (defined for `d < 10`).
pub open spec fn digit_of(d: nat) -> char {
    if d == 0 {
        '0'
    } else if d == 1 {
        '1'
    } else if d == 2 {
        '2'
    } else if d == 3 {
        '3'
    } else if d == 4 {
        '4'
    } else if d == 5 {
        '5'
    } else if d == 6 {
        '6'
    } else if d == 7 {
        '7'
    } else if d == 8 {
        '8'
    } else {
        '9'
    }
}

/// The canonical decimal text of `n`: most significant digit first, no sign,
/// no leading zero (the text of zero is `0`).
pub open spec fn dec_str(n: nat) -> Seq<char>
    decreases n,
{
    if n < 10 {
        seq![digit_of(n)]
    } else {
        dec_str(n / 10).push(digit_of(n % 10))
    }
}

/// The canonical decimal text of a signed value: a minus sign before the
/// magnitude's digits when negative.
pub open spec fn int_dec_str(i: int) -> Seq<char> {
    if i >= 0 {
        dec_str(i as nat)
    } else {
        seq!['-'] + dec_str((-i) as nat)
    }
}

/// The canonical decimal text of a number value. A `Decimal` already holds
/// its own canonical text.
pub open spec fn num_text(n: JsonNumber) -> Seq<char> {
    match n {
        JsonNumber::Int(i) => int_dec_str(i as int),
        JsonNumber::BigUint(u) => dec_str(u as nat),
        JsonNumber::Decimal(s) => s@,
    }
}

/// The one-character text of a single decimal digit.
fn digit_str(d: u64) -> (r: &'static str)
    requires
        d < 10,
    ensures
        r@ == seq![digit_of(d as nat)],
{
    let r: &'static str = if d == 0 {
        "0"
    } else if d == 1 {
        "1"
    } else if d == 2 {
        "2"
    } else if d == 3 {
        "3"
    } else if d == 4 {
        "4"
    } else if d == 5 {
        "5"
    } else if d == 6 {
        "6"
    } else if d == 7 {
        "7"
    } else if d == 8 {
        "8"
    } else {
        "9"
    };
    proof {
        reveal_strlit("0");
        reveal_strlit("1");
        reveal_strlit("2");
        reveal_strlit("3");
        reveal_strlit("4");
        reveal_strlit("5");
        reveal_strlit("6");
        reveal_strlit("7");
        reveal_strlit("8");
        reveal_strlit("9");
        assert(r@ =~= seq![digit_of(d as nat)]);
    }
    r
}

/// The canonical decimal text of an unsigned 64-bit value.
pub fn u64_to_dec(n: u64) -> (r: String)
    ensures
        r@ == dec_str(n as nat),
    decreases n,
{
    if n < 10 {
        digit_str(n).to_owned()
    } else {
        let mut s = u64_to_dec(n / 10);
        s.append(digit_str(n % 10));
        proof {
            assert(s@ =~= dec_str(n as nat));
        }
        s
    }
}

/// The canonical decimal text of a signed 64-bit value.
pub fn i64_to_dec(i: i64) -> (r: String)
    ensures
        r@ == int_dec_str(i as int),
{
    if i >= 0 {
        u64_to_dec(i as u64)
    } else {
        let mag: u64 = if i == i64::MIN {
            9223372036854775808u64
        } else {
            (-i) as u64
        };
        let digits = u64_to_dec(mag);
        let mut s = "-".to_owned();
        s.append(digits.as_str());
        proof {
            reveal_strlit("-");
            assert(s@ =~= int_dec_str(i as int));
        }
        s
    }
}

/// The canonical decimal text of a number value.
pub fn number_text(n: &JsonNumber) -> (r: String)
    ensures
        r@ == num_text(*n),
{
    match n {
        JsonNumber::Int(i) => i64_to_dec(*i),
        JsonNumber::BigUint(u) => u64_to_dec(*u),
        JsonNumber::Decimal(s) => s.clone(),
    }
}

} // verus!
