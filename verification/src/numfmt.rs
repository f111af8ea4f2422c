//! Decimal rendering of integers, used when the player summaries are put
//! into text.
use vstd::prelude::*;

use crate::util::{ascii_to_string, spec_ascii_chars};

verus! {

/// The ASCII digit for a value between 0 and 9.
pub open spec fn spec_digit_char(d: int) -> char
    recommends
        0 <= d < 10,
{
    ((48 + d) as u8) as char
}

/// The decimal digits of a non-negative integer, most significant first.
pub open spec fn spec_nat_string(n: int) -> Seq<char>
    recommends
        n >= 0,
    decreases n,
{
    if n < 10 {
        seq![spec_digit_char(n)]
    } else {
        spec_nat_string(n / 10).push(spec_digit_char(n % 10))
    }
}

/// The decimal rendering of an integer, with a leading minus sign when it is
/// negative.
pub open spec fn spec_int_string(n: int) -> Seq<char> {
    if n < 0 {
        seq!['-'] + spec_nat_string(-n)
    } else {
        spec_nat_string(n)
    }
}

/// Renders an integer in decimal.
#[verifier::loop_isolation(false)]
pub fn i128_to_string(n: i128) -> (r: String)
    requires
        i128::MIN < n,
    ensures
        r@ == spec_int_string(n as int),
{
    let neg = n < 0;
    let mut m: u128 = if neg {
        (-n) as u128
    } else {
        n as u128
    };
    let ghost mag = m as int;
    // Digits of the magnitude, least significant first.
    let mut digits: Vec<u8> = Vec::new();
    if m == 0 {
        digits.push(48);
    }
    while m > 0
        invariant
            forall|j: int| 0 <= j < digits@.len() ==> 48 <= #[trigger] digits@[j] < 58,
            if m > 0 {
                spec_nat_string(mag) == spec_nat_string(m as int) + spec_ascii_chars(
                    digits@.reverse(),
                )
            } else {
                spec_nat_string(mag) == spec_ascii_chars(digits@.reverse())
            },
        decreases m,
    {
        let ghost m0 = m as int;
        let ghost digits0 = digits@;
        let d: u8 = (m % 10) as u8 + 48;
        m = m / 10;
        digits.push(d);
        proof {
            assert(d as char == spec_digit_char(m0 % 10));
            assert(spec_ascii_chars(digits@.reverse()) =~= seq![d as char] + spec_ascii_chars(
                digits0.reverse(),
            ));
            if m > 0 {
                assert(spec_nat_string(m0) == spec_nat_string(m0 / 10).push(
                    spec_digit_char(m0 % 10),
                ));
                assert(spec_nat_string(m0) =~= spec_nat_string(m as int) + seq![d as char]);
            } else {
                assert(m0 < 10);
                assert(spec_nat_string(m0) =~= seq![d as char]);
            }
            assert(spec_nat_string(mag) =~= spec_nat_string(m as int) + seq![d as char]
                + spec_ascii_chars(digits0.reverse()) || spec_nat_string(mag) =~= seq![d as char]
                + spec_ascii_chars(digits0.reverse()));
        }
    }
    proof {
        assert(spec_nat_string(mag) == spec_ascii_chars(digits@.reverse()));
    }
    // Spell the result: an optional sign, then the digits reversed.
    let ghost target = spec_int_string(n as int);
    let mut bytes: Vec<u8> = Vec::new();
    if neg {
        bytes.push(45);
    }
    let ghost sign_len: int = if neg {
        1
    } else {
        0
    };
    proof {
        assert(target =~= (if neg {
            seq!['-']
        } else {
            Seq::<char>::empty()
        }) + spec_ascii_chars(digits@.reverse()));
        assert(target.len() == sign_len + digits@.len());
        assert(spec_ascii_chars(bytes@) =~= target.take(sign_len));
    }
    let mut k: usize = digits.len();
    while k > 0
        invariant
            0 <= k <= digits@.len(),
            forall|i: int| 0 <= i < bytes@.len() ==> #[trigger] bytes@[i] < 0x80,
            spec_ascii_chars(bytes@) == target.take(sign_len + (digits@.len() - k)),
        decreases k,
    {
        let ghost bytes0 = bytes@;
        k -= 1;
        bytes.push(digits[k]);
        proof {
            let pos = digits@.len() - 1 - k;
            assert(digits@.reverse()[pos] == digits@[k as int]);
            assert(target[sign_len + pos] == digits@[k as int] as char);
            assert(spec_ascii_chars(bytes@) =~= target.take(sign_len + (digits@.len() - k)));
        }
    }
    proof {
        assert(spec_ascii_chars(bytes@) =~= target);
    }
    ascii_to_string(bytes)
}

/// Renders a 64-bit integer in decimal.
pub fn i64_to_string(n: i64) -> (r: String)
    ensures
        r@ == spec_int_string(n as int),
{
    i128_to_string(n as i128)
}

/// Renders a count in decimal.
pub fn usize_to_string(n: usize) -> (r: String)
    ensures
        r@ == spec_int_string(n as int),
{
    i128_to_string(n as i128)
}

} // verus!
