//! Number rendering used by the screens.

use vstd::prelude::*;
use vstd::string::StringExecFns;
use crate::text::{
    dec_digits, lemma_pow10_increases, letter_char, pow10, pow10_u64, push_char, spaced_digits,
    u64_fixed_digits, u64_padded,
};

verus! {

/// A number laid out in exactly `digits` columns.  Values below
/// `10^digits` appear in decimal, padded on the left with zeros or spaces;
/// from there up to `36 * 10^(digits-1) - 1` the leading position becomes a
/// letter (`A0` for one hundred in two columns) and the rest keeps its
/// zero-padded digits.
pub open spec fn leading_ascii(digits: nat, n: int, leading_zeros: bool) -> Seq<char> {
    if n < pow10(digits) {
        if leading_zeros {
            dec_digits(n, digits)
        } else {
            spaced_digits(n, digits)
        }
    } else {
        seq![letter_char(n / pow10((digits - 1) as nat) as int)] + dec_digits(
            n % pow10((digits - 1) as nat) as int,
            (digits - 1) as nat,
        )
    }
}

/// The letter standing for a value `10 <= v < 36`.
fn letter_to_char(v: u8) -> (c: char)
    requires
        10 <= v < 36,
    ensures
        c == letter_char(v as int),
{
    (55 + v) as char
}

/// Renders `number` in exactly `digits` columns as [`leading_ascii`] lays it
/// out.
pub fn number_to_string_leading_ascii(digits: u32, number: u64, leading_zeros: bool) -> (s: String)
    requires
        1 <= digits <= 9,
        number < 36 * pow10((digits - 1) as nat),
    ensures
        s@ == leading_ascii(digits as nat, number as int, leading_zeros),
{
    proof {
        assert(pow10(9) == 1000000000) by {
            reveal_with_fuel(pow10, 10);
        }
        lemma_pow10_increases(0, (digits - 1) as nat);
        lemma_pow10_increases((digits - 1) as nat, 9);
        assert(pow10(digits as nat) == 10 * pow10((digits - 1) as nat));
    }

    let place = pow10_u64(digits - 1);

    if number < place * 10 {
        u64_padded(number, digits, leading_zeros)
    } else {
        let lead = number / place;
        proof {
            lemma_div_in_letter_range(number as int, place as int, lead as int);
        }
        let mut s = String::new();
        push_char(&mut s, letter_to_char(lead as u8));
        let rest = u64_fixed_digits(number % place, digits - 1);
        s.append(rest.as_str());
        proof {
            assert(s@ =~= leading_ascii(digits as nat, number as int, leading_zeros));
        }
        s
    }
}

/// A value `10 * p <= n < 36 * p` has a quotient `10 <= n / p < 36`.
proof fn lemma_div_in_letter_range(n: int, p: int, q: int) by (nonlinear_arith)
    requires
        p >= 1,
        10 * p <= n < 36 * p,
        q == n / p,
    ensures
        10 <= q < 36,
{
}

} // verus!
