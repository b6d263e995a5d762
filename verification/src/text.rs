//! Verified rendering of numbers as text.
//!
//! The specifications build character sequences digit by digit; the
//! executable functions produce `String`s proved equal to them.

use vstd::prelude::*;
use vstd::string::StringExecFns;

verus! {

/// Ten to the `k`-th power.
pub open spec fn pow10(k: nat) -> nat
    decreases k,
{
    if k == 0 {
        1
    } else {
        10 * pow10((k - 1) as nat)
    }
}

/// The character of a single decimal digit.
pub open spec fn digit_char(d: int) -> char {
    ((48 + d) as u8) as char
}

/// The letter standing for a two-digit value `10 <= v < 36`: `A` for ten up
/// to `Z` for thirty-five.
pub open spec fn letter_char(v: int) -> char {
    ((55 + v) as u8) as char
}

/// The last `width` decimal digits of `n`, zero-padded on the left.
pub open spec fn dec_digits(n: int, width: nat) -> Seq<char>
    decreases width,
{
    if width == 0 {
        Seq::empty()
    } else {
        dec_digits(n / 10, (width - 1) as nat).push(digit_char(n % 10))
    }
}

/// `n` in `width` columns, padded on the left with spaces instead of zeros.
pub open spec fn spaced_digits(n: int, width: nat) -> Seq<char>
    decreases width,
{
    if width <= 1 {
        dec_digits(n, width)
    } else if n < pow10((width - 1) as nat) {
        seq![' '] + spaced_digits(n, (width - 1) as nat)
    } else {
        dec_digits(n, width)
    }
}

/// `n` in decimal, no padding, at least one digit.
pub open spec fn dec_str(n: int) -> Seq<char>
    decreases n,
{
    if n < 10 {
        seq![digit_char(n)]
    } else {
        dec_str(n / 10).push(digit_char(n % 10))
    }
}

/// `n` in at least `width` columns: wider numbers keep all their digits,
/// narrower ones are padded on the left with zeros or spaces.
pub open spec fn padded_dec(n: int, width: nat, zero_pad: bool) -> Seq<char> {
    if n >= pow10(width) {
        dec_str(n)
    } else if zero_pad {
        dec_digits(n, width)
    } else {
        spaced_digits(n, width)
    }
}

/// `n` copies of one character.
pub open spec fn repeated(c: char, n: int) -> Seq<char> {
    Seq::new(n as nat, |i| c)
}

/// A string of `n` copies of one character.
pub fn repeat_char(c: char, n: usize) -> (s: String)
    ensures
        s@ == repeated(c, n as int),
{
    let mut s = String::new();
    let mut i: usize = 0;
    while i < n
        invariant
            i <= n,
            s@ == repeated(c, i as int),
        decreases n - i,
    {
        push_char(&mut s, c);
        i += 1;
        proof {
            assert(s@ =~= repeated(c, i as int));
        }
    }
    proof {
        assert(s@ =~= repeated(c, n as int));
    }
    s
}

/// Relies on `String::push`: appends exactly the given character.
#[verifier::external_body]
pub(crate) fn push_char(s: &mut String, c: char)
    ensures
        final(s)@ == old(s)@.push(c),
{
    s.push(c);
}

/// The character of a single decimal digit.
fn digit_to_char(d: u8) -> (c: char)
    requires
        d < 10,
    ensures
        c == digit_char(d as int),
{
    (48 + d) as char
}

/// Ten to the `k`-th power, for exponents a `u64` can hold.
pub fn pow10_u64(k: u32) -> (r: u64)
    requires
        k <= 9,
    ensures
        r == pow10(k as nat),
{
    proof {
        assert(pow10(9) == 1000000000) by {
            reveal_with_fuel(pow10, 10);
        }
    }
    let mut r: u64 = 1;
    let mut i: u32 = 0;
    while i < k
        invariant
            i <= k <= 9,
            r == pow10(i as nat),
            pow10(9) == 1000000000,
        decreases k - i,
    {
        proof {
            lemma_pow10_increases(i as nat + 1, 9);
        }
        r = r * 10;
        i += 1;
    }
    r
}

/// `pow10` grows with its exponent.
pub proof fn lemma_pow10_increases(a: nat, b: nat)
    requires
        a <= b,
    ensures
        pow10(a) <= pow10(b),
    decreases b,
{
    if a < b {
        lemma_pow10_increases(a, (b - 1) as nat);
        assert(pow10(b) == 10 * pow10((b - 1) as nat));
    }
}

/// A number below `10^k` renders to at most `k` digits (and always at least
/// one).
pub proof fn lemma_dec_str_len_bound(n: int, k: nat)
    requires
        0 <= n < pow10(k),
        k >= 1,
    ensures
        1 <= dec_str(n).len() <= k,
    decreases k,
{
    if n < 10 {
    } else {
        assert(pow10(k) == 10 * pow10((k - 1) as nat));
        lemma_dec_str_len_bound(n / 10, (k - 1) as nat);
    }
}

/// `n` in decimal, no padding.
pub fn u64_to_string(n: u64) -> (s: String)
    ensures
        s@ == dec_str(n as int),
    decreases n,
{
    if n < 10 {
        let mut s = String::new();
        push_char(&mut s, digit_to_char(n as u8));
        proof {
            assert(s@ =~= dec_str(n as int));
        }
        s
    } else {
        let mut s = u64_to_string(n / 10);
        push_char(&mut s, digit_to_char((n % 10) as u8));
        s
    }
}

/// The last `width` decimal digits of `n`, zero-padded on the left.
pub fn u64_fixed_digits(n: u64, width: u32) -> (s: String)
    ensures
        s@ == dec_digits(n as int, width as nat),
    decreases width,
{
    if width == 0 {
        let s = String::new();
        proof {
            assert(s@ =~= dec_digits(n as int, 0));
        }
        s
    } else {
        let mut s = u64_fixed_digits(n / 10, width - 1);
        push_char(&mut s, digit_to_char((n % 10) as u8));
        s
    }
}

/// `n` in `width` columns, space-padded on the left.
pub fn u64_spaced_digits(n: u64, width: u32) -> (s: String)
    requires
        width <= 9,
    ensures
        s@ == spaced_digits(n as int, width as nat),
    decreases width,
{
    if width <= 1 {
        u64_fixed_digits(n, width)
    } else if n < pow10_u64(width - 1) {
        let mut s = String::new();
        push_char(&mut s, ' ');
        let rest = u64_spaced_digits(n, width - 1);
        s.append(rest.as_str());
        proof {
            assert(s@ =~= spaced_digits(n as int, width as nat));
        }
        s
    } else {
        u64_fixed_digits(n, width)
    }
}

/// `n` in at least `width` columns, as [`padded_dec`] lays it out.
pub fn u64_padded(n: u64, width: u32, zero_pad: bool) -> (s: String)
    requires
        width <= 9,
    ensures
        s@ == padded_dec(n as int, width as nat, zero_pad),
{
    proof {
        assert(pow10(9) == 1000000000) by {
            reveal_with_fuel(pow10, 10);
        }
        lemma_pow10_increases(width as nat, 9);
    }
    let bound = pow10_u64(width);
    if n >= bound {
        u64_to_string(n)
    } else if zero_pad {
        u64_fixed_digits(n, width)
    } else {
        u64_spaced_digits(n, width)
    }
}

} // verus!
