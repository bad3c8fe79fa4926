//! Decimal string of the sum of two native unsigned integers.
//!
//! The one operation, `sum_as_string`, adds two `usize` values and returns
//! the canonical decimal representation of the sum. The addition wraps
//! modulo the native width; that overflow policy is fixed and stated in the
//! contracts. The decimal alphabet, the formatter, and the parser that the
//! contracts are proved against live in `decimal`.

pub mod decimal;

use vstd::prelude::*;

verus! {

use crate::decimal::{dec_digits, parse_dec, usize_to_decimal, lemma_parse_dec_digits};

/// The sum of `a` and `b`, wrapped to the native unsigned width.
pub open spec fn wrapped_sum(a: nat, b: nat) -> nat {
    if a + b > usize::MAX {
        (a + b - usize::MAX - 1) as nat
    } else {
        a + b
    }
}

/// Wrapping is reduction modulo the capacity of the native width: for
/// inputs the width can hold, the wrapped sum is `(a + b) % (usize::MAX + 1)`.
pub proof fn lemma_wrapped_sum_is_mod(a: nat, b: nat)
    requires
        a <= usize::MAX,
        b <= usize::MAX,
    ensures
        wrapped_sum(a, b) == (a + b) % (usize::MAX as nat + 1),
{
    let m = usize::MAX as nat + 1;
    if a + b > usize::MAX {
        vstd::arithmetic::div_mod::lemma_mod_add_multiples_vanish((a + b - m) as int, m as int);
        vstd::arithmetic::div_mod::lemma_small_mod((a + b - m) as nat, m);
    } else {
        vstd::arithmetic::div_mod::lemma_small_mod(a + b, m);
    }
}

/// What `sum_as_string` returns, as a sequence of characters.
pub open spec fn spec_sum_as_string(a: nat, b: nat) -> Seq<char> {
    dec_digits(wrapped_sum(a, b))
}

/// The decimal string of `a + b`.
///
/// Overflow policy: the addition wraps modulo the native unsigned width,
/// silently and deterministically, so the call succeeds on every input pair.
/// When the sum fits the width — the only case the operation is meant for —
/// the result is the canonical decimal form of the exact sum.
pub fn sum_as_string(a: usize, b: usize) -> (s: String)
    ensures
        s@ == spec_sum_as_string(a as nat, b as nat),
        a + b <= usize::MAX ==> s@ == dec_digits((a + b) as nat),
{
    usize_to_decimal(a.wrapping_add(b))
}

/// Exactness: whenever the sum of `a` and `b` fits the native width, the
/// result of `sum_as_string`, read back as an unsigned decimal integer,
/// equals `a + b` exactly.
pub proof fn lemma_sum_as_string_exact(a: usize, b: usize)
    requires
        a + b <= usize::MAX,
    ensures
        parse_dec(spec_sum_as_string(a as nat, b as nat)) == a + b,
{
    lemma_parse_dec_digits((a + b) as nat);
}

/// Commutativity: `sum_as_string` returns the same string however its two
/// arguments are ordered.
pub proof fn lemma_sum_as_string_commutes(a: usize, b: usize)
    ensures
        spec_sum_as_string(a as nat, b as nat) == spec_sum_as_string(b as nat, a as nat),
{
}

/// The result is always a canonical decimal numeral: nonempty, digit
/// characters only, and no leading zero unless the wrapped sum is zero.
pub proof fn lemma_sum_as_string_canonical(a: usize, b: usize)
    ensures
        spec_sum_as_string(a as nat, b as nat).len() >= 1,
        forall|i: int| 0 <= i < spec_sum_as_string(a as nat, b as nat).len() ==> crate::decimal::is_digit(
            #[trigger] spec_sum_as_string(a as nat, b as nat)[i],
        ),
        wrapped_sum(a as nat, b as nat) > 0 ==> spec_sum_as_string(a as nat, b as nat)[0] != '0',
{
    crate::decimal::lemma_dec_digits_canonical(wrapped_sum(a as nat, b as nat));
}

} // verus!
