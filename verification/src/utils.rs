//! Decimal-precision normalization of token amounts.
//!
//! A transfer's amount is carried between chains at a canonical wire
//! precision (8 decimals) and converted to each chain's native precision at
//! the boundary. Shrinking precision floor-divides and is lossy by design;
//! growing precision multiplies and must fail on overflow rather than wrap.

use vstd::prelude::*;

verus! {

use vstd::arithmetic::power::pow;
use vstd::arithmetic::power::lemma_pow_adds;
use vstd::arithmetic::power::lemma_pow_positive;
use vstd::arithmetic::div_mod::lemma_div_denominator;
use vstd::arithmetic::div_mod::lemma_fundamental_div_mod;

/// 10^e, the scale factor between two decimal precisions `e` apart.
pub open spec fn pow10(e: nat) -> int {
    pow(10, e)
}

/// What normalization returns: floor-divide when precision shrinks,
/// overflow-checked multiply when it grows, identity when equal.
pub open spec fn spec_normalize(amount: u64, from_decimals: u8, to_decimals: u8) -> Option<
    u64,
> {
    if from_decimals > to_decimals {
        Some((amount as int / pow10((from_decimals - to_decimals) as nat)) as u64)
    } else if from_decimals < to_decimals {
        if amount * pow10((to_decimals - from_decimals) as nat) <= u64::MAX {
            Some((amount * pow10((to_decimals - from_decimals) as nat)) as u64)
        } else {
            None
        }
    } else {
        Some(amount)
    }
}

/// Multiplying a non-negative value by a factor of at least one never
/// shrinks it.
proof fn lemma_mul_ge_self(x: int, f: int)
    requires
        x >= 0,
        f >= 1,
    ensures
        x * f >= x,
{
    assert(x * f >= x) by (nonlinear_arith)
        requires
            x >= 0,
            f >= 1,
    ;
}

/// The quotient of a division by a positive number is bounded by the
/// dividend.
proof fn lemma_div_le_self(x: int, d: int)
    requires
        x >= 0,
        d >= 1,
    ensures
        0 <= x / d <= x,
{
    assert(0 <= x / d <= x) by (nonlinear_arith)
        requires
            x >= 0,
            d >= 1,
    ;
}

/// Converts `amount` from `foreign_decimals` to `local_decimals` of
/// precision. Shrinking floor-divides (dust is dropped); growing multiplies
/// one order of magnitude at a time and returns `None` as soon as the exact
/// product would exceed the 64-bit range.
pub fn normalize_amount(amount: u64, foreign_decimals: u8, local_decimals: u8) -> (r: Option<
    u64,
>)
    ensures
        r == spec_normalize(amount, foreign_decimals, local_decimals),
{
    if foreign_decimals > local_decimals {
        let diff = foreign_decimals - local_decimals;
        let mut a = amount;
        let mut i: u8 = 0;
        proof {
            assert(pow10(0) == 1) by { reveal_with_fuel(pow, 1); }
        }
        while i < diff
            invariant
                i <= diff,
                a == amount as int / pow10(i as nat),
            decreases diff - i,
        {
            proof {
                lemma_pow_positive(10, i as nat);
                lemma_pow_adds(10, i as nat, 1);
                assert(pow10(1) == 10) by { reveal_with_fuel(pow, 2); }
                lemma_div_denominator(amount as int, pow10(i as nat), 10);
            }
            a = a / 10;
            i = i + 1;
        }
        Some(a)
    } else if foreign_decimals < local_decimals {
        let diff = local_decimals - foreign_decimals;
        let mut a = amount;
        let mut i: u8 = 0;
        proof {
            assert(pow10(0) == 1) by { reveal_with_fuel(pow, 1); }
        }
        while i < diff
            invariant
                i <= diff,
                foreign_decimals < local_decimals,
                diff == local_decimals - foreign_decimals,
                a == amount as int * pow10(i as nat),
            decreases diff - i,
        {
            proof {
                lemma_pow_positive(10, i as nat);
                lemma_pow_adds(10, i as nat, 1);
                assert(pow10(1) == 10) by { reveal_with_fuel(pow, 2); }
                assert(a * 10 == amount as int * pow10((i + 1) as nat)) by (nonlinear_arith)
                    requires
                        a == amount as int * pow10(i as nat),
                        pow10((i + 1) as nat) == pow10(i as nat) * 10,
                ;
            }
            if a > 0x1999_9999_9999_9999u64 {
                // `a * 10` would exceed `u64::MAX`, so the exact product over
                // the full difference would as well.
                proof {
                    lemma_pow_positive(10, (i + 1) as nat);
                    lemma_pow_positive(10, (diff - i - 1) as nat);
                    lemma_pow_adds(10, (i + 1) as nat, (diff - i - 1) as nat);
                    assert(amount as int * pow10((i + 1) as nat) >= 0) by (nonlinear_arith)
                        requires
                            pow10((i + 1) as nat) >= 1,
                    ;
                    lemma_mul_ge_self(
                        amount as int * pow10((i + 1) as nat),
                        pow10((diff - i - 1) as nat),
                    );
                    assert(amount as int * pow10((i + 1) as nat) * pow10((diff - i - 1) as nat)
                        == amount as int * pow10(diff as nat)) by (nonlinear_arith)
                        requires
                            pow10((i + 1) as nat) * pow10((diff - i - 1) as nat) == pow10(
                                diff as nat,
                            ),
                    ;
                }
                return None;
            }
            a = a * 10;
            i = i + 1;
        }
        Some(a)
    } else {
        Some(amount)
    }
}

/// What denormalization returns: scaling a wire-precision amount (8
/// decimals) up to a token that uses more decimals, overflow-checked; a
/// token at 8 decimals or fewer keeps the amount as it is.
pub open spec fn spec_denormalize(amount: u64, decimals: u8) -> Option<u64> {
    if decimals > 8 {
        spec_normalize(amount, 8, decimals)
    } else {
        Some(amount)
    }
}

/// Converts a wire-precision amount to a token's native precision on the
/// way in. Tokens with more than 8 decimals are scaled up with an overflow
/// check; others keep the amount unchanged.
pub fn denormalize_amount(amount: u64, decimals: u8) -> (r: Option<u64>)
    ensures
        r == spec_denormalize(amount, decimals),
{
    if decimals > 8 {
        normalize_amount(amount, 8, decimals)
    } else {
        Some(amount)
    }
}

/// Law: normalizing down and back up never gains value, and loses none
/// exactly when the amount was a multiple of the dropped scale.
///
/// For `d1 >= d2`, `normalize(amount, d1, d2)` always succeeds with
/// `amount / 10^(d1-d2)`; normalizing that back from `d2` to `d1` also
/// succeeds, with a result at most `amount`, and equal to `amount` if and
/// only if `amount` is divisible by `10^(d1-d2)`.
pub proof fn lemma_normalize_round_trip(amount: u64, d1: u8, d2: u8)
    requires
        d1 >= d2,
    ensures
        spec_normalize(amount, d1, d2) matches Some(n) && spec_normalize(n, d2, d1) matches Some(
            m,
        ) && m <= amount && (m == amount <==> amount as int % pow10((d1 - d2) as nat) == 0),
{
    let k = pow10((d1 - d2) as nat);
    lemma_pow_positive(10, (d1 - d2) as nat);
    if d1 == d2 {
        assert(k == 1) by { reveal_with_fuel(pow, 1); }
        let n = spec_normalize(amount, d1, d2)->Some_0;
        assert(n == amount);
        lemma_fundamental_div_mod(amount as int, 1);
        assert(amount as int % 1 == 0);
    } else {
        let n = amount as int / k;
        lemma_div_le_self(amount as int, k);
        assert(spec_normalize(amount, d1, d2) == Some(n as u64));
        lemma_fundamental_div_mod(amount as int, k);
        vstd::arithmetic::div_mod::lemma_mod_division_less_than_divisor(amount as int, k);
        assert(amount as int == k * (amount as int / k) + amount as int % k);
        assert(n * k == k * n) by (nonlinear_arith);
        assert(n as u64 as int * k == n * k);
        assert(n * k <= amount);
        assert(spec_normalize(n as u64, d2, d1) == Some((n * k) as u64));
        assert(n * k == amount <==> amount as int % k == 0);
    }
}

/// True when a 32-byte address is the all-zero address.
pub open spec fn spec_is_zero_address(a: Seq<u8>) -> bool {
    forall|i: int| 0 <= i < a.len() ==> a[i] == 0
}

/// Compares two 32-byte addresses.
pub fn bytes32_eq(a: &[u8; 32], b: &[u8; 32]) -> (r: bool)
    ensures
        r <==> a@ == b@,
{
    let mut k: usize = 0;
    while k < 32
        invariant
            k <= 32,
            forall|i: int| 0 <= i < k ==> a@[i] == b@[i],
        decreases 32 - k,
    {
        if a[k] != b[k] {
            return false;
        }
        k = k + 1;
    }
    proof {
        assert(a@ =~= b@);
    }
    true
}

/// Tests whether a 32-byte address is the all-zero address.
pub fn is_zero_address(a: &[u8; 32]) -> (r: bool)
    ensures
        r <==> spec_is_zero_address(a@),
{
    let mut k: usize = 0;
    while k < 32
        invariant
            k <= 32,
            forall|i: int| 0 <= i < k ==> a@[i] == 0,
        decreases 32 - k,
    {
        if a[k] != 0 {
            return false;
        }
        k = k + 1;
    }
    true
}

/// Law: when precision grows, normalization reports overflow exactly when
/// the exact product would not fit in 64 bits.
pub proof fn lemma_normalize_overflow(amount: u64, d1: u8, d2: u8)
    requires
        d2 > d1,
    ensures
        spec_normalize(amount, d1, d2) is None <==> amount * pow10((d2 - d1) as nat)
            > u64::MAX,
{
}

} // verus!
