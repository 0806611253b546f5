use vstd::prelude::*;

use crate::shared::errors::Error;

verus! {

/// The basis-point denominator: 10 000 basis points make a whole.
pub const BPS_DENOMINATOR: i128 = 10_000;

/// `x` is representable as an `i128`.
pub open spec fn fits_i128(x: int) -> bool {
    i128::MIN <= x <= i128::MAX
}

/// Integer division rounded towards zero, as Rust's `/` computes it.
pub open spec fn div_toward_zero(a: int, b: int) -> int {
    if a == 0 {
        0
    } else if a > 0 && b > 0 {
        a / b
    } else if a < 0 && b < 0 {
        (-a) / (-b)
    } else if a < 0 {
        -((-a) / b)
    } else {
        -(a / (-b))
    }
}

/// Adds two values, returning [`Error::Overflow`] if the result is out of range.
pub fn checked_add(a: i128, b: i128) -> (r: Result<i128, Error>)
    ensures
        fits_i128(a + b) ==> r == Ok::<i128, Error>((a + b) as i128),
        !fits_i128(a + b) ==> r == Err::<i128, Error>(Error::Overflow),
{
    match a.checked_add(b) {
        Some(v) => Ok(v),
        None => Err(Error::Overflow),
    }
}

/// Subtracts `b` from `a`, returning [`Error::Overflow`] if the result is out of
/// range.
pub fn checked_sub(a: i128, b: i128) -> (r: Result<i128, Error>)
    ensures
        fits_i128(a - b) ==> r == Ok::<i128, Error>((a - b) as i128),
        !fits_i128(a - b) ==> r == Err::<i128, Error>(Error::Overflow),
{
    match a.checked_sub(b) {
        Some(v) => Ok(v),
        None => Err(Error::Overflow),
    }
}

/// Multiplies two values, returning [`Error::Overflow`] if the result is out of
/// range.
pub fn checked_mul(a: i128, b: i128) -> (r: Result<i128, Error>)
    ensures
        fits_i128(a * b) ==> r == Ok::<i128, Error>((a * b) as i128),
        !fits_i128(a * b) ==> r == Err::<i128, Error>(Error::Overflow),
{
    match a.checked_mul(b) {
        Some(v) => Ok(v),
        None => Err(Error::Overflow),
    }
}

/// Divides `a` by `b`, rounding towards zero.
///
/// Division by zero returns [`Error::InvalidAmount`]. The only overflowing
/// signed division (`i128::MIN / -1`) returns [`Error::Overflow`].
pub fn checked_div(a: i128, b: i128) -> (r: Result<i128, Error>)
    ensures
        b == 0 ==> r == Err::<i128, Error>(Error::InvalidAmount),
        b != 0 && fits_i128(div_toward_zero(a as int, b as int)) ==> r == Ok::<i128, Error>(
            div_toward_zero(a as int, b as int) as i128,
        ),
        b != 0 && !fits_i128(div_toward_zero(a as int, b as int)) ==> r == Err::<i128, Error>(
            Error::Overflow,
        ),
        (b != 0 && !fits_i128(div_toward_zero(a as int, b as int))) <==> (a == i128::MIN && b
            == -1),
{
    if b == 0 {
        return Err(Error::InvalidAmount);
    }
    proof {
        lemma_div_toward_zero_bounds(a as int, b as int);
    }
    match a.checked_div(b) {
        Some(v) => Ok(v),
        None => Err(Error::Overflow),
    }
}

/// The quotient rounded towards zero never exceeds the dividend in magnitude,
/// so only `i128::MIN / -1` leaves the `i128` range.
proof fn lemma_div_toward_zero_bounds(a: int, b: int)
    requires
        fits_i128(a),
        fits_i128(b),
        b != 0,
    ensures
        fits_i128(div_toward_zero(a, b)) <==> !(a == i128::MIN && b == -1),
{
    if a > 0 && b > 0 {
        assert(0 <= a / b <= a) by (nonlinear_arith)
            requires
                a > 0,
                b > 0,
        ;
    } else if a < 0 && b < 0 {
        assert(0 <= (-a) / (-b) <= -a) by (nonlinear_arith)
            requires
                a < 0,
                b < 0,
        ;
        if b == -1 {
            assert((-a) / 1 == -a);
        } else {
            assert((-a) / (-b) <= (-a) / 2) by (nonlinear_arith)
                requires
                    a < 0,
                    b < -1,
            ;
        }
    } else if a < 0 && b > 0 {
        assert(0 <= (-a) / b <= -a) by (nonlinear_arith)
            requires
                a < 0,
                b > 0,
        ;
    } else if a > 0 && b < 0 {
        assert(0 <= a / (-b) <= a) by (nonlinear_arith)
            requires
                a > 0,
                b < 0,
        ;
    }
}


/// `amount` scaled by `bps` basis points, rounded down.
pub open spec fn bps_share(amount: int, bps: int) -> int {
    (amount * bps) / 10_000
}

/// Applies a basis-point rate to a positive monetary `amount`.
///
/// `bps` must be in the inclusive range `0..=10_000`. Results are rounded down
/// (towards zero, which is equivalent to floor because valid amounts and basis
/// points are non-negative). The calculation splits the amount into quotient
/// and remainder components so valid values such as
/// `apply_bps(i128::MAX, 10_000)` do not overflow in an intermediate product.
pub fn apply_bps(amount: i128, bps: i128) -> (r: Result<i128, Error>)
    ensures
        (amount <= 0 || bps < 0 || bps > BPS_DENOMINATOR) ==> r == Err::<i128, Error>(
            Error::InvalidAmount,
        ),
        (amount > 0 && 0 <= bps <= BPS_DENOMINATOR) ==> r == Ok::<i128, Error>(
            bps_share(amount as int, bps as int) as i128,
        ),
{
    if amount <= 0 || bps < 0 || bps > BPS_DENOMINATOR {
        return Err(Error::InvalidAmount);
    }
    let q = amount / BPS_DENOMINATOR;
    let rem = amount % BPS_DENOMINATOR;
    proof {
        lemma_bps_split(amount as int, bps as int, q as int, rem as int);
    }
    let whole = match checked_div(amount, BPS_DENOMINATOR) {
        Ok(d) => match checked_mul(d, bps) {
            Ok(w) => w,
            Err(e) => { return Err(e); },
        },
        Err(e) => { return Err(e); },
    };
    let remainder = match checked_mul(rem, bps) {
        Ok(p) => match checked_div(p, BPS_DENOMINATOR) {
            Ok(v) => v,
            Err(e) => { return Err(e); },
        },
        Err(e) => { return Err(e); },
    };
    checked_add(whole, remainder)
}

/// Splitting `amount = 10 000 q + rem` lets the share be computed without an
/// intermediate product larger than `amount`.
proof fn lemma_bps_split(amount: int, bps: int, q: int, rem: int)
    requires
        amount > 0,
        0 <= bps <= 10_000,
        q == amount / 10_000,
        rem == amount % 10_000,
    ensures
        0 <= q,
        0 <= rem < 10_000,
        0 <= q * bps <= amount,
        0 <= rem * bps < 100_000_000,
        bps_share(amount, bps) == q * bps + (rem * bps) / 10_000,
        0 <= bps_share(amount, bps) <= amount,
{
    assert(amount == 10_000 * q + rem && 0 <= rem < 10_000 && 0 <= q) by (nonlinear_arith)
        requires
            amount > 0,
            q == amount / 10_000,
            rem == amount % 10_000,
    ;
    assert(0 <= q * bps <= q * 10_000) by (nonlinear_arith)
        requires
            0 <= q,
            0 <= bps <= 10_000,
    ;
    assert(0 <= rem * bps <= rem * 10_000) by (nonlinear_arith)
        requires
            0 <= rem,
            0 <= bps <= 10_000,
    ;
    assert(amount * bps == (q * bps) * 10_000 + rem * bps) by (nonlinear_arith)
        requires
            amount == 10_000 * q + rem,
    ;
    assert((amount * bps) / 10_000 == q * bps + (rem * bps) / 10_000) by (nonlinear_arith)
        requires
            amount * bps == (q * bps) * 10_000 + rem * bps,
            rem * bps >= 0,
    ;
    assert(0 <= (amount * bps) / 10_000 <= amount) by (nonlinear_arith)
        requires
            amount > 0,
            0 <= bps <= 10_000,
    ;
}

/// The share of `base` at `bps` basis points computed with a full-width
/// product: `None` when `base * bps` leaves the `i128` range.
pub fn bps_of(base: i128, bps: i128) -> (r: Option<i128>)
    ensures
        fits_i128(base * bps) ==> r == Some(div_toward_zero(base * bps, 10_000) as i128),
        !fits_i128(base * bps) ==> r is None,
{
    match base.checked_mul(bps) {
        Some(p) => match checked_div(p, BPS_DENOMINATOR) {
            Ok(v) => Some(v),
            Err(_) => None,
        },
        None => None,
    }
}

/// `a + b`, or `None` when the sum leaves the `i128` range.
pub fn safe_add(a: i128, b: i128) -> (r: Option<i128>)
    ensures
        fits_i128(a + b) ==> r == Some((a + b) as i128),
        !fits_i128(a + b) ==> r is None,
{
    a.checked_add(b)
}

/// `a - b`, or `None` when the difference leaves the `i128` range.
pub fn safe_sub(a: i128, b: i128) -> (r: Option<i128>)
    ensures
        fits_i128(a - b) ==> r == Some((a - b) as i128),
        !fits_i128(a - b) ==> r is None,
{
    a.checked_sub(b)
}


/// A basis-point share is rounded down, lies between zero and the amount,
/// is zero at a zero rate and the whole amount at the full rate, and grows
/// with the rate.
pub proof fn lemma_bps_share_properties(amount: int, bps: int, bps2: int)
    requires
        amount > 0,
        0 <= bps <= bps2 <= 10_000,
    ensures
        0 <= bps_share(amount, bps) <= amount,
        bps_share(amount, bps) * 10_000 <= amount * bps < (bps_share(amount, bps) + 1) * 10_000,
        bps_share(amount, 0) == 0,
        bps_share(amount, 10_000) == amount,
        bps_share(amount, bps) <= bps_share(amount, bps2),
{
    assert(0 <= (amount * bps) / 10_000 <= amount) by (nonlinear_arith)
        requires
            amount > 0,
            0 <= bps <= 10_000,
    ;
    assert(((amount * bps) / 10_000) * 10_000 <= amount * bps < ((amount * bps) / 10_000 + 1) * 10_000)
        by (nonlinear_arith)
        requires
            amount > 0,
            0 <= bps,
    ;
    assert((amount * 0) / 10_000 == 0) by (nonlinear_arith);
    assert((amount * 10_000) / 10_000 == amount) by (nonlinear_arith);
    assert((amount * bps) / 10_000 <= (amount * bps2) / 10_000) by (nonlinear_arith)
        requires
            amount > 0,
            0 <= bps <= bps2,
    ;
}

} // verus!
