//! Exact conservative arithmetic of the engine: ceiling divisions, risk
//! notional, loss weights, equity and bit counting.
use vstd::prelude::*;
use vstd::arithmetic::div_mod::{
    lemma_fundamental_div_mod, lemma_fundamental_div_mod_converse_div, lemma_mod_pos_bound,
};
use crate::v13::types::{PortfolioAccountV13, V13Error, V13Result};
use crate::{MAX_POSITION_ABS_Q, POS_SCALE, SOCIAL_WEIGHT_SCALE};

verus! {

/// `ceil(n / d)` for `d > 0`, `n >= 0`.
pub open spec fn ceil_div(n: int, d: int) -> int {
    (n + d - 1) / d
}

/// The absolute value of an integer.
pub open spec fn abs_int(v: int) -> int {
    if v < 0 {
        -v
    } else {
        v
    }
}

/// `ceil(abs_pos_q * price / POS_SCALE)`: the conservative notional of a position.
pub open spec fn risk_notional_value(abs_pos_q: int, price: int) -> int {
    ceil_div(abs_pos_q * price, POS_SCALE as int)
}

/// `ceil(abs_basis_q * SOCIAL_WEIGHT_SCALE / a_basis)`: the social-loss weight of a leg.
pub open spec fn loss_weight_value(abs_basis_q: int, a_basis: int) -> int {
    ceil_div(abs_basis_q * SOCIAL_WEIGHT_SCALE, a_basis)
}

/// An integer value returned when it fits `u128`, else an overflow error.
pub open spec fn fit_u128(v: int) -> V13Result<u128> {
    if 0 <= v <= u128::MAX {
        Ok(v as u128)
    } else {
        Err(V13Error::ArithmeticOverflow)
    }
}

/// Bit `i` of `x`.
pub open spec fn bit_at(x: u32, i: int) -> bool {
    (x >> (i as u32)) & 1u32 == 1u32
}

/// Number of set bits of `x` among bits `0..k`.
pub open spec fn popcount_below(x: u32, k: nat) -> nat
    decreases k,
{
    if k == 0 {
        0
    } else {
        popcount_below(x, (k - 1) as nat) + if bit_at(x, k - 1) {
            1nat
        } else {
            0nat
        }
    }
}

/// Number of set bits of `x`.
pub open spec fn popcount(x: u32) -> nat {
    popcount_below(x, 32)
}

/// `(m * s + x) / s == m + x / s` for `s > 0`, `x >= 0`.
proof fn lemma_div_shift(m: int, x: int, s: int)
    requires
        s > 0,
        x >= 0,
    ensures
        (m * s + x) / s == m + x / s,
{
    lemma_fundamental_div_mod(x, s);
    lemma_mod_pos_bound(x, s);
    let q = x / s;
    let r = x % s;
    assert(m * s + x == (m + q) * s + r) by (nonlinear_arith)
        requires
            x == s * q + r,
    ;
    lemma_fundamental_div_mod_converse_div(m * s + x, s, m + q, r);
}

/// Splitting the dividend `n = q * s + r` of a ceiling division by `s`
/// after scaling by `p`.
proof fn lemma_ceil_split(n: int, q: int, r: int, s: int, p: int)
    requires
        s > 0,
        p >= 0,
        0 <= r,
        n == q * s + r,
    ensures
        ceil_div(n * p, s) == q * p + ceil_div(r * p, s),
        ceil_div(r * p, s) >= 0,
{
    assert(n * p + s - 1 == (q * p) * s + (r * p + s - 1)) by (nonlinear_arith)
        requires
            n == q * s + r,
    ;
    assert(r * p >= 0) by (nonlinear_arith)
        requires
            r >= 0,
            p >= 0,
    ;
    lemma_div_shift(q * p, r * p + s - 1, s);
    assert((r * p + s - 1) / s >= 0) by (nonlinear_arith)
        requires
            r * p + s - 1 >= 0,
            s > 0,
    ;
}

/// The conservative (ceiling) notional of `abs_pos_q` at `price`.
pub fn risk_notional_ceil(abs_pos_q: u128, price: u64) -> (r: V13Result<u128>)
    ensures
        r == fit_u128(risk_notional_value(abs_pos_q as int, price as int)),
{
    if abs_pos_q == 0 {
        assert(risk_notional_value(0, price as int) == 0) by (nonlinear_arith);
        return Ok(0);
    }
    let p = price as u128;
    let q = abs_pos_q / POS_SCALE;
    let rem = abs_pos_q % POS_SCALE;
    proof {
        lemma_fundamental_div_mod(abs_pos_q as int, POS_SCALE as int);
        lemma_ceil_split(abs_pos_q as int, q as int, rem as int, POS_SCALE as int, p as int);
        assert(rem * p < 1_000_000 * 0x1_0000_0000_0000_0000) by (nonlinear_arith)
            requires
                rem < 1_000_000,
                p < 0x1_0000_0000_0000_0000,
        ;
    }
    let lo = (rem * p + (POS_SCALE - 1)) / POS_SCALE;
    match q.checked_mul(p) {
        None => {
            proof {
                assert(q * p >= 0) by (nonlinear_arith)
                    requires
                        q >= 0,
                        p >= 0,
                ;
            }
            Err(V13Error::ArithmeticOverflow)
        },
        Some(hi) => match hi.checked_add(lo) {
            None => Err(V13Error::ArithmeticOverflow),
            Some(v) => Ok(v),
        },
    }
}

/// A quotient by `d` of a value at most `r * m`, `r < d`, is at most `m`.
proof fn lemma_quotient_bound(q: int, d: int, x: int, r: int, m: int)
    requires
        q * d <= x,
        x <= r * m,
        0 <= r < d,
        q >= 0,
        m >= 0,
    ensures
        q <= m,
{
    assert(r * m <= d * m) by (nonlinear_arith)
        requires
            0 <= r < d,
            m >= 0,
    ;
    assert(q <= m) by (nonlinear_arith)
        requires
            q * d <= d * m,
            d > 0,
    ;
}

/// `r * m` divided by `d`, as `(quotient, remainder)`, for `r < d` and a small
/// multiplier `m`: the product is formed by doubling and adding, every partial
/// value held as a quotient and a remainder by `d`, so no intermediate
/// exceeds `u128` whatever `d` is.
fn mul_small_div_mod(r: u128, m: u128, d: u128) -> (res: (u128, u128))
    requires
        r < d,
        m <= 0x10_0000,
    ensures
        res.0 * d + res.1 == r * m,
        res.1 < d,
        res.0 <= m,
{
    let mut aq: u128 = 0;
    let mut ar: u128 = 0;
    let mut bq: u128 = 0;
    let mut br: u128 = r;
    let mut k: u128 = m;
    proof {
        assert((0 * d + r) * m == r * m) by (nonlinear_arith);
    }
    while k > 0
        invariant
            r < d,
            m <= 0x10_0000,
            ar < d,
            br < d,
            aq <= m,
            k > 0 ==> bq <= m,
            (aq * d + ar) + (bq * d + br) * k == r * m,
        decreases k,
    {
        let ghost a_val: int = aq * d + ar;
        let ghost b_val: int = bq * d + br;
        let ghost k0: int = k as int;
        proof {
            assert(r * m < d * m || m == 0) by (nonlinear_arith)
                requires
                    r < d,
            ;
            assert(b_val * k0 >= b_val) by (nonlinear_arith)
                requires
                    k0 >= 1,
                    b_val >= 0,
            ;
            assert(aq * d + ar >= 0 && bq * d + br >= 0) by (nonlinear_arith)
                requires
                    aq >= 0,
                    ar >= 0,
                    bq >= 0,
                    br >= 0,
                    d > 0,
            ;
            assert(a_val + b_val <= r * m);
            assert(aq + bq <= m) by (nonlinear_arith)
                requires
                    (aq * d + ar) + (bq * d + br) <= r * m,
                    r < d,
                    ar >= 0,
                    br >= 0,
                    aq >= 0,
                    bq >= 0,
            ;
        }
        let ghost aq0: int = aq as int;
        let ghost ar0: int = ar as int;
        let ghost bq0: int = bq as int;
        let ghost br0: int = br as int;
        if k % 2 == 1 {
            if ar >= d - br {
                aq = aq + bq + 1;
                ar = ar - (d - br);
            } else {
                aq = aq + bq;
                ar = ar + br;
            }
            proof {
                assert(aq * d + ar == a_val + b_val) by (nonlinear_arith)
                    requires
                        (aq == aq0 + bq0 + 1 && ar == ar0 + br0 - d) || (aq == aq0 + bq0 && ar
                            == ar0 + br0),
                        a_val == aq0 * d + ar0,
                        b_val == bq0 * d + br0,
                ;
            }
        }
        let ghost a_mid: int = aq * d + ar;
        k = k / 2;
        proof {
            assert(a_mid + b_val * (2 * k) == r * m) by (nonlinear_arith)
                requires
                    a_val + b_val * k0 == r * m,
                    k0 % 2 == 1 ==> a_mid == a_val + b_val && k0 == 2 * k + 1,
                    k0 % 2 == 0 ==> a_mid == a_val && k0 == 2 * k,
            ;
        }
        if k > 0 {
            if br >= d - br {
                bq = 2 * bq + 1;
                br = br - (d - br);
            } else {
                bq = 2 * bq;
                br = br + br;
            }
            proof {
                assert(bq * d + br == 2 * b_val) by (nonlinear_arith)
                    requires
                        (bq == 2 * bq0 + 1 && br == 2 * br0 - d) || (bq == 2 * bq0 && br == 2
                            * br0),
                        b_val == bq0 * d + br0,
                ;
            }
        }
        proof {
            if k > 0 {
                assert((aq * d + ar) + (bq * d + br) * k == r * m) by (nonlinear_arith)
                    requires
                        aq * d + ar == a_mid,
                        bq * d + br == 2 * b_val,
                        a_mid + b_val * (2 * k) == r * m,
                ;
            } else {
                assert((bq * d + br) * k == 0) by (nonlinear_arith)
                    requires
                        k == 0,
                ;
            }
            let a_new: int = aq * d + ar;
            let b_new: int = bq * d + br;
            assert(b_new >= 0 && b_new * k >= 0) by (nonlinear_arith)
                requires
                    bq >= 0,
                    br >= 0,
                    d > 0,
                    b_new == bq * d + br,
                    k >= 0,
            ;
            lemma_quotient_bound(aq as int, d as int, a_new, r as int, m as int);
            if k > 0 {
                assert(b_new <= b_new * k) by (nonlinear_arith)
                    requires
                        k >= 1,
                        b_new >= 0,
                ;
                lemma_quotient_bound(bq as int, d as int, b_new, r as int, m as int);
            }
        }
    }
    (aq, ar)
}

/// The social-loss weight `ceil(abs_basis_q * SOCIAL_WEIGHT_SCALE / a_basis)`;
/// a zero `a_basis` is an invalid leg.
pub(crate) fn loss_weight_for_basis(abs_basis_q: u128, a_basis: u128) -> (r: V13Result<u128>)
    ensures
        r == (if a_basis == 0 {
            Err(V13Error::InvalidLeg)
        } else {
            fit_u128(loss_weight_value(abs_basis_q as int, a_basis as int))
        }),
{
    if a_basis == 0 {
        return Err(V13Error::InvalidLeg);
    }
    let q = abs_basis_q / a_basis;
    let rem = abs_basis_q % a_basis;
    proof {
        lemma_fundamental_div_mod(abs_basis_q as int, a_basis as int);
        assert(abs_basis_q == q * a_basis + rem) by (nonlinear_arith)
            requires
                abs_basis_q == a_basis * q + rem,
        ;
        lemma_ceil_split(
            abs_basis_q as int,
            q as int,
            rem as int,
            a_basis as int,
            SOCIAL_WEIGHT_SCALE as int,
        );
    }
    let (lq, lr) = mul_small_div_mod(rem, SOCIAL_WEIGHT_SCALE, a_basis);
    let lo: u128 = if lr > 0 {
        lq + 1
    } else {
        lq
    };
    proof {
        lemma_div_shift(lq as int, lr + a_basis - 1, a_basis as int);
        assert(rem * SOCIAL_WEIGHT_SCALE + a_basis - 1 == lq * a_basis + (lr + a_basis - 1));
        if lr > 0 {
            vstd::arithmetic::div_mod::lemma_fundamental_div_mod_converse_div(
                lr + a_basis - 1,
                a_basis as int,
                1,
                lr - 1,
            );
        } else {
            vstd::arithmetic::div_mod::lemma_fundamental_div_mod_converse_div(
                lr + a_basis - 1,
                a_basis as int,
                0,
                a_basis - 1,
            );
        }
        assert(lo == ceil_div(rem * SOCIAL_WEIGHT_SCALE, a_basis as int));
    }
    match q.checked_mul(SOCIAL_WEIGHT_SCALE) {
        None => {
            proof {
                assert(q * SOCIAL_WEIGHT_SCALE >= 0) by (nonlinear_arith)
                    requires
                        q >= 0,
                ;
            }
            Err(V13Error::ArithmeticOverflow)
        },
        Some(hi) => match hi.checked_add(lo) {
            None => Err(V13Error::ArithmeticOverflow),
            Some(v) => Ok(v),
        },
    }
}

/// `|v|` as a `u128`, defined for every `i128` including `i128::MIN`.
pub(crate) fn unsigned_abs_i128(v: i128) -> (r: u128)
    ensures
        r == abs_int(v as int),
{
    if v >= 0 {
        v as u128
    } else if v == i128::MIN {
        0x8000_0000_0000_0000_0000_0000_0000_0000u128
    } else {
        (-v) as u128
    }
}

/// `i128::MIN` is rejected wherever a signed balance is persisted.
pub open spec fn non_min_result(v: i128) -> V13Result<()> {
    if v == i128::MIN {
        Err(V13Error::ArithmeticOverflow)
    } else {
        Ok(())
    }
}

pub(crate) fn validate_non_min_i128(v: i128) -> (r: V13Result<()>)
    ensures
        r == non_min_result(v),
{
    if v == i128::MIN {
        return Err(V13Error::ArithmeticOverflow);
    }
    Ok(())
}

/// Fee credits are a debt: never positive, never `i128::MIN`.
pub open spec fn fee_credits_result(v: i128) -> V13Result<()> {
    if v == i128::MIN {
        Err(V13Error::ArithmeticOverflow)
    } else if v > 0 {
        Err(V13Error::InvalidLeg)
    } else {
        Ok(())
    }
}

pub(crate) fn validate_fee_credits(v: i128) -> (r: V13Result<()>)
    ensures
        r == fee_credits_result(v),
{
    validate_non_min_i128(v)?;
    if v > 0 {
        return Err(V13Error::InvalidLeg);
    }
    Ok(())
}

/// The fee debt `|fee_credits|` of a valid account.
pub(crate) fn fee_debt_u128(account: &PortfolioAccountV13) -> (r: V13Result<u128>)
    ensures
        r == (match fee_credits_result(account.fee_credits) {
            Err(e) => Err(e),
            Ok(_) => Ok((-account.fee_credits) as u128),
        }),
{
    validate_fee_credits(account.fee_credits)?;
    Ok(unsigned_abs_i128(account.fee_credits))
}

/// A position basis is nonzero, not `i128::MIN`, and within the position cap.
pub open spec fn basis_ok(b: i128) -> bool {
    b != 0 && b != i128::MIN && abs_int(b as int) <= MAX_POSITION_ABS_Q
}

pub(crate) fn validate_basis(basis_pos_q: i128) -> (r: V13Result<()>)
    ensures
        r == (if basis_ok(basis_pos_q) {
            Ok(())
        } else {
            Err(V13Error::InvalidLeg)
        }),
{
    if basis_pos_q == 0 || basis_pos_q == i128::MIN || unsigned_abs_i128(basis_pos_q)
        > MAX_POSITION_ABS_Q {
        return Err(V13Error::InvalidLeg);
    }
    Ok(())
}

/// Account equity `capital + pnl - fee_debt`; every representability failure
/// is reported, in the order the checks are made.
pub open spec fn equity_result(a: PortfolioAccountV13) -> V13Result<i128> {
    if a.pnl == i128::MIN {
        Err(V13Error::ArithmeticOverflow)
    } else if a.fee_credits == i128::MIN {
        Err(V13Error::ArithmeticOverflow)
    } else if a.fee_credits > 0 {
        Err(V13Error::InvalidLeg)
    } else if a.capital > i128::MAX || a.capital + a.pnl > i128::MAX || a.capital + a.pnl
        + a.fee_credits < i128::MIN {
        Err(V13Error::ArithmeticOverflow)
    } else {
        Ok((a.capital + a.pnl + a.fee_credits) as i128)
    }
}

/// Equity of an account: `capital + pnl - fee_debt`.
pub fn account_equity(account: &PortfolioAccountV13) -> (r: V13Result<i128>)
    ensures
        r == equity_result(*account),
{
    validate_non_min_i128(account.pnl)?;
    validate_fee_credits(account.fee_credits)?;
    if account.capital > i128::MAX as u128 {
        return Err(V13Error::ArithmeticOverflow);
    }
    let capital = account.capital as i128;
    let fee_debt_u = fee_debt_u128(account)?;
    let fee_debt = fee_debt_u as i128;
    match capital.checked_add(account.pnl) {
        None => Err(V13Error::ArithmeticOverflow),
        Some(v) => match v.checked_sub(fee_debt) {
            None => Err(V13Error::ArithmeticOverflow),
            Some(e) => Ok(e),
        },
    }
}

/// Counts the set bits of `x`.
pub(crate) fn count_ones_u32(x: u32) -> (c: u32)
    ensures
        c == popcount(x),
{
    let mut c: u32 = 0;
    let mut i: u32 = 0;
    while i < 32
        invariant
            i <= 32,
            c <= i,
            c == popcount_below(x, i as nat),
        decreases 32 - i,
    {
        if (x >> i) & 1u32 == 1u32 {
            c = c + 1;
        }
        i = i + 1;
    }
    c
}

} // verus!
