//! H-lock lane selection, full account refresh into a health certificate, the
//! favorable-action gate, and liquidation risk scores.
use vstd::prelude::*;
use crate::v13::account_shape::{provenance_ok, shape_result};
use crate::v13::arith::{
    abs_int, account_equity, count_ones_u32, equity_result, popcount, risk_notional_ceil,
    risk_notional_value, unsigned_abs_i128,
};
use crate::v13::lifecycle::{has_b_stale_leg, has_b_stale_leg_spec, has_stale_leg, has_stale_leg_spec};
use crate::v13::types::{
    score_lt, HLockLaneV13, HealthCertV13, MarketGroupV13, PortfolioAccountV13, RiskScoreV13,
    V13Error, V13Result, V13_MAX_PORTFOLIO_ASSETS_N,
};
use crate::MAX_ORACLE_PRICE;

verus! {

/// A market-wide condition (or the instruction itself) forces the h-max lane.
pub open spec fn market_lock_active(g: MarketGroupV13, bankruptcy_candidate: bool) -> bool {
    ||| g.threshold_stress_active
    ||| g.bankruptcy_hlock_active
    ||| bankruptcy_candidate
    ||| g.loss_stale_active
    ||| g.active_bankrupt_close_present
}

/// The h-lock lane, derived from committed market and account state only.
pub open spec fn lane_result(
    g: MarketGroupV13,
    account: Option<&PortfolioAccountV13>,
    bankruptcy_candidate: bool,
) -> V13Result<HLockLaneV13> {
    if account matches Some(a) && !provenance_ok(g, *a) {
        Err(V13Error::ProvenanceMismatch)
    } else if account matches Some(a) && (a.stale_state || a.b_stale_state) {
        Ok(HLockLaneV13::HMax)
    } else if market_lock_active(g, bankruptcy_candidate) {
        Ok(HLockLaneV13::HMax)
    } else {
        Ok(HLockLaneV13::HMin)
    }
}

/// The horizon of a lane.
pub open spec fn lane_horizon(g: MarketGroupV13, lane: HLockLaneV13) -> u64 {
    match lane {
        HLockLaneV13::HMin => g.config.h_min,
        HLockLaneV13::HMax => g.config.h_max,
    }
}

/// Sum of the risk notionals of the active legs among `i..n`, starting from
/// `acc`, or the error of the first leg whose price or notional is refused.
pub open spec fn refresh_sum(n: int, a: PortfolioAccountV13, prices: [u64; 16], i: int, acc: int) -> V13Result<int>
    decreases n - i,
{
    if i >= n {
        Ok(acc)
    } else if !a.legs[i].active {
        refresh_sum(n, a, prices, i + 1, acc)
    } else if prices[i] == 0 || prices[i] > MAX_ORACLE_PRICE {
        Err(V13Error::InvalidConfig)
    } else {
        let rn = risk_notional_value(abs_int(a.legs[i].basis_pos_q as int), prices[i] as int);
        if rn > u128::MAX || acc + rn > u128::MAX {
            Err(V13Error::ArithmeticOverflow)
        } else {
            refresh_sum(n, a, prices, i + 1, acc + rn)
        }
    }
}

/// Liquidation deficit: the whole negative equity, else the shortfall of
/// equity below the maintenance requirement.
pub open spec fn liq_deficit(equity: int, maintenance: int) -> int {
    if equity < 0 {
        -equity
    } else if maintenance > equity {
        maintenance - equity
    } else {
        0
    }
}

/// The certificate a full refresh issues for `total` risk notional and `equity`.
pub open spec fn issued_cert(g: MarketGroupV13, a: PortfolioAccountV13, total: int, equity: i128) -> HealthCertV13 {
    HealthCertV13 {
        certified_equity: equity,
        certified_initial_req: total as u128,
        certified_maintenance_req: total as u128,
        certified_liq_deficit: liq_deficit(equity as int, total) as u128,
        certified_worst_case_loss: total as u128,
        cert_oracle_epoch: g.oracle_epoch,
        cert_funding_epoch: g.funding_epoch,
        cert_risk_epoch: g.risk_epoch,
        active_bitmap_at_cert: a.active_bitmap,
        valid: true,
    }
}

/// What a full refresh certifies, or why it is refused.
pub open spec fn refresh_result(g: MarketGroupV13, a: PortfolioAccountV13, prices: [u64; 16]) -> V13Result<HealthCertV13> {
    if shape_result(g, a) is Err {
        Err(shape_result(g, a)->Err_0)
    } else if a.b_stale_state {
        Err(V13Error::BStale)
    } else if a.stale_state {
        Err(V13Error::Stale)
    } else {
        match refresh_sum(g.config.max_portfolio_assets as int, a, prices, 0, 0) {
            Err(e) => Err(e),
            Ok(total) => match equity_result(a) {
                Err(e) => Err(e),
                Ok(equity) => if has_b_stale_leg_spec(a) {
                    Err(V13Error::BStale)
                } else if has_stale_leg_spec(a) {
                    Err(V13Error::Stale)
                } else {
                    Ok(issued_cert(g, a, total, equity))
                },
            },
        }
    }
}

/// The account's certificate was issued at the market's current epochs for
/// its current active bitmap.
pub open spec fn cert_current(g: MarketGroupV13, a: PortfolioAccountV13) -> bool {
    &&& a.health_cert.valid
    &&& a.health_cert.cert_oracle_epoch == g.oracle_epoch
    &&& a.health_cert.cert_funding_epoch == g.funding_epoch
    &&& a.health_cert.cert_risk_epoch == g.risk_epoch
    &&& a.health_cert.active_bitmap_at_cert == a.active_bitmap
}

/// The favorable-action gate: a well-shaped account in the h-min lane, with
/// no stale or B-stale leg and a current certificate.
pub open spec fn favorable_result(g: MarketGroupV13, a: PortfolioAccountV13) -> V13Result<()> {
    if shape_result(g, a) is Err {
        shape_result(g, a)
    } else if a.stale_state || a.b_stale_state || market_lock_active(g, false) {
        Err(V13Error::LockActive)
    } else if !cert_current(g, a) {
        Err(V13Error::Stale)
    } else if has_b_stale_leg_spec(a) {
        Err(V13Error::BStale)
    } else if has_stale_leg_spec(a) {
        Err(V13Error::Stale)
    } else {
        Ok(())
    }
}

/// Sum of the loss weights of the active B-stale legs among slots `0..k`.
pub open spec fn b_loss_below(a: PortfolioAccountV13, k: int) -> int
    decreases k,
{
    if k <= 0 {
        0
    } else {
        b_loss_below(a, k - 1) + if a.legs[k - 1].active && a.legs[k - 1].b_stale {
            a.legs[k - 1].loss_weight as int
        } else {
            0
        }
    }
}

/// Bound on the account's unsettled B loss.
pub open spec fn b_loss_bound(a: PortfolioAccountV13) -> int {
    b_loss_below(a, V13_MAX_PORTFOLIO_ASSETS_N as int)
}

/// The risk score of a well-shaped, certified account.
pub open spec fn score_result(g: MarketGroupV13, a: PortfolioAccountV13) -> V13Result<RiskScoreV13> {
    if shape_result(g, a) is Err {
        Err(shape_result(g, a)->Err_0)
    } else if !a.health_cert.valid {
        Err(V13Error::Stale)
    } else if b_loss_bound(a) > u128::MAX {
        Err(V13Error::ArithmeticOverflow)
    } else {
        Ok(RiskScoreV13 {
            certified_liq_deficit: a.health_cert.certified_liq_deficit,
            unsettled_b_loss_bound: b_loss_bound(a) as u128,
            stale_loss_bound: if a.stale_state { 1 } else { 0 },
            gross_risk_notional: a.health_cert.certified_worst_case_loss,
            active_leg_count: popcount(a.active_bitmap) as u32,
        })
    }
}

/// Liquidation progress: both scores exist and the later one is strictly
/// smaller, or its deficit is.
pub open spec fn progress_result(g: MarketGroupV13, before: PortfolioAccountV13, after: PortfolioAccountV13) -> V13Result<()> {
    match score_result(g, before) {
        Err(e) => Err(e),
        Ok(b) => match score_result(g, after) {
            Err(e) => Err(e),
            Ok(s) => if score_lt(s, b) || s.certified_liq_deficit < b.certified_liq_deficit {
                Ok(())
            } else {
                Err(V13Error::NonProgress)
            },
        },
    }
}

proof fn lemma_b_loss_monotone(a: PortfolioAccountV13, i: int, j: int)
    requires
        0 <= i <= j,
    ensures
        b_loss_below(a, i) <= b_loss_below(a, j),
    decreases j - i,
{
    if i < j {
        lemma_b_loss_monotone(a, i, j - 1);
    }
}

/// The unsettled B-loss bound of an account.
pub(crate) fn account_b_loss_bound(account: &PortfolioAccountV13) -> (r: V13Result<u128>)
    ensures
        r == (if b_loss_bound(*account) > u128::MAX {
            Err(V13Error::ArithmeticOverflow)
        } else {
            Ok(b_loss_bound(*account) as u128)
        }),
{
    let mut bound: u128 = 0;
    let mut i: usize = 0;
    while i < V13_MAX_PORTFOLIO_ASSETS_N
        invariant
            i <= V13_MAX_PORTFOLIO_ASSETS_N,
            bound == b_loss_below(*account, i as int),
        decreases V13_MAX_PORTFOLIO_ASSETS_N - i,
    {
        let leg = account.legs[i];
        if leg.active && leg.b_stale {
            match bound.checked_add(leg.loss_weight) {
                None => {
                    proof {
                        lemma_b_loss_monotone(*account, i as int + 1, V13_MAX_PORTFOLIO_ASSETS_N as int);
                    }
                    return Err(V13Error::ArithmeticOverflow);
                },
                Some(v) => bound = v,
            }
        }
        i = i + 1;
    }
    Ok(bound)
}

impl MarketGroupV13 {
    /// The h-lock lane from committed state: h-max for a stale or B-stale
    /// account or any market-wide lock condition, h-min otherwise.
    pub fn h_lock_lane(&self, account: Option<&PortfolioAccountV13>, instruction_bankruptcy_candidate: bool) -> (r: V13Result<HLockLaneV13>)
        ensures
            r == lane_result(*self, account, instruction_bankruptcy_candidate),
    {
        if let Some(account) = account {
            self.validate_portfolio_account_provenance(account)?;
            if account.stale_state || account.b_stale_state {
                return Ok(HLockLaneV13::HMax);
            }
        }
        if self.threshold_stress_active || self.bankruptcy_hlock_active
            || instruction_bankruptcy_candidate || self.loss_stale_active
            || self.active_bankrupt_close_present {
            return Ok(HLockLaneV13::HMax);
        }
        Ok(HLockLaneV13::HMin)
    }

    /// The h-lock horizon of the selected lane.
    pub fn select_h_lock(&self, account: Option<&PortfolioAccountV13>, instruction_bankruptcy_candidate: bool) -> (r: V13Result<u64>)
        ensures
            r == (match lane_result(*self, account, instruction_bankruptcy_candidate) {
                Err(e) => Err(e),
                Ok(lane) => Ok(lane_horizon(*self, lane)),
            }),
    {
        match self.h_lock_lane(account, instruction_bankruptcy_candidate)? {
            HLockLaneV13::HMin => Ok(self.config.h_min),
            HLockLaneV13::HMax => Ok(self.config.h_max),
        }
    }

    /// Refreshes every active leg of a fresh account (no stale or B-stale
    /// account flag or leg) at the given effective prices and stores the
    /// resulting certificate.
    pub fn full_account_refresh(&mut self, account: &mut PortfolioAccountV13, effective_prices: &[u64; 16]) -> (r: V13Result<HealthCertV13>)
        requires
            old(self).config.max_portfolio_assets <= V13_MAX_PORTFOLIO_ASSETS_N
                || shape_result(*old(self), *old(account)) is Err || old(account).stale_state
                || old(account).b_stale_state || refresh_sum(
                V13_MAX_PORTFOLIO_ASSETS_N as int,
                *old(account),
                *effective_prices,
                0,
                0,
            ) is Err,
        ensures
            r == refresh_result(*old(self), *old(account), *effective_prices),
            *final(self) == *old(self),
            *final(account) == (match r {
                Ok(cert) => PortfolioAccountV13 { health_cert: cert, ..*old(account) },
                Err(_) => *old(account),
            }),
    {
        self.validate_account_shape(account)?;
        if account.stale_state || account.b_stale_state {
            return Err(
                if account.b_stale_state {
                    V13Error::BStale
                } else {
                    V13Error::Stale
                },
            );
        }
        let n = self.config.max_portfolio_assets as usize;
        let mut total: u128 = 0;
        let mut i: usize = 0;
        while i < n
            invariant
                n == self.config.max_portfolio_assets,
                n <= V13_MAX_PORTFOLIO_ASSETS_N || refresh_sum(16, *account, *effective_prices, 0, 0) is Err,
                n > V13_MAX_PORTFOLIO_ASSETS_N ==> i <= V13_MAX_PORTFOLIO_ASSETS_N
                    && refresh_sum(16, *account, *effective_prices, 0, 0) == refresh_sum(
                    16,
                    *account,
                    *effective_prices,
                    i as int,
                    total as int,
                ),
                i <= n,
                *self == *old(self),
                *account == *old(account),
                shape_result(*self, *account) is Ok,
                !account.stale_state,
                !account.b_stale_state,
                refresh_sum(n as int, *account, *effective_prices, 0, 0) == refresh_sum(
                    n as int,
                    *account,
                    *effective_prices,
                    i as int,
                    total as int,
                ),
            decreases n - i,
        {
            assert(i < V13_MAX_PORTFOLIO_ASSETS_N);
            if account.legs[i].active {
                let price = effective_prices[i];
                if price == 0 || price > MAX_ORACLE_PRICE {
                    return Err(V13Error::InvalidConfig);
                }
                let risk_notional = risk_notional_ceil(unsigned_abs_i128(account.legs[i].basis_pos_q), price)?;
                match total.checked_add(risk_notional) {
                    None => return Err(V13Error::ArithmeticOverflow),
                    Some(v) => total = v,
                }
            }
            i = i + 1;
        }
        let equity = account_equity(account)?;
        if has_b_stale_leg(account) {
            return Err(V13Error::BStale);
        }
        if has_stale_leg(account) {
            return Err(V13Error::Stale);
        }
        let certified_liq_deficit = if equity < 0 {
            unsigned_abs_i128(equity)
        } else {
            total.saturating_sub(equity as u128)
        };
        let cert = HealthCertV13 {
            certified_equity: equity,
            certified_initial_req: total,
            certified_maintenance_req: total,
            certified_liq_deficit,
            certified_worst_case_loss: total,
            cert_oracle_epoch: self.oracle_epoch,
            cert_funding_epoch: self.funding_epoch,
            cert_risk_epoch: self.risk_epoch,
            active_bitmap_at_cert: account.active_bitmap,
            valid: true,
        };
        account.health_cert = cert;
        Ok(cert)
    }

    /// Admits a user-favorable action only for a well-shaped account in the
    /// h-min lane with no stale or B-stale leg whose certificate is current.
    pub fn ensure_favorable_action_allowed(&self, account: &PortfolioAccountV13) -> (r: V13Result<()>)
        ensures
            r == favorable_result(*self, *account),
    {
        self.validate_account_shape(account)?;
        if self.h_lock_lane(Some(account), false)? == HLockLaneV13::HMax {
            return Err(V13Error::LockActive);
        }
        if !account.health_cert.valid || account.health_cert.cert_oracle_epoch != self.oracle_epoch
            || account.health_cert.cert_funding_epoch != self.funding_epoch
            || account.health_cert.cert_risk_epoch != self.risk_epoch
            || account.health_cert.active_bitmap_at_cert != account.active_bitmap {
            return Err(V13Error::Stale);
        }
        if has_b_stale_leg(account) {
            return Err(V13Error::BStale);
        }
        if has_stale_leg(account) {
            return Err(V13Error::Stale);
        }
        Ok(())
    }

    /// The liquidation risk score of a well-shaped, certified account.
    pub fn risk_score(&self, account: &PortfolioAccountV13) -> (r: V13Result<RiskScoreV13>)
        ensures
            r == score_result(*self, *account),
    {
        self.validate_account_shape(account)?;
        if !account.health_cert.valid {
            return Err(V13Error::Stale);
        }
        let unsettled = account_b_loss_bound(account)?;
        Ok(RiskScoreV13 {
            certified_liq_deficit: account.health_cert.certified_liq_deficit,
            unsettled_b_loss_bound: unsettled,
            stale_loss_bound: if account.stale_state { 1 } else { 0 },
            gross_risk_notional: account.health_cert.certified_worst_case_loss,
            active_leg_count: count_ones_u32(account.active_bitmap),
        })
    }

    /// Accepts a liquidation step only if it strictly reduces the risk score
    /// or the certified deficit.
    pub fn validate_liquidation_progress(&self, before: &PortfolioAccountV13, after: &PortfolioAccountV13) -> (r: V13Result<()>)
        ensures
            r == progress_result(*self, *before, *after),
    {
        let before_score = self.risk_score(before)?;
        let after_score = self.risk_score(after)?;
        if after_score.strictly_reduces_from(before_score)
            || after_score.certified_liq_deficit < before_score.certified_liq_deficit {
            Ok(())
        } else {
            Err(V13Error::NonProgress)
        }
    }
}

} // verus!
