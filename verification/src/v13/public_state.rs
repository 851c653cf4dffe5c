//! Market-wide public invariants and the permissionless recovery declaration.
use vstd::prelude::*;
use crate::v13::types::{
    AssetStateV13, MarketGroupV13, PermissionlessProgressOutcomeV13,
    PermissionlessRecoveryReasonV13, V13Error, V13Result, V13_MAX_PORTFOLIO_ASSETS_N,
};
use crate::{MAX_OI_SIDE_Q, MAX_ORACLE_PRICE, MAX_VAULT_TVL, SOCIAL_LOSS_DEN};

verus! {

/// A price is nonzero and at most the oracle cap.
pub open spec fn price_ok(p: u64) -> bool {
    0 < p <= MAX_ORACLE_PRICE
}

/// The public per-asset bounds: prices in range, open interest capped, loss
/// weights within the social-loss denominator and remainders below it.
pub open spec fn asset_ok(s: AssetStateV13) -> bool {
    &&& price_ok(s.effective_price)
    &&& price_ok(s.raw_oracle_target_price)
    &&& price_ok(s.fund_px_last)
    &&& s.oi_eff_long_q <= MAX_OI_SIDE_Q
    &&& s.oi_eff_short_q <= MAX_OI_SIDE_Q
    &&& s.loss_weight_sum_long <= SOCIAL_LOSS_DEN
    &&& s.loss_weight_sum_short <= SOCIAL_LOSS_DEN
    &&& s.social_loss_remainder_long_num < SOCIAL_LOSS_DEN
    &&& s.social_loss_remainder_short_num < SOCIAL_LOSS_DEN
    &&& s.social_loss_dust_long_num < SOCIAL_LOSS_DEN
    &&& s.social_loss_dust_short_num < SOCIAL_LOSS_DEN
}

/// The market-wide balance and clock bounds: the vault is capped and covers
/// capital and insurance together, matured PnL is part of positive PnL and
/// the last slot is not in the future.
pub open spec fn balances_ok(g: MarketGroupV13) -> bool {
    &&& g.vault <= MAX_VAULT_TVL
    &&& g.c_tot + g.insurance <= g.vault
    &&& g.pnl_matured_pos_tot <= g.pnl_pos_tot
    &&& g.slot_last <= g.current_slot
}

/// The public invariants over the first `n` configured assets.
pub open spec fn public_invariants_hold(g: MarketGroupV13) -> bool {
    &&& balances_ok(g)
    &&& forall|i: int| 0 <= i < g.config.max_portfolio_assets ==> asset_ok(#[trigger] g.assets[i])
}

/// What the invariant check reports: the one overflow it can meet is the sum
/// of capital and insurance, every other violation is a configuration error.
pub open spec fn invariants_result(g: MarketGroupV13) -> V13Result<()> {
    if g.vault > MAX_VAULT_TVL {
        Err(V13Error::InvalidConfig)
    } else if g.c_tot + g.insurance > u128::MAX {
        Err(V13Error::ArithmeticOverflow)
    } else if public_invariants_hold(g) {
        Ok(())
    } else {
        Err(V13Error::InvalidConfig)
    }
}

/// Declaring recovery records the reason when the configuration allows it.
pub open spec fn recovery_post(g: MarketGroupV13, reason: PermissionlessRecoveryReasonV13) -> (V13Result<PermissionlessProgressOutcomeV13>, MarketGroupV13) {
    if !g.config.permissionless_recovery_enabled {
        (Err(V13Error::InvalidConfig), g)
    } else {
        (Ok(PermissionlessProgressOutcomeV13::RecoveryDeclared(reason)), MarketGroupV13 { recovery_reason: Some(reason), ..g })
    }
}

impl MarketGroupV13 {
    /// Records a deterministic recovery reason; the caller supplies no price.
    pub fn declare_permissionless_recovery(&mut self, reason: PermissionlessRecoveryReasonV13) -> (r: V13Result<PermissionlessProgressOutcomeV13>)
        ensures
            (r, *final(self)) == recovery_post(*old(self), reason),
    {
        if !self.config.permissionless_recovery_enabled {
            return Err(V13Error::InvalidConfig);
        }
        self.recovery_reason = Some(reason);
        Ok(PermissionlessProgressOutcomeV13::RecoveryDeclared(reason))
    }

    /// Checks the market's public invariants.
    pub fn assert_public_invariants(&self) -> (r: V13Result<()>)
        requires
            self.config.max_portfolio_assets <= V13_MAX_PORTFOLIO_ASSETS_N || !balances_ok(*self)
                || exists|i: int| 0 <= i < V13_MAX_PORTFOLIO_ASSETS_N && !asset_ok(#[trigger] self.assets[i]),
        ensures
            r == invariants_result(*self),
    {
        if self.vault > MAX_VAULT_TVL {
            return Err(V13Error::InvalidConfig);
        }
        let senior = match self.c_tot.checked_add(self.insurance) {
            None => return Err(V13Error::ArithmeticOverflow),
            Some(v) => v,
        };
        if self.c_tot > self.vault || self.insurance > self.vault || senior > self.vault {
            return Err(V13Error::InvalidConfig);
        }
        if self.pnl_matured_pos_tot > self.pnl_pos_tot {
            return Err(V13Error::InvalidConfig);
        }
        if self.slot_last > self.current_slot {
            return Err(V13Error::InvalidConfig);
        }
        let n = self.config.max_portfolio_assets as usize;
        let mut i: usize = 0;
        while i < n
            invariant
                i <= n,
                n == self.config.max_portfolio_assets,
                balances_ok(*self),
                n <= V13_MAX_PORTFOLIO_ASSETS_N || exists|k: int| 0 <= k < V13_MAX_PORTFOLIO_ASSETS_N && !asset_ok(#[trigger] self.assets[k]),
                forall|k: int| 0 <= k < i ==> asset_ok(#[trigger] self.assets[k]),
            decreases n - i,
        {
            assert(i < V13_MAX_PORTFOLIO_ASSETS_N);
            let asset = self.assets[i];
            if asset.effective_price == 0 || asset.effective_price > MAX_ORACLE_PRICE
                || asset.raw_oracle_target_price == 0 || asset.raw_oracle_target_price
                > MAX_ORACLE_PRICE || asset.fund_px_last == 0 || asset.fund_px_last
                > MAX_ORACLE_PRICE || asset.oi_eff_long_q > MAX_OI_SIDE_Q || asset.oi_eff_short_q
                > MAX_OI_SIDE_Q || asset.loss_weight_sum_long > SOCIAL_LOSS_DEN
                || asset.loss_weight_sum_short > SOCIAL_LOSS_DEN
                || asset.social_loss_remainder_long_num >= SOCIAL_LOSS_DEN
                || asset.social_loss_remainder_short_num >= SOCIAL_LOSS_DEN
                || asset.social_loss_dust_long_num >= SOCIAL_LOSS_DEN
                || asset.social_loss_dust_short_num >= SOCIAL_LOSS_DEN {
                return Err(V13Error::InvalidConfig);
            }
            i = i + 1;
        }
        Ok(())
    }
}

} // verus!
