//! Account-local B settlement: the engine-determined chunk of a leg's booked
//! bankruptcy loss, and its application to the account and the market totals.
use vstd::prelude::*;
use crate::v13::account_shape::shape_result;
use crate::v13::legs::with_leg;
use crate::v13::lifecycle::{
    clear_b_stale_post, has_b_stale_leg, has_b_stale_leg_spec, invalidate_cert, Step,
};
use crate::v13::arith::validate_non_min_i128;
use crate::v13::types::{
    AccountBSettlementChunkV13, MarketGroupV13, PortfolioAccountV13, PortfolioLegV13,
    SideModeV13, SideV13, V13Error, V13Result, V13_MAX_PORTFOLIO_ASSETS_N,
};
use crate::SOCIAL_LOSS_DEN;

verus! {

/// The B index a leg settles towards: the side's current index in the leg's
/// own epoch, the epoch-start index when the side is one reset ahead.
pub open spec fn b_target(g: MarketGroupV13, idx: int, leg: PortfolioLegV13) -> V13Result<u128> {
    let asset = g.assets[idx];
    let (current_b, epoch_start_b, side_epoch, mode) = match leg.side {
        SideV13::Long => (asset.b_long_num, asset.b_epoch_start_long_num, asset.epoch_long, asset.mode_long),
        SideV13::Short => (asset.b_short_num, asset.b_epoch_start_short_num, asset.epoch_short, asset.mode_short),
    };
    if leg.b_epoch_snap == side_epoch {
        Ok(current_b)
    } else if mode == SideModeV13::ResetPending && leg.b_epoch_snap + 1 == side_epoch {
        Ok(epoch_start_b)
    } else {
        Err(V13Error::InvalidLeg)
    }
}

/// Largest booking numerator a single public chunk may produce:
/// `(limit + 1) * SOCIAL_LOSS_DEN - 1`.
pub open spec fn max_chunk_num(limit: u128) -> int {
    (limit + 1) * SOCIAL_LOSS_DEN - 1
}

pub open spec fn min3(x: int, y: int, z: int) -> int {
    let m = if x <= y { x } else { y };
    if m <= z { m } else { z }
}

/// The next B settlement chunk of the leg at slot `idx`: the largest advance
/// of its B snapshot towards the target that stays within the chunk limit
/// and the caller's budget, the loss it books and the new remainder; an
/// account that cannot advance must go to recovery.
pub open spec fn chunk_result(g: MarketGroupV13, a: PortfolioAccountV13, idx: int, budget: u128) -> V13Result<AccountBSettlementChunkV13> {
    if shape_result(g, a) is Err {
        Err(shape_result(g, a)->Err_0)
    } else if idx >= g.config.max_portfolio_assets || !a.legs[idx].active {
        Err(V13Error::InvalidLeg)
    } else {
        let leg = a.legs[idx];
        match b_target(g, idx, leg) {
            Err(e) => Err(e),
            Ok(target) => {
                if target < leg.b_snap {
                    Err(V13Error::RecoveryRequired)
                } else if target == leg.b_snap {
                    Ok(AccountBSettlementChunkV13 { delta_b: 0, loss: 0, new_remainder: leg.b_rem, remaining_after: 0 })
                } else if leg.loss_weight == 0 || budget == 0 {
                    Err(V13Error::RecoveryRequired)
                } else {
                    let limit = g.config.public_b_chunk_atoms;
                    let remaining = target - leg.b_snap;
                    if (limit + 1) * SOCIAL_LOSS_DEN > u128::MAX {
                        Err(V13Error::ArithmeticOverflow)
                    } else if leg.b_rem > max_chunk_num(limit) {
                        Err(V13Error::RecoveryRequired)
                    } else {
                        let delta = min3(remaining, (max_chunk_num(limit) - leg.b_rem) / (leg.loss_weight as int), budget as int);
                        let num = leg.loss_weight * delta + leg.b_rem;
                        if delta == 0 {
                            Err(V13Error::RecoveryRequired)
                        } else if num > u128::MAX {
                            Err(V13Error::ArithmeticOverflow)
                        } else {
                            Ok(AccountBSettlementChunkV13 {
                                delta_b: delta as u128,
                                loss: (num / (SOCIAL_LOSS_DEN as int)) as u128,
                                new_remainder: (num % (SOCIAL_LOSS_DEN as int)) as u128,
                                remaining_after: (remaining - delta) as u128,
                            })
                        }
                    }
                }
            },
        }
    }
}

/// Replacing an account's PnL: the market's positive-PnL total follows the
/// positive part (the matured total is capped to it when it shrinks) and the
/// negative-PnL account count follows the sign.
pub open spec fn set_pnl_post(g: MarketGroupV13, a: PortfolioAccountV13, new_pnl: i128) -> Step {
    let old_pos: int = if a.pnl > 0 { a.pnl as int } else { 0 };
    let new_pos: int = if new_pnl > 0 { new_pnl as int } else { 0 };
    if new_pnl == i128::MIN {
        (Err(V13Error::ArithmeticOverflow), g, a)
    } else if new_pos >= old_pos && g.pnl_pos_tot + (new_pos - old_pos) > u128::MAX {
        (Err(V13Error::ArithmeticOverflow), g, a)
    } else if new_pos < old_pos && g.pnl_pos_tot < old_pos - new_pos {
        (Err(V13Error::CounterUnderflow), g, a)
    } else {
        let tot = (g.pnl_pos_tot + new_pos - old_pos) as u128;
        let g1 = if new_pos >= old_pos {
            MarketGroupV13 { pnl_pos_tot: tot, ..g }
        } else {
            MarketGroupV13 {
                pnl_pos_tot: tot,
                pnl_matured_pos_tot: if g.pnl_matured_pos_tot <= tot { g.pnl_matured_pos_tot } else { tot },
                ..g
            }
        };
        let old_neg = a.pnl < 0;
        let new_neg = new_pnl < 0;
        let a2 = PortfolioAccountV13 { pnl: new_pnl, ..a };
        if !old_neg && new_neg {
            if g1.negative_pnl_account_count == u64::MAX {
                (Err(V13Error::CounterOverflow), g1, a)
            } else {
                (Ok(()), MarketGroupV13 { negative_pnl_account_count: (g1.negative_pnl_account_count + 1) as u64, ..g1 }, a2)
            }
        } else if old_neg && !new_neg {
            if g1.negative_pnl_account_count == 0 {
                (Err(V13Error::CounterUnderflow), g1, a)
            } else {
                (Ok(()), MarketGroupV13 { negative_pnl_account_count: (g1.negative_pnl_account_count - 1) as u64, ..g1 }, a2)
            }
        } else {
            (Ok(()), g1, a2)
        }
    }
}

/// The leg after a chunk has been applied to it.
pub open spec fn settled_leg(leg: PortfolioLegV13, c: AccountBSettlementChunkV13) -> PortfolioLegV13 {
    PortfolioLegV13 {
        b_snap: (leg.b_snap + c.delta_b) as u128,
        b_rem: c.new_remainder,
        b_stale: c.remaining_after != 0,
        ..leg
    }
}

/// Clears the account's B-stale flag when no leg is B-stale any more.
pub open spec fn clear_b_stale_if_settled(g: MarketGroupV13, a: PortfolioAccountV13) -> Step {
    if !has_b_stale_leg_spec(a) {
        clear_b_stale_post(g, a)
    } else {
        (Ok(()), g, a)
    }
}

/// Applying the next B chunk of leg `idx`: the leg's snapshot advances by the
/// chunk, the booked loss is taken from PnL, the B-stale flag is cleared once
/// no leg is B-stale, the certificate is invalidated and the account
/// revalidated.
pub open spec fn settle_post(g: MarketGroupV13, a: PortfolioAccountV13, idx: int, budget: u128) -> (V13Result<AccountBSettlementChunkV13>, MarketGroupV13, PortfolioAccountV13) {
    match chunk_result(g, a, idx, budget) {
        Err(e) => (Err(e), g, a),
        Ok(c) => {
            if c.delta_b == 0 {
                let s = clear_b_stale_if_settled(g, a);
                (if s.0 is Err { Err(s.0->Err_0) } else { Ok(c) }, s.1, s.2)
            } else if c.loss > i128::MAX || a.pnl - c.loss < i128::MIN {
                (Err(V13Error::ArithmeticOverflow), g, a)
            } else if a.legs[idx].b_snap + c.delta_b > u128::MAX {
                (Err(V13Error::ArithmeticOverflow), g, a)
            } else {
                let a1 = with_leg(a, idx, settled_leg(a.legs[idx], c));
                let s2 = set_pnl_post(g, a1, (a.pnl - c.loss) as i128);
                if s2.0 is Err {
                    (Err(s2.0->Err_0), s2.1, s2.2)
                } else {
                    let s3 = clear_b_stale_if_settled(s2.1, s2.2);
                    if s3.0 is Err {
                        (Err(s3.0->Err_0), s3.1, s3.2)
                    } else {
                        let a4 = invalidate_cert(s3.2);
                        (if shape_result(s3.1, a4) is Err { Err(shape_result(s3.1, a4)->Err_0) } else { Ok(c) }, s3.1, a4)
                    }
                }
            }
        },
    }
}

impl MarketGroupV13 {
    fn b_target_for_leg(&self, asset_index: usize, leg: PortfolioLegV13) -> (r: V13Result<u128>)
        requires
            asset_index < V13_MAX_PORTFOLIO_ASSETS_N,
        ensures
            r == b_target(*self, asset_index as int, leg),
    {
        let asset = self.assets[asset_index];
        let (current_b, epoch_start_b, side_epoch, mode) = match leg.side {
            SideV13::Long => (asset.b_long_num, asset.b_epoch_start_long_num, asset.epoch_long, asset.mode_long),
            SideV13::Short => (asset.b_short_num, asset.b_epoch_start_short_num, asset.epoch_short, asset.mode_short),
        };
        if leg.b_epoch_snap == side_epoch {
            Ok(current_b)
        } else {
            let next_is_side_epoch = match leg.b_epoch_snap.checked_add(1) {
                Some(e) => e == side_epoch,
                None => false,
            };
            if mode == SideModeV13::ResetPending && next_is_side_epoch {
                Ok(epoch_start_b)
            } else {
                Err(V13Error::InvalidLeg)
            }
        }
    }

    /// Computes, without applying it, the next B settlement chunk of the leg
    /// at slot `asset_index` within `endpoint_delta_budget`.
    pub fn account_b_settlement_chunk(&self, account: &PortfolioAccountV13, asset_index: usize, endpoint_delta_budget: u128) -> (r: V13Result<AccountBSettlementChunkV13>)
        requires
            asset_index < self.config.max_portfolio_assets ==> asset_index < V13_MAX_PORTFOLIO_ASSETS_N
                || shape_result(*self, *account) is Err,
        ensures
            r == chunk_result(*self, *account, asset_index as int, endpoint_delta_budget),
    {
        self.validate_account_shape(account)?;
        if asset_index >= self.config.max_portfolio_assets as usize {
            return Err(V13Error::InvalidLeg);
        }
        let leg = account.legs[asset_index];
        if !leg.active {
            return Err(V13Error::InvalidLeg);
        }
        let target = self.b_target_for_leg(asset_index, leg)?;
        if target < leg.b_snap {
            return Err(V13Error::RecoveryRequired);
        }
        let b_remaining = target - leg.b_snap;
        if b_remaining == 0 {
            return Ok(AccountBSettlementChunkV13 { delta_b: 0, loss: 0, new_remainder: leg.b_rem, remaining_after: 0 });
        }
        if leg.loss_weight == 0 || endpoint_delta_budget == 0 {
            return Err(V13Error::RecoveryRequired);
        }
        let limit = self.config.public_b_chunk_atoms;
        let max_num = match limit.checked_add(1) {
            None => return Err(V13Error::ArithmeticOverflow),
            Some(l1) => match l1.checked_mul(SOCIAL_LOSS_DEN) {
                None => {
                    proof {
                        assert((limit + 1) * SOCIAL_LOSS_DEN > u128::MAX);
                    }
                    return Err(V13Error::ArithmeticOverflow)
                },
                Some(m) => m - 1,
            },
        };
        if leg.b_rem > max_num {
            return Err(V13Error::RecoveryRequired);
        }
        let max_delta_by_loss = (max_num - leg.b_rem) / leg.loss_weight;
        let mut delta_b = b_remaining;
        if max_delta_by_loss < delta_b {
            delta_b = max_delta_by_loss;
        }
        if endpoint_delta_budget < delta_b {
            delta_b = endpoint_delta_budget;
        }
        if delta_b == 0 {
            return Err(V13Error::RecoveryRequired);
        }
        let num = match leg.loss_weight.checked_mul(delta_b) {
            None => {
                proof {
                    assert(leg.loss_weight * delta_b + leg.b_rem > u128::MAX);
                }
                return Err(V13Error::ArithmeticOverflow)
            },
            Some(p) => match p.checked_add(leg.b_rem) {
                None => return Err(V13Error::ArithmeticOverflow),
                Some(v) => v,
            },
        };
        Ok(AccountBSettlementChunkV13 {
            delta_b,
            loss: num / SOCIAL_LOSS_DEN,
            new_remainder: num % SOCIAL_LOSS_DEN,
            remaining_after: b_remaining - delta_b,
        })
    }

    fn set_account_pnl(&mut self, account: &mut PortfolioAccountV13, new_pnl: i128) -> (r: V13Result<()>)
        ensures
            (r, *final(self), *final(account)) == set_pnl_post(*old(self), *old(account), new_pnl),
    {
        validate_non_min_i128(new_pnl)?;
        let old_pos: u128 = if account.pnl > 0 { account.pnl as u128 } else { 0 };
        let new_pos: u128 = if new_pnl > 0 { new_pnl as u128 } else { 0 };
        if new_pos >= old_pos {
            match self.pnl_pos_tot.checked_add(new_pos - old_pos) {
                None => return Err(V13Error::ArithmeticOverflow),
                Some(v) => self.pnl_pos_tot = v,
            }
        } else {
            match self.pnl_pos_tot.checked_sub(old_pos - new_pos) {
                None => return Err(V13Error::CounterUnderflow),
                Some(v) => self.pnl_pos_tot = v,
            }
            if self.pnl_pos_tot < self.pnl_matured_pos_tot {
                self.pnl_matured_pos_tot = self.pnl_pos_tot;
            }
        }
        let old_negative = account.pnl < 0;
        let new_negative = new_pnl < 0;
        if !old_negative && new_negative {
            match self.negative_pnl_account_count.checked_add(1) {
                None => return Err(V13Error::CounterOverflow),
                Some(v) => self.negative_pnl_account_count = v,
            }
        } else if old_negative && !new_negative {
            match self.negative_pnl_account_count.checked_sub(1) {
                None => return Err(V13Error::CounterUnderflow),
                Some(v) => self.negative_pnl_account_count = v,
            }
        }
        account.pnl = new_pnl;
        Ok(())
    }

    /// Computes and applies the next B settlement chunk of the leg at slot
    /// `asset_index`.
    #[verifier::rlimit(60)]
    pub fn settle_account_b_chunk(&mut self, account: &mut PortfolioAccountV13, asset_index: usize, endpoint_delta_budget: u128) -> (r: V13Result<AccountBSettlementChunkV13>)
        requires
            asset_index < old(self).config.max_portfolio_assets ==> asset_index < V13_MAX_PORTFOLIO_ASSETS_N
                || shape_result(*old(self), *old(account)) is Err,
        ensures
            (r, *final(self), *final(account)) == settle_post(*old(self), *old(account), asset_index as int, endpoint_delta_budget),
    {
        let chunk = self.account_b_settlement_chunk(account, asset_index, endpoint_delta_budget)?;
        if chunk.delta_b == 0 {
            if !has_b_stale_leg(account) {
                self.clear_account_b_stale(account)?;
            }
            return Ok(chunk);
        }
        let old_pnl = account.pnl;
        if chunk.loss > i128::MAX as u128 {
            return Err(V13Error::ArithmeticOverflow);
        }
        let loss_i128 = chunk.loss as i128;
        let new_pnl = match old_pnl.checked_sub(loss_i128) {
            None => return Err(V13Error::ArithmeticOverflow),
            Some(v) => v,
        };
        let mut leg = account.legs[asset_index];
        match leg.b_snap.checked_add(chunk.delta_b) {
            None => return Err(V13Error::ArithmeticOverflow),
            Some(v) => leg.b_snap = v,
        }
        leg.b_rem = chunk.new_remainder;
        leg.b_stale = chunk.remaining_after != 0;
        account.legs[asset_index] = leg;
        self.set_account_pnl(account, new_pnl)?;
        if !has_b_stale_leg(account) {
            self.clear_account_b_stale(account)?;
        }
        account.health_cert.valid = false;
        self.validate_account_shape(account)?;
        Ok(chunk)
    }
}

} // verus!
