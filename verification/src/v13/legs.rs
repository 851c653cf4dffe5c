//! Attaching and clearing portfolio legs: the account's leg slot and active
//! bitmap change together with the side totals of the leg's asset.
use vstd::prelude::*;
use vstd::array::spec_array_update;
use crate::v13::account_shape::{
    a_basis_in_range, lemma_loss_weight_bounded, provenance_ok, shape_result,
};
use crate::v13::arith::{
    abs_int, basis_ok, bit_at, loss_weight_for_basis, loss_weight_value, unsigned_abs_i128,
    validate_basis,
};
use crate::v13::lifecycle::{invalidate_cert, mark_b_stale_post, Step};
use crate::v13::types::{
    empty_leg, AssetStateV13, MarketGroupV13, PortfolioAccountV13, PortfolioLegV13, SideV13,
    V13Error, V13Result, V13_MAX_PORTFOLIO_ASSETS_N,
};
use crate::{ADL_ONE, MIN_A_SIDE};

verus! {

/// The side index snapshot a new leg starts from: `(A, K, F, B, epoch)`.
pub open spec fn side_snapshot(asset: AssetStateV13, side: SideV13) -> (u128, i128, i128, u128, u64) {
    match side {
        SideV13::Long => (asset.a_long, asset.k_long, asset.f_long_num, asset.b_long_num, asset.epoch_long),
        SideV13::Short => (asset.a_short, asset.k_short, asset.f_short_num, asset.b_short_num, asset.epoch_short),
    }
}

/// The leg that attaching a position of `basis` on `side` writes.
pub open spec fn attached_leg(side: SideV13, basis: i128, snap: (u128, i128, i128, u128, u64), w: u128) -> PortfolioLegV13 {
    PortfolioLegV13 {
        active: true,
        side,
        basis_pos_q: basis,
        a_basis: snap.0,
        k_snap: snap.1,
        f_snap: snap.2,
        epoch_snap: snap.4,
        loss_weight: w,
        b_snap: snap.3,
        b_rem: 0,
        b_epoch_snap: snap.4,
        b_stale: false,
        stale: false,
    }
}

/// Books a leg into its side's totals: the stored position count, the open
/// interest and the loss-weight sum, each checked in turn; a failing step
/// leaves the steps before it applied.
pub open spec fn book_leg(asset: AssetStateV13, side: SideV13, abs_q: int, w: int) -> (V13Result<()>, AssetStateV13) {
    match side {
        SideV13::Long => {
            if asset.stored_pos_count_long == u64::MAX {
                (Err(V13Error::CounterOverflow), asset)
            } else {
                let a1 = AssetStateV13 { stored_pos_count_long: (asset.stored_pos_count_long + 1) as u64, ..asset };
                if a1.oi_eff_long_q + abs_q > u128::MAX {
                    (Err(V13Error::ArithmeticOverflow), a1)
                } else {
                    let a2 = AssetStateV13 { oi_eff_long_q: (a1.oi_eff_long_q + abs_q) as u128, ..a1 };
                    if a2.loss_weight_sum_long + w > u128::MAX {
                        (Err(V13Error::ArithmeticOverflow), a2)
                    } else {
                        (Ok(()), AssetStateV13 { loss_weight_sum_long: (a2.loss_weight_sum_long + w) as u128, ..a2 })
                    }
                }
            }
        },
        SideV13::Short => {
            if asset.stored_pos_count_short == u64::MAX {
                (Err(V13Error::CounterOverflow), asset)
            } else {
                let a1 = AssetStateV13 { stored_pos_count_short: (asset.stored_pos_count_short + 1) as u64, ..asset };
                if a1.oi_eff_short_q + abs_q > u128::MAX {
                    (Err(V13Error::ArithmeticOverflow), a1)
                } else {
                    let a2 = AssetStateV13 { oi_eff_short_q: (a1.oi_eff_short_q + abs_q) as u128, ..a1 };
                    if a2.loss_weight_sum_short + w > u128::MAX {
                        (Err(V13Error::ArithmeticOverflow), a2)
                    } else {
                        (Ok(()), AssetStateV13 { loss_weight_sum_short: (a2.loss_weight_sum_short + w) as u128, ..a2 })
                    }
                }
            }
        },
    }
}

/// Removes a leg from its side's totals, each step checked against underflow.
pub open spec fn unbook_leg(asset: AssetStateV13, side: SideV13, abs_q: int, w: int) -> (V13Result<()>, AssetStateV13) {
    match side {
        SideV13::Long => {
            if asset.stored_pos_count_long == 0 {
                (Err(V13Error::CounterUnderflow), asset)
            } else {
                let a1 = AssetStateV13 { stored_pos_count_long: (asset.stored_pos_count_long - 1) as u64, ..asset };
                if a1.oi_eff_long_q < abs_q {
                    (Err(V13Error::CounterUnderflow), a1)
                } else {
                    let a2 = AssetStateV13 { oi_eff_long_q: (a1.oi_eff_long_q - abs_q) as u128, ..a1 };
                    if a2.loss_weight_sum_long < w {
                        (Err(V13Error::CounterUnderflow), a2)
                    } else {
                        (Ok(()), AssetStateV13 { loss_weight_sum_long: (a2.loss_weight_sum_long - w) as u128, ..a2 })
                    }
                }
            }
        },
        SideV13::Short => {
            if asset.stored_pos_count_short == 0 {
                (Err(V13Error::CounterUnderflow), asset)
            } else {
                let a1 = AssetStateV13 { stored_pos_count_short: (asset.stored_pos_count_short - 1) as u64, ..asset };
                if a1.oi_eff_short_q < abs_q {
                    (Err(V13Error::CounterUnderflow), a1)
                } else {
                    let a2 = AssetStateV13 { oi_eff_short_q: (a1.oi_eff_short_q - abs_q) as u128, ..a1 };
                    if a2.loss_weight_sum_short < w {
                        (Err(V13Error::CounterUnderflow), a2)
                    } else {
                        (Ok(()), AssetStateV13 { loss_weight_sum_short: (a2.loss_weight_sum_short - w) as u128, ..a2 })
                    }
                }
            }
        },
    }
}

/// The market with asset `i` replaced.
pub open spec fn with_asset(g: MarketGroupV13, i: int, asset: AssetStateV13) -> MarketGroupV13 {
    MarketGroupV13 { assets: spec_array_update(g.assets, i, asset), ..g }
}

/// The account with leg `i` replaced.
pub open spec fn with_leg(a: PortfolioAccountV13, i: int, leg: PortfolioLegV13) -> PortfolioAccountV13 {
    PortfolioAccountV13 { legs: spec_array_update(a.legs, i, leg), ..a }
}

/// The weight a leg of `basis` gets at `A = a_basis`.
pub open spec fn leg_weight(basis: i128, a_basis: u128) -> int {
    loss_weight_value(abs_int(basis as int), a_basis as int)
}

/// Attaching a leg at slot `idx`: the slot must be free in both the leg array
/// and the bitmap, the basis admissible and the side's `A` in range; the leg
/// snapshots the side's indices, is booked into the asset, and the account is
/// revalidated as a whole.
pub open spec fn attach_post(g: MarketGroupV13, a: PortfolioAccountV13, idx: int, side: SideV13, basis: i128) -> Step {
    if !provenance_ok(g, a) {
        (Err(V13Error::ProvenanceMismatch), g, a)
    } else if idx >= g.config.max_portfolio_assets {
        (Err(V13Error::InvalidLeg), g, a)
    } else if a.legs[idx].active || bit_at(a.active_bitmap, idx) {
        (Err(V13Error::InvalidLeg), g, a)
    } else if !basis_ok(basis) {
        (Err(V13Error::InvalidLeg), g, a)
    } else {
        let snap = side_snapshot(g.assets[idx], side);
        let w = leg_weight(basis, snap.0);
        if !a_basis_in_range(snap.0) || w == 0 {
            (Err(V13Error::InvalidLeg), g, a)
        } else {
            let booked = book_leg(g.assets[idx], side, abs_int(basis as int), w);
            let g2 = with_asset(g, idx, booked.1);
            if booked.0 is Err {
                (booked.0, g2, a)
            } else {
                let a2 = PortfolioAccountV13 {
                    active_bitmap: a.active_bitmap | (1u32 << (idx as u32)),
                    ..invalidate_cert(with_leg(a, idx, attached_leg(side, basis, snap, w as u128)))
                };
                (shape_result(g2, a2), g2, a2)
            }
        }
    }
}

/// Clearing the leg at slot `idx`: only a well-shaped account's active, fresh
/// leg is cleared; it is unbooked from the asset, its slot reset and its bit
/// cleared, and the account revalidated.
pub open spec fn clear_post(g: MarketGroupV13, a: PortfolioAccountV13, idx: int) -> Step {
    if shape_result(g, a) is Err {
        (shape_result(g, a), g, a)
    } else if idx >= g.config.max_portfolio_assets {
        (Err(V13Error::InvalidLeg), g, a)
    } else if !a.legs[idx].active || a.legs[idx].b_stale || a.legs[idx].stale {
        (Err(V13Error::InvalidLeg), g, a)
    } else {
        let leg = a.legs[idx];
        let unbooked = unbook_leg(g.assets[idx], leg.side, abs_int(leg.basis_pos_q as int), leg.loss_weight as int);
        let g2 = with_asset(g, idx, unbooked.1);
        if unbooked.0 is Err {
            (unbooked.0, g2, a)
        } else {
            let a2 = PortfolioAccountV13 {
                active_bitmap: a.active_bitmap & !(1u32 << (idx as u32)),
                ..invalidate_cert(with_leg(a, idx, empty_leg()))
            };
            (shape_result(g2, a2), g2, a2)
        }
    }
}

/// Flagging the leg at slot `idx` B-stale, then the account.
pub open spec fn mark_leg_b_stale_post(g: MarketGroupV13, a: PortfolioAccountV13, idx: int) -> Step {
    if shape_result(g, a) is Err {
        (shape_result(g, a), g, a)
    } else if idx >= g.config.max_portfolio_assets || !a.legs[idx].active {
        (Err(V13Error::InvalidLeg), g, a)
    } else {
        mark_b_stale_post(g, with_leg(a, idx, PortfolioLegV13 { b_stale: true, ..a.legs[idx] }))
    }
}

impl MarketGroupV13 {
    /// Attaches a position of `basis_pos_q` on `side` at slot `asset_index`.
    pub fn attach_leg(
        &mut self,
        account: &mut PortfolioAccountV13,
        asset_index: usize,
        side: SideV13,
        basis_pos_q: i128,
    ) -> (r: V13Result<()>)
        requires
            asset_index < old(self).config.max_portfolio_assets ==> asset_index
                < V13_MAX_PORTFOLIO_ASSETS_N || !provenance_ok(*old(self), *old(account)),
        ensures
            (r, *final(self), *final(account)) == attach_post(
                *old(self),
                *old(account),
                asset_index as int,
                side,
                basis_pos_q,
            ),
    {
        self.validate_portfolio_account_provenance(account)?;
        if asset_index >= self.config.max_portfolio_assets as usize {
            return Err(V13Error::InvalidLeg);
        }
        if account.legs[asset_index].active || ((account.active_bitmap >> (asset_index as u32))
            & 1u32) == 1u32 {
            return Err(V13Error::InvalidLeg);
        }
        validate_basis(basis_pos_q)?;
        let mut asset = self.assets[asset_index];
        let (a_basis, k_snap, f_snap, b_snap, epoch_snap) = match side {
            SideV13::Long => (
                asset.a_long,
                asset.k_long,
                asset.f_long_num,
                asset.b_long_num,
                asset.epoch_long,
            ),
            SideV13::Short => (
                asset.a_short,
                asset.k_short,
                asset.f_short_num,
                asset.b_short_num,
                asset.epoch_short,
            ),
        };
        if a_basis < MIN_A_SIDE || a_basis > ADL_ONE {
            return Err(V13Error::InvalidLeg);
        }
        let abs_q = unsigned_abs_i128(basis_pos_q);
        proof {
            lemma_loss_weight_bounded(abs_q as int, a_basis as int);
        }
        let loss_weight = loss_weight_for_basis(abs_q, a_basis)?;
        if loss_weight == 0 {
            return Err(V13Error::InvalidLeg);
        }
        match side {
            SideV13::Long => {
                match asset.stored_pos_count_long.checked_add(1) {
                    None => {
                        self.assets[asset_index] = asset;
                        return Err(V13Error::CounterOverflow);
                    },
                    Some(v) => asset.stored_pos_count_long = v,
                }
                match asset.oi_eff_long_q.checked_add(abs_q) {
                    None => {
                        self.assets[asset_index] = asset;
                        return Err(V13Error::ArithmeticOverflow);
                    },
                    Some(v) => asset.oi_eff_long_q = v,
                }
                match asset.loss_weight_sum_long.checked_add(loss_weight) {
                    None => {
                        self.assets[asset_index] = asset;
                        return Err(V13Error::ArithmeticOverflow);
                    },
                    Some(v) => asset.loss_weight_sum_long = v,
                }
            },
            SideV13::Short => {
                match asset.stored_pos_count_short.checked_add(1) {
                    None => {
                        self.assets[asset_index] = asset;
                        return Err(V13Error::CounterOverflow);
                    },
                    Some(v) => asset.stored_pos_count_short = v,
                }
                match asset.oi_eff_short_q.checked_add(abs_q) {
                    None => {
                        self.assets[asset_index] = asset;
                        return Err(V13Error::ArithmeticOverflow);
                    },
                    Some(v) => asset.oi_eff_short_q = v,
                }
                match asset.loss_weight_sum_short.checked_add(loss_weight) {
                    None => {
                        self.assets[asset_index] = asset;
                        return Err(V13Error::ArithmeticOverflow);
                    },
                    Some(v) => asset.loss_weight_sum_short = v,
                }
            },
        }
        self.assets[asset_index] = asset;
        account.legs[asset_index] = PortfolioLegV13 {
            active: true,
            side,
            basis_pos_q,
            a_basis,
            k_snap,
            f_snap,
            epoch_snap,
            loss_weight,
            b_snap,
            b_rem: 0,
            b_epoch_snap: epoch_snap,
            b_stale: false,
            stale: false,
        };
        account.active_bitmap = account.active_bitmap | (1u32 << (asset_index as u32));
        account.health_cert.valid = false;
        self.validate_account_shape(account)
    }

    /// Clears the active, fresh leg at slot `asset_index` of a well-shaped account.
    pub fn clear_leg(&mut self, account: &mut PortfolioAccountV13, asset_index: usize) -> (r:
        V13Result<()>)
        requires
            asset_index < old(self).config.max_portfolio_assets ==> asset_index
                < V13_MAX_PORTFOLIO_ASSETS_N || shape_result(*old(self), *old(account)) is Err,
        ensures
            (r, *final(self), *final(account)) == clear_post(
                *old(self),
                *old(account),
                asset_index as int,
            ),
    {
        self.validate_account_shape(account)?;
        if asset_index >= self.config.max_portfolio_assets as usize {
            return Err(V13Error::InvalidLeg);
        }
        let leg = account.legs[asset_index];
        if !leg.active || leg.b_stale || leg.stale {
            return Err(V13Error::InvalidLeg);
        }
        let abs_q = unsigned_abs_i128(leg.basis_pos_q);
        let mut asset = self.assets[asset_index];
        match leg.side {
            SideV13::Long => {
                match asset.stored_pos_count_long.checked_sub(1) {
                    None => {
                        self.assets[asset_index] = asset;
                        return Err(V13Error::CounterUnderflow);
                    },
                    Some(v) => asset.stored_pos_count_long = v,
                }
                match asset.oi_eff_long_q.checked_sub(abs_q) {
                    None => {
                        self.assets[asset_index] = asset;
                        return Err(V13Error::CounterUnderflow);
                    },
                    Some(v) => asset.oi_eff_long_q = v,
                }
                match asset.loss_weight_sum_long.checked_sub(leg.loss_weight) {
                    None => {
                        self.assets[asset_index] = asset;
                        return Err(V13Error::CounterUnderflow);
                    },
                    Some(v) => asset.loss_weight_sum_long = v,
                }
            },
            SideV13::Short => {
                match asset.stored_pos_count_short.checked_sub(1) {
                    None => {
                        self.assets[asset_index] = asset;
                        return Err(V13Error::CounterUnderflow);
                    },
                    Some(v) => asset.stored_pos_count_short = v,
                }
                match asset.oi_eff_short_q.checked_sub(abs_q) {
                    None => {
                        self.assets[asset_index] = asset;
                        return Err(V13Error::CounterUnderflow);
                    },
                    Some(v) => asset.oi_eff_short_q = v,
                }
                match asset.loss_weight_sum_short.checked_sub(leg.loss_weight) {
                    None => {
                        self.assets[asset_index] = asset;
                        return Err(V13Error::CounterUnderflow);
                    },
                    Some(v) => asset.loss_weight_sum_short = v,
                }
            },
        }
        self.assets[asset_index] = asset;
        account.legs[asset_index] = PortfolioLegV13::empty();
        account.active_bitmap = account.active_bitmap & !(1u32 << (asset_index as u32));
        account.health_cert.valid = false;
        self.validate_account_shape(account)
    }

    /// Flags the active leg at slot `asset_index` B-stale, then the account.
    pub fn mark_leg_b_stale(&mut self, account: &mut PortfolioAccountV13, asset_index: usize) -> (r:
        V13Result<()>)
        requires
            asset_index < old(self).config.max_portfolio_assets ==> asset_index
                < V13_MAX_PORTFOLIO_ASSETS_N || shape_result(*old(self), *old(account)) is Err,
        ensures
            (r, *final(self), *final(account)) == mark_leg_b_stale_post(
                *old(self),
                *old(account),
                asset_index as int,
            ),
    {
        self.validate_account_shape(account)?;
        if asset_index >= self.config.max_portfolio_assets as usize
            || !account.legs[asset_index].active {
            return Err(V13Error::InvalidLeg);
        }
        let mut leg = account.legs[asset_index];
        leg.b_stale = true;
        account.legs[asset_index] = leg;
        self.mark_account_b_stale(account)
    }
}

} // verus!
