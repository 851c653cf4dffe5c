//! Provenance and shape validation of portfolio accounts against a market group.
use vstd::prelude::*;
use crate::v13::arith::{
    abs_int, basis_ok, bit_at, fee_credits_result, loss_weight_value, unsigned_abs_i128,
    validate_basis, validate_fee_credits, validate_non_min_i128, loss_weight_for_basis,
};
use crate::v13::types::{
    empty_leg, MarketGroupV13, PortfolioAccountV13, PortfolioLegV13, V13Error, V13Result,
    V13_ACCOUNT_VERSION, V13_LAYOUT_DISCRIMINATOR, V13_MAX_PORTFOLIO_ASSETS_N,
};
use crate::{ADL_ONE, MIN_A_SIDE, SOCIAL_LOSS_DEN};

verus! {

/// The account's header binds it to this market, to its own owner and to the
/// current version and layout.
pub open spec fn provenance_ok(g: MarketGroupV13, a: PortfolioAccountV13) -> bool {
    &&& a.provenance_header.market_group_id@ == g.market_group_id@
    &&& a.provenance_header.owner@ == a.owner@
    &&& a.provenance_header.version == V13_ACCOUNT_VERSION
    &&& a.provenance_header.layout_discriminator == V13_LAYOUT_DISCRIMINATOR
}

pub open spec fn provenance_result(g: MarketGroupV13, a: PortfolioAccountV13) -> V13Result<()> {
    if provenance_ok(g, a) {
        Ok(())
    } else {
        Err(V13Error::ProvenanceMismatch)
    }
}

/// Reserved PnL never exceeds the positive part of PnL.
pub open spec fn reserved_ok(a: PortfolioAccountV13) -> bool {
    a.reserved_pnl <= (if a.pnl > 0 {
        a.pnl as int
    } else {
        0
    })
}

/// `A` lies in its admissible range.
pub open spec fn a_basis_in_range(a_basis: u128) -> bool {
    MIN_A_SIDE <= a_basis <= ADL_ONE
}

/// What validation makes of an active leg, first failing check first.
pub open spec fn active_leg_result(leg: PortfolioLegV13) -> V13Result<()> {
    if !basis_ok(leg.basis_pos_q) {
        Err(V13Error::InvalidLeg)
    } else if leg.k_snap == i128::MIN || leg.f_snap == i128::MIN {
        Err(V13Error::ArithmeticOverflow)
    } else if !a_basis_in_range(leg.a_basis) || leg.loss_weight == 0 || leg.loss_weight
        != loss_weight_value(abs_int(leg.basis_pos_q as int), leg.a_basis as int)
        || leg.b_rem >= SOCIAL_LOSS_DEN || leg.b_epoch_snap != leg.epoch_snap {
        Err(V13Error::InvalidLeg)
    } else {
        Ok(())
    }
}

/// What validation makes of leg slot `i` when the market admits `n` assets.
pub open spec fn slot_result(n: int, a: PortfolioAccountV13, i: int) -> V13Result<()> {
    let bit = bit_at(a.active_bitmap, i);
    let leg = a.legs[i];
    if i >= n {
        if bit || leg != empty_leg() {
            Err(V13Error::HiddenLeg)
        } else {
            Ok(())
        }
    } else if bit != leg.active {
        Err(V13Error::HiddenLeg)
    } else if !leg.active {
        if leg != empty_leg() {
            Err(V13Error::HiddenLeg)
        } else {
            Ok(())
        }
    } else {
        active_leg_result(leg)
    }
}

/// The first failing slot among `i..16`, if any.
pub open spec fn slots_from(n: int, a: PortfolioAccountV13, i: int) -> V13Result<()>
    decreases V13_MAX_PORTFOLIO_ASSETS_N - i,
{
    if i >= V13_MAX_PORTFOLIO_ASSETS_N {
        Ok(())
    } else {
        match slot_result(n, a, i) {
            Err(e) => Err(e),
            Ok(_) => slots_from(n, a, i + 1),
        }
    }
}

/// No bit of the active bitmap lies beyond the account's leg slots.
pub open spec fn bitmap_within_slots(bitmap: u32) -> bool {
    bitmap >> 16u32 == 0u32
}

/// Full shape validation of an account, first failing check first.
pub open spec fn shape_result(g: MarketGroupV13, a: PortfolioAccountV13) -> V13Result<()> {
    if !provenance_ok(g, a) {
        Err(V13Error::ProvenanceMismatch)
    } else if a.pnl == i128::MIN {
        Err(V13Error::ArithmeticOverflow)
    } else if fee_credits_result(a.fee_credits) is Err {
        fee_credits_result(a.fee_credits)
    } else if !reserved_ok(a) {
        Err(V13Error::InvalidLeg)
    } else if slots_from(g.config.max_portfolio_assets as int, a, 0) is Err {
        slots_from(g.config.max_portfolio_assets as int, a, 0)
    } else if !bitmap_within_slots(a.active_bitmap) {
        Err(V13Error::HiddenLeg)
    } else {
        Ok(())
    }
}

/// A leg's weight never overflows when its basis and `A` are admissible.
pub proof fn lemma_loss_weight_bounded(abs_b: int, a_basis: int)
    requires
        0 <= abs_b <= crate::MAX_POSITION_ABS_Q,
        MIN_A_SIDE <= a_basis <= ADL_ONE,
    ensures
        0 <= loss_weight_value(abs_b, a_basis) <= 1_000_000_000_000_000_000,
{
    let n = abs_b * crate::SOCIAL_WEIGHT_SCALE + a_basis - 1;
    assert(0 <= n <= 100_000_000_000_001_000_000int) by (nonlinear_arith)
        requires
            0 <= abs_b <= 100_000_000_000_000,
            1000 <= a_basis <= 1_000_000,
            n == abs_b * 1_000_000 + a_basis - 1,
    ;
    vstd::arithmetic::div_mod::lemma_div_is_ordered_by_denominator(n, 1000, a_basis);
    vstd::arithmetic::div_mod::lemma_div_is_ordered(n, 100_000_000_000_001_000_000int, 1000);
    vstd::arithmetic::div_mod::lemma_div_pos_is_pos(n, a_basis);
}

/// Compares two 32-byte identifiers.
pub(crate) fn eq_bytes32(x: &[u8; 32], y: &[u8; 32]) -> (r: bool)
    ensures
        r == (x@ == y@),
{
    let mut i: usize = 0;
    while i < 32
        invariant
            i <= 32,
            forall|j: int| 0 <= j < i ==> x@[j] == y@[j],
        decreases 32 - i,
    {
        if x[i] != y[i] {
            assert(x@[i as int] != y@[i as int]);
            return false;
        }
        i = i + 1;
    }
    assert(x@ =~= y@);
    true
}

/// Checks a leg that the active bitmap marks active.
pub(crate) fn validate_active_leg(leg: PortfolioLegV13) -> (r: V13Result<()>)
    ensures
        r == active_leg_result(leg),
{
    validate_basis(leg.basis_pos_q)?;
    validate_non_min_i128(leg.k_snap)?;
    validate_non_min_i128(leg.f_snap)?;
    if leg.a_basis < MIN_A_SIDE || leg.a_basis > ADL_ONE || leg.loss_weight == 0 {
        return Err(V13Error::InvalidLeg);
    }
    let abs_b = unsigned_abs_i128(leg.basis_pos_q);
    proof {
        lemma_loss_weight_bounded(abs_b as int, leg.a_basis as int);
    }
    let w = loss_weight_for_basis(abs_b, leg.a_basis)?;
    if leg.loss_weight != w || leg.b_rem >= SOCIAL_LOSS_DEN || leg.b_epoch_snap != leg.epoch_snap {
        return Err(V13Error::InvalidLeg);
    }
    Ok(())
}

impl MarketGroupV13 {
    /// Rejects an account whose header does not bind it to this market, to its
    /// owner and to the current version and layout.
    pub fn validate_portfolio_account_provenance(&self, account: &PortfolioAccountV13) -> (r:
        V13Result<()>)
        ensures
            r == provenance_result(*self, *account),
    {
        let h = account.provenance_header;
        if !eq_bytes32(&h.market_group_id, &self.market_group_id) || !eq_bytes32(
            &h.owner,
            &account.owner,
        ) || h.version != V13_ACCOUNT_VERSION || h.layout_discriminator
            != V13_LAYOUT_DISCRIMINATOR {
            return Err(V13Error::ProvenanceMismatch);
        }
        Ok(())
    }

    /// Full shape validation: provenance, balances, and the active bitmap as the
    /// only authority over which legs are active; a bit with no leg slot is a
    /// hidden leg.
    pub fn validate_account_shape(&self, account: &PortfolioAccountV13) -> (r: V13Result<()>)
        ensures
            r == shape_result(*self, *account),
    {
        self.validate_portfolio_account_provenance(account)?;
        validate_non_min_i128(account.pnl)?;
        validate_fee_credits(account.fee_credits)?;
        let pos_pnl: u128 = if account.pnl > 0 {
            account.pnl as u128
        } else {
            0
        };
        if account.reserved_pnl > pos_pnl {
            return Err(V13Error::InvalidLeg);
        }
        let n = self.config.max_portfolio_assets as usize;
        let mut i: usize = 0;
        while i < V13_MAX_PORTFOLIO_ASSETS_N
            invariant
                i <= V13_MAX_PORTFOLIO_ASSETS_N,
                n == self.config.max_portfolio_assets,
                slots_from(n as int, *account, 0) == slots_from(n as int, *account, i as int),
                shape_result(*self, *account) == (if slots_from(n as int, *account, 0) is Err {
                    slots_from(n as int, *account, 0)
                } else if !bitmap_within_slots(account.active_bitmap) {
                    Err(V13Error::HiddenLeg)
                } else {
                    Ok(())
                }),
            decreases V13_MAX_PORTFOLIO_ASSETS_N - i,
        {
            let bit = ((account.active_bitmap >> (i as u32)) & 1u32) == 1u32;
            let leg = account.legs[i];
            if i >= n {
                if bit || leg != PortfolioLegV13::empty() {
                    return Err(V13Error::HiddenLeg);
                }
            } else if bit != leg.active {
                return Err(V13Error::HiddenLeg);
            } else if !leg.active {
                if leg != PortfolioLegV13::empty() {
                    return Err(V13Error::HiddenLeg);
                }
            } else {
                validate_active_leg(leg)?;
            }
            i = i + 1;
        }
        if (account.active_bitmap >> 16u32) != 0u32 {
            return Err(V13Error::HiddenLeg);
        }
        Ok(())
    }
}

} // verus!
