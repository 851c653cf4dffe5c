//! Market creation, account materialization and the stale / B-stale flags
//! with their exact market-wide counters.
use vstd::prelude::*;
use crate::v13::account_shape::{provenance_ok, shape_result};
use crate::v13::types::{
    config_valid, fresh_asset, MarketGroupV13, PortfolioAccountV13, V13Config, V13Error,
    V13Result, AssetStateV13, HealthCertV13, V13_MAX_PORTFOLIO_ASSETS_N,
};

verus! {

/// Some active leg of the account is B-stale.
pub open spec fn has_b_stale_leg_spec(a: PortfolioAccountV13) -> bool {
    exists|i: int| 0 <= i < V13_MAX_PORTFOLIO_ASSETS_N && #[trigger] a.legs[i].active
        && a.legs[i].b_stale
}

/// Some active leg of the account is stale.
pub open spec fn has_stale_leg_spec(a: PortfolioAccountV13) -> bool {
    exists|i: int| 0 <= i < V13_MAX_PORTFOLIO_ASSETS_N && #[trigger] a.legs[i].active
        && a.legs[i].stale
}

/// The account with its health certificate invalidated.
pub open spec fn invalidate_cert(a: PortfolioAccountV13) -> PortfolioAccountV13 {
    PortfolioAccountV13 { health_cert: HealthCertV13 { valid: false, ..a.health_cert }, ..a }
}

/// Result of a transition: what is returned, and the market and account after it.
pub type Step = (V13Result<()>, MarketGroupV13, PortfolioAccountV13);

/// Materializing an account: a valid shape increments the portfolio count.
pub open spec fn create_post(g: MarketGroupV13, a: PortfolioAccountV13) -> (V13Result<()>, MarketGroupV13) {
    if shape_result(g, a) is Err {
        (shape_result(g, a), g)
    } else if g.materialized_portfolio_count == u64::MAX {
        (Err(V13Error::CounterOverflow), g)
    } else {
        (Ok(()), MarketGroupV13 { materialized_portfolio_count: (g.materialized_portfolio_count + 1) as u64, ..g })
    }
}

/// The account holds nothing and carries no stale flag.
pub open spec fn account_closable(a: PortfolioAccountV13) -> bool {
    &&& a.active_bitmap == 0
    &&& a.capital == 0
    &&& a.pnl == 0
    &&& a.reserved_pnl == 0
    &&& a.fee_credits == 0
    &&& !a.stale_state
    &&& !a.b_stale_state
}

/// Closing an account: only an empty, unflagged, well-shaped account is closed.
pub open spec fn close_post(g: MarketGroupV13, a: PortfolioAccountV13) -> (V13Result<()>, MarketGroupV13) {
    if shape_result(g, a) is Err {
        (shape_result(g, a), g)
    } else if !account_closable(a) {
        (Err(V13Error::LockActive), g)
    } else if g.materialized_portfolio_count == 0 {
        (Err(V13Error::CounterUnderflow), g)
    } else {
        (Ok(()), MarketGroupV13 { materialized_portfolio_count: (g.materialized_portfolio_count - 1) as u64, ..g })
    }
}

/// Marking an account stale: sets the flag once, invalidates its certificate
/// and counts it once in the market.
pub open spec fn mark_stale_post(g: MarketGroupV13, a: PortfolioAccountV13) -> Step {
    if !provenance_ok(g, a) {
        (Err(V13Error::ProvenanceMismatch), g, a)
    } else if a.stale_state {
        (Ok(()), g, a)
    } else {
        let a2 = PortfolioAccountV13 { stale_state: true, ..invalidate_cert(a) };
        if g.stale_certificate_count == u64::MAX {
            (Err(V13Error::CounterOverflow), g, a2)
        } else {
            (Ok(()), MarketGroupV13 { stale_certificate_count: (g.stale_certificate_count + 1) as u64, ..g }, a2)
        }
    }
}

/// Clearing the stale flag: uncounts a flagged account once.
pub open spec fn clear_stale_post(g: MarketGroupV13, a: PortfolioAccountV13) -> Step {
    if !provenance_ok(g, a) {
        (Err(V13Error::ProvenanceMismatch), g, a)
    } else if !a.stale_state {
        (Ok(()), g, a)
    } else {
        let a2 = PortfolioAccountV13 { stale_state: false, ..a };
        if g.stale_certificate_count == 0 {
            (Err(V13Error::CounterUnderflow), g, a2)
        } else {
            (Ok(()), MarketGroupV13 { stale_certificate_count: (g.stale_certificate_count - 1) as u64, ..g }, a2)
        }
    }
}

/// Marking an account B-stale: sets the flag once, invalidates its
/// certificate and counts it once in the market.
pub open spec fn mark_b_stale_post(g: MarketGroupV13, a: PortfolioAccountV13) -> Step {
    if !provenance_ok(g, a) {
        (Err(V13Error::ProvenanceMismatch), g, a)
    } else if a.b_stale_state {
        (Ok(()), g, a)
    } else {
        let a2 = PortfolioAccountV13 { b_stale_state: true, ..invalidate_cert(a) };
        if g.b_stale_account_count == u64::MAX {
            (Err(V13Error::CounterOverflow), g, a2)
        } else {
            (Ok(()), MarketGroupV13 { b_stale_account_count: (g.b_stale_account_count + 1) as u64, ..g }, a2)
        }
    }
}

/// Clearing the B-stale flag: refused while a leg is still B-stale.
pub open spec fn clear_b_stale_post(g: MarketGroupV13, a: PortfolioAccountV13) -> Step {
    if !provenance_ok(g, a) {
        (Err(V13Error::ProvenanceMismatch), g, a)
    } else if has_b_stale_leg_spec(a) {
        (Err(V13Error::BStale), g, a)
    } else if !a.b_stale_state {
        (Ok(()), g, a)
    } else {
        let a2 = PortfolioAccountV13 { b_stale_state: false, ..a };
        if g.b_stale_account_count == 0 {
            (Err(V13Error::CounterUnderflow), g, a2)
        } else {
            (Ok(()), MarketGroupV13 { b_stale_account_count: (g.b_stale_account_count - 1) as u64, ..g }, a2)
        }
    }
}

/// Scans the legs for an active B-stale one.
pub(crate) fn has_b_stale_leg(account: &PortfolioAccountV13) -> (r: bool)
    ensures
        r == has_b_stale_leg_spec(*account),
{
    let mut i: usize = 0;
    while i < V13_MAX_PORTFOLIO_ASSETS_N
        invariant
            i <= V13_MAX_PORTFOLIO_ASSETS_N,
            forall|j: int| 0 <= j < i ==> !(#[trigger] account.legs[j].active && account.legs[j].b_stale),
        decreases V13_MAX_PORTFOLIO_ASSETS_N - i,
    {
        let leg = account.legs[i];
        if leg.active && leg.b_stale {
            return true;
        }
        i = i + 1;
    }
    false
}

/// Scans the legs for an active stale one.
pub(crate) fn has_stale_leg(account: &PortfolioAccountV13) -> (r: bool)
    ensures
        r == has_stale_leg_spec(*account),
{
    let mut i: usize = 0;
    while i < V13_MAX_PORTFOLIO_ASSETS_N
        invariant
            i <= V13_MAX_PORTFOLIO_ASSETS_N,
            forall|j: int| 0 <= j < i ==> !(#[trigger] account.legs[j].active && account.legs[j].stale),
        decreases V13_MAX_PORTFOLIO_ASSETS_N - i,
    {
        let leg = account.legs[i];
        if leg.active && leg.stale {
            return true;
        }
        i = i + 1;
    }
    false
}

impl MarketGroupV13 {
    /// A fresh market under a validated public user-fund configuration.
    pub fn new(market_group_id: [u8; 32], config: V13Config) -> (r: V13Result<Self>)
        ensures
            r is Err <==> !config_valid(config),
            r is Err ==> r == Err::<Self, V13Error>(V13Error::InvalidConfig),
            r matches Ok(g) ==> {
                &&& g.market_group_id == market_group_id
                &&& g.config == config
                &&& g.vault == 0 && g.insurance == 0 && g.c_tot == 0
                &&& g.pnl_pos_tot == 0 && g.pnl_matured_pos_tot == 0
                &&& g.materialized_portfolio_count == 0 && g.stale_certificate_count == 0
                &&& g.b_stale_account_count == 0 && g.negative_pnl_account_count == 0
                &&& g.risk_epoch == 0 && g.oracle_epoch == 0 && g.funding_epoch == 0
                &&& g.slot_last == 0 && g.current_slot == 0
                &&& forall|i: int| 0 <= i < V13_MAX_PORTFOLIO_ASSETS_N ==> g.assets[i] == fresh_asset()
                &&& !g.bankruptcy_hlock_active && !g.threshold_stress_active
                &&& !g.active_bankrupt_close_present && !g.loss_stale_active
                &&& g.recovery_reason is None
            },
    {
        config.validate_public_user_fund()?;
        let asset = AssetStateV13::default();
        let assets = [asset; 16];
        let g = MarketGroupV13 {
            market_group_id,
            config,
            vault: 0,
            insurance: 0,
            c_tot: 0,
            pnl_pos_tot: 0,
            pnl_matured_pos_tot: 0,
            materialized_portfolio_count: 0,
            stale_certificate_count: 0,
            b_stale_account_count: 0,
            negative_pnl_account_count: 0,
            risk_epoch: 0,
            oracle_epoch: 0,
            funding_epoch: 0,
            slot_last: 0,
            current_slot: 0,
            assets,
            bankruptcy_hlock_active: false,
            threshold_stress_active: false,
            active_bankrupt_close_present: false,
            loss_stale_active: false,
            recovery_reason: None,
        };
        proof {
            broadcast use vstd::array::group_array_axioms;
            assert forall|i: int| 0 <= i < V13_MAX_PORTFOLIO_ASSETS_N implies g.assets[i]
                == fresh_asset() by {
                assert(g.assets@[i] == asset);
            }
        }
        Ok(g)
    }

    /// Counts a newly materialized, well-shaped account.
    pub fn create_portfolio_account(&mut self, account: &PortfolioAccountV13) -> (r: V13Result<()>)
        ensures
            (r, *final(self)) == create_post(*old(self), *account),
    {
        self.validate_account_shape(account)?;
        match self.materialized_portfolio_count.checked_add(1) {
            None => Err(V13Error::CounterOverflow),
            Some(v) => {
                self.materialized_portfolio_count = v;
                Ok(())
            },
        }
    }

    /// Uncounts an account that holds nothing and carries no stale flag.
    pub fn close_portfolio_account(&mut self, account: &PortfolioAccountV13) -> (r: V13Result<()>)
        ensures
            (r, *final(self)) == close_post(*old(self), *account),
    {
        self.validate_account_shape(account)?;
        if account.active_bitmap != 0 || account.capital != 0 || account.pnl != 0
            || account.reserved_pnl != 0 || account.fee_credits != 0 || account.stale_state
            || account.b_stale_state {
            return Err(V13Error::LockActive);
        }
        match self.materialized_portfolio_count.checked_sub(1) {
            None => Err(V13Error::CounterUnderflow),
            Some(v) => {
                self.materialized_portfolio_count = v;
                Ok(())
            },
        }
    }

    /// Marks the account stale (idempotent) and invalidates its certificate.
    pub fn mark_account_stale(&mut self, account: &mut PortfolioAccountV13) -> (r: V13Result<()>)
        ensures
            (r, *final(self), *final(account)) == mark_stale_post(*old(self), *old(account)),
    {
        self.validate_portfolio_account_provenance(account)?;
        if !account.stale_state {
            account.stale_state = true;
            account.health_cert.valid = false;
            match self.stale_certificate_count.checked_add(1) {
                None => return Err(V13Error::CounterOverflow),
                Some(v) => self.stale_certificate_count = v,
            }
        }
        Ok(())
    }

    /// Clears the account's stale flag (idempotent).
    pub fn clear_account_stale(&mut self, account: &mut PortfolioAccountV13) -> (r: V13Result<()>)
        ensures
            (r, *final(self), *final(account)) == clear_stale_post(*old(self), *old(account)),
    {
        self.validate_portfolio_account_provenance(account)?;
        if account.stale_state {
            account.stale_state = false;
            match self.stale_certificate_count.checked_sub(1) {
                None => return Err(V13Error::CounterUnderflow),
                Some(v) => self.stale_certificate_count = v,
            }
        }
        Ok(())
    }

    /// Marks the account B-stale (idempotent) and invalidates its certificate.
    pub fn mark_account_b_stale(&mut self, account: &mut PortfolioAccountV13) -> (r: V13Result<()>)
        ensures
            (r, *final(self), *final(account)) == mark_b_stale_post(*old(self), *old(account)),
    {
        self.validate_portfolio_account_provenance(account)?;
        if !account.b_stale_state {
            account.b_stale_state = true;
            account.health_cert.valid = false;
            match self.b_stale_account_count.checked_add(1) {
                None => return Err(V13Error::CounterOverflow),
                Some(v) => self.b_stale_account_count = v,
            }
        }
        Ok(())
    }

    /// Clears the account's B-stale flag once no leg is B-stale (idempotent).
    pub fn clear_account_b_stale(&mut self, account: &mut PortfolioAccountV13) -> (r: V13Result<()>)
        ensures
            (r, *final(self), *final(account)) == clear_b_stale_post(*old(self), *old(account)),
    {
        self.validate_portfolio_account_provenance(account)?;
        if has_b_stale_leg(account) {
            return Err(V13Error::BStale);
        }
        if account.b_stale_state {
            account.b_stale_state = false;
            match self.b_stale_account_count.checked_sub(1) {
                None => return Err(V13Error::CounterUnderflow),
                Some(v) => self.b_stale_account_count = v,
            }
        }
        Ok(())
    }
}

} // verus!
