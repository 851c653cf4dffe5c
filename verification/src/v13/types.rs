//! The engine's data model: errors, lanes, configuration, per-asset state,
//! portfolio legs, health certificates, accounts and the market group.
use vstd::prelude::*;

verus! {

/// Number of leg slots in every portfolio account.
pub const V13_MAX_PORTFOLIO_ASSETS_N: usize = 16;
/// Layout discriminator stamped into every account header.
pub const V13_LAYOUT_DISCRIMINATOR: u16 = 13;
/// Account version stamped into every account header.
pub const V13_ACCOUNT_VERSION: u16 = 1;
/// Basis-point denominator (100%).
pub const BPS_DENOM: u64 = 10_000;

#[derive(Clone, Copy, Debug, PartialEq, Eq, Structural)]
pub enum V13Error {
    InvalidConfig,
    ArithmeticOverflow,
    ProvenanceMismatch,
    HiddenLeg,
    InvalidLeg,
    Stale,
    BStale,
    LockActive,
    NonProgress,
    RecoveryRequired,
    CounterOverflow,
    CounterUnderflow,
}

pub type V13Result<T> = Result<T, V13Error>;

/// Which h-lock horizon applies.
#[derive(Clone, Copy, Debug, PartialEq, Eq, Structural)]
pub enum HLockLaneV13 {
    HMin,
    HMax,
}

#[derive(Clone, Copy, Debug, PartialEq, Eq, Structural)]
pub enum SideV13 {
    Long,
    Short,
}

#[derive(Clone, Copy, Debug, PartialEq, Eq, Structural)]
pub enum SideModeV13 {
    Normal,
    DrainOnly,
    ResetPending,
}

#[derive(Clone, Copy, Debug, PartialEq, Eq, Structural)]
pub enum PermissionlessRecoveryReasonV13 {
    BelowProgressFloor,
    BlockedSegmentHeadroomOrRepresentability,
    AccountBSettlementCannotProgress,
    BIndexHeadroomExhausted,
    ActiveBankruptCloseCannotProgress,
    ExplicitLossOrDustAuditOverflow,
    OracleOrTargetUnavailableByAuthenticatedPolicy,
    CounterOrEpochOverflowDeclaredRecovery,
}

/// Binds a portfolio account to its market group, owner and layout.
#[derive(Clone, Copy, Debug, PartialEq, Eq)]
pub struct ProvenanceHeaderV13 {
    pub market_group_id: [u8; 32],
    pub portfolio_account_id: [u8; 32],
    pub owner: [u8; 32],
    pub version: u16,
    pub layout_discriminator: u16,
}

impl ProvenanceHeaderV13 {
    /// A header for the current account version and layout.
    pub fn new(market_group_id: [u8; 32], portfolio_account_id: [u8; 32], owner: [u8; 32]) -> (h:
        Self)
        ensures
            h.market_group_id == market_group_id,
            h.portfolio_account_id == portfolio_account_id,
            h.owner == owner,
            h.version == V13_ACCOUNT_VERSION,
            h.layout_discriminator == V13_LAYOUT_DISCRIMINATOR,
    {
        ProvenanceHeaderV13 {
            market_group_id,
            portfolio_account_id,
            owner,
            version: V13_ACCOUNT_VERSION,
            layout_discriminator: V13_LAYOUT_DISCRIMINATOR,
        }
    }
}

#[derive(Clone, Copy, Debug, PartialEq, Eq)]
pub struct V13Config {
    pub max_portfolio_assets: u8,
    pub h_min: u64,
    pub h_max: u64,
    pub maintenance_margin_bps: u64,
    pub initial_margin_bps: u64,
    pub max_trading_fee_bps: u64,
    pub max_account_b_settlement_chunks: u64,
    pub max_bankrupt_close_chunks: u64,
    pub public_b_chunk_atoms: u128,
    pub permissionless_recovery_enabled: bool,
    pub stale_certificate_penalty_enabled: bool,
    pub full_refresh_required_for_favorable_actions: bool,
    pub public_liveness_profile_crank_forward: bool,
}

/// The configuration profile admitted for public user-fund markets.
pub open spec fn config_valid(c: V13Config) -> bool {
    &&& 0 < c.max_portfolio_assets <= V13_MAX_PORTFOLIO_ASSETS_N
    &&& 0 < c.h_max
    &&& c.h_min <= c.h_max
    &&& c.maintenance_margin_bps <= c.initial_margin_bps
    &&& c.initial_margin_bps <= BPS_DENOM
    &&& c.max_trading_fee_bps <= BPS_DENOM
    &&& c.max_account_b_settlement_chunks != 0
    &&& c.max_bankrupt_close_chunks != 0
    &&& c.public_b_chunk_atoms != 0
    &&& c.permissionless_recovery_enabled
    &&& c.stale_certificate_penalty_enabled
    &&& c.full_refresh_required_for_favorable_actions
    &&& c.public_liveness_profile_crank_forward
}

impl V13Config {
    /// The public user-fund profile with the given width and h-lock horizons.
    pub fn public_user_fund(max_portfolio_assets: u8, h_min: u64, h_max: u64) -> (c: Self)
        ensures
            c.max_portfolio_assets == max_portfolio_assets,
            c.h_min == h_min,
            c.h_max == h_max,
            c.maintenance_margin_bps == BPS_DENOM,
            c.initial_margin_bps == BPS_DENOM,
            c.max_trading_fee_bps == 0,
            c.max_account_b_settlement_chunks == 1,
            c.max_bankrupt_close_chunks == 1,
            c.public_b_chunk_atoms == crate::MAX_VAULT_TVL,
            c.permissionless_recovery_enabled,
            c.stale_certificate_penalty_enabled,
            c.full_refresh_required_for_favorable_actions,
            c.public_liveness_profile_crank_forward,
            config_valid(c) <==> (0 < max_portfolio_assets <= V13_MAX_PORTFOLIO_ASSETS_N && 0 < h_max
                && h_min <= h_max),
    {
        V13Config {
            max_portfolio_assets,
            h_min,
            h_max,
            maintenance_margin_bps: BPS_DENOM,
            initial_margin_bps: BPS_DENOM,
            max_trading_fee_bps: 0,
            max_account_b_settlement_chunks: 1,
            max_bankrupt_close_chunks: 1,
            public_b_chunk_atoms: crate::MAX_VAULT_TVL,
            permissionless_recovery_enabled: true,
            stale_certificate_penalty_enabled: true,
            full_refresh_required_for_favorable_actions: true,
            public_liveness_profile_crank_forward: true,
        }
    }

    /// Accepts exactly the configurations of the public user-fund profile.
    pub fn validate_public_user_fund(&self) -> (r: V13Result<()>)
        ensures
            r == (if config_valid(*self) {
                Ok(())
            } else {
                Err(V13Error::InvalidConfig)
            }),
    {
        if self.max_portfolio_assets == 0 || self.max_portfolio_assets as usize
            > V13_MAX_PORTFOLIO_ASSETS_N {
            return Err(V13Error::InvalidConfig);
        }
        if self.h_max == 0 || self.h_min > self.h_max {
            return Err(V13Error::InvalidConfig);
        }
        if self.maintenance_margin_bps > self.initial_margin_bps || self.initial_margin_bps
            > BPS_DENOM || self.max_trading_fee_bps > BPS_DENOM
            || self.max_account_b_settlement_chunks == 0 || self.max_bankrupt_close_chunks == 0
            || self.public_b_chunk_atoms == 0 {
            return Err(V13Error::InvalidConfig);
        }
        if !self.permissionless_recovery_enabled || !self.stale_certificate_penalty_enabled
            || !self.full_refresh_required_for_favorable_actions
            || !self.public_liveness_profile_crank_forward {
            return Err(V13Error::InvalidConfig);
        }
        Ok(())
    }
}

/// Per-asset A/K/F/B index state, open interest and loss-weight bookkeeping.
#[derive(Clone, Copy, Debug, PartialEq, Eq)]
pub struct AssetStateV13 {
    pub raw_oracle_target_price: u64,
    pub effective_price: u64,
    pub fund_px_last: u64,
    pub a_long: u128,
    pub a_short: u128,
    pub k_long: i128,
    pub k_short: i128,
    pub f_long_num: i128,
    pub f_short_num: i128,
    pub b_long_num: u128,
    pub b_short_num: u128,
    pub b_epoch_start_long_num: u128,
    pub b_epoch_start_short_num: u128,
    pub oi_eff_long_q: u128,
    pub oi_eff_short_q: u128,
    pub stored_pos_count_long: u64,
    pub stored_pos_count_short: u64,
    pub stale_account_count_long: u64,
    pub stale_account_count_short: u64,
    pub loss_weight_sum_long: u128,
    pub loss_weight_sum_short: u128,
    pub social_loss_remainder_long_num: u128,
    pub social_loss_remainder_short_num: u128,
    pub social_loss_dust_long_num: u128,
    pub social_loss_dust_short_num: u128,
    pub explicit_unallocated_loss_long: u128,
    pub explicit_unallocated_loss_short: u128,
    pub epoch_long: u64,
    pub epoch_short: u64,
    pub mode_long: SideModeV13,
    pub mode_short: SideModeV13,
}

/// A fresh asset: unit prices, neutral A, zero indices and counters.
pub open spec fn fresh_asset() -> AssetStateV13 {
    AssetStateV13 {
        raw_oracle_target_price: 1,
        effective_price: 1,
        fund_px_last: 1,
        a_long: crate::ADL_ONE,
        a_short: crate::ADL_ONE,
        k_long: 0,
        k_short: 0,
        f_long_num: 0,
        f_short_num: 0,
        b_long_num: 0,
        b_short_num: 0,
        b_epoch_start_long_num: 0,
        b_epoch_start_short_num: 0,
        oi_eff_long_q: 0,
        oi_eff_short_q: 0,
        stored_pos_count_long: 0,
        stored_pos_count_short: 0,
        stale_account_count_long: 0,
        stale_account_count_short: 0,
        loss_weight_sum_long: 0,
        loss_weight_sum_short: 0,
        social_loss_remainder_long_num: 0,
        social_loss_remainder_short_num: 0,
        social_loss_dust_long_num: 0,
        social_loss_dust_short_num: 0,
        explicit_unallocated_loss_long: 0,
        explicit_unallocated_loss_short: 0,
        epoch_long: 0,
        epoch_short: 0,
        mode_long: SideModeV13::Normal,
        mode_short: SideModeV13::Normal,
    }
}

impl Default for AssetStateV13 {
    fn default() -> (r: Self)
        ensures
            r == fresh_asset(),
    {
        AssetStateV13 {
            raw_oracle_target_price: 1,
            effective_price: 1,
            fund_px_last: 1,
            a_long: crate::ADL_ONE,
            a_short: crate::ADL_ONE,
            k_long: 0,
            k_short: 0,
            f_long_num: 0,
            f_short_num: 0,
            b_long_num: 0,
            b_short_num: 0,
            b_epoch_start_long_num: 0,
            b_epoch_start_short_num: 0,
            oi_eff_long_q: 0,
            oi_eff_short_q: 0,
            stored_pos_count_long: 0,
            stored_pos_count_short: 0,
            stale_account_count_long: 0,
            stale_account_count_short: 0,
            loss_weight_sum_long: 0,
            loss_weight_sum_short: 0,
            social_loss_remainder_long_num: 0,
            social_loss_remainder_short_num: 0,
            social_loss_dust_long_num: 0,
            social_loss_dust_short_num: 0,
            explicit_unallocated_loss_long: 0,
            explicit_unallocated_loss_short: 0,
            epoch_long: 0,
            epoch_short: 0,
            mode_long: SideModeV13::Normal,
            mode_short: SideModeV13::Normal,
        }
    }
}

/// One leg slot of a portfolio account.
#[derive(Clone, Copy, Debug, PartialEq, Eq, Structural)]
pub struct PortfolioLegV13 {
    pub active: bool,
    pub side: SideV13,
    pub basis_pos_q: i128,
    pub a_basis: u128,
    pub k_snap: i128,
    pub f_snap: i128,
    pub epoch_snap: u64,
    pub loss_weight: u128,
    pub b_snap: u128,
    pub b_rem: u128,
    pub b_epoch_snap: u64,
    pub b_stale: bool,
    pub stale: bool,
}

/// The value of an unused leg slot.
pub open spec fn empty_leg() -> PortfolioLegV13 {
    PortfolioLegV13 {
        active: false,
        side: SideV13::Long,
        basis_pos_q: 0,
        a_basis: crate::ADL_ONE,
        k_snap: 0,
        f_snap: 0,
        epoch_snap: 0,
        loss_weight: 0,
        b_snap: 0,
        b_rem: 0,
        b_epoch_snap: 0,
        b_stale: false,
        stale: false,
    }
}

impl PortfolioLegV13 {
    /// The value of an unused leg slot.
    pub fn empty() -> (r: Self)
        ensures
            r == empty_leg(),
    {
        PortfolioLegV13 {
            active: false,
            side: SideV13::Long,
            basis_pos_q: 0,
            a_basis: crate::ADL_ONE,
            k_snap: 0,
            f_snap: 0,
            epoch_snap: 0,
            loss_weight: 0,
            b_snap: 0,
            b_rem: 0,
            b_epoch_snap: 0,
            b_stale: false,
            stale: false,
        }
    }
}

impl Default for PortfolioLegV13 {
    fn default() -> (r: Self)
        ensures
            r == empty_leg(),
    {
        PortfolioLegV13::empty()
    }
}

/// A health certificate produced by a full account refresh.
#[derive(Clone, Copy, Debug, PartialEq, Eq, Default)]
pub struct HealthCertV13 {
    pub certified_equity: i128,
    pub certified_initial_req: u128,
    pub certified_maintenance_req: u128,
    pub certified_liq_deficit: u128,
    pub certified_worst_case_loss: u128,
    pub cert_oracle_epoch: u64,
    pub cert_funding_epoch: u64,
    pub cert_risk_epoch: u64,
    pub active_bitmap_at_cert: u32,
    pub valid: bool,
}

/// The certificate of an account that was never refreshed.
pub open spec fn blank_cert() -> HealthCertV13 {
    HealthCertV13 {
        certified_equity: 0,
        certified_initial_req: 0,
        certified_maintenance_req: 0,
        certified_liq_deficit: 0,
        certified_worst_case_loss: 0,
        cert_oracle_epoch: 0,
        cert_funding_epoch: 0,
        cert_risk_epoch: 0,
        active_bitmap_at_cert: 0,
        valid: false,
    }
}

/// A portfolio account: provenance, balances, the active bitmap and its legs.
#[derive(Clone, Copy, Debug, PartialEq, Eq)]
pub struct PortfolioAccountV13 {
    pub provenance_header: ProvenanceHeaderV13,
    pub owner: [u8; 32],
    pub capital: u128,
    pub pnl: i128,
    pub reserved_pnl: u128,
    pub fee_credits: i128,
    pub active_bitmap: u32,
    pub legs: [PortfolioLegV13; 16],
    pub health_cert: HealthCertV13,
    pub stale_state: bool,
    pub b_stale_state: bool,
    pub rebalance_lock: bool,
    pub liquidation_lock: bool,
}

impl PortfolioAccountV13 {
    /// An empty account owned by the header's owner: no balance, no leg.
    pub fn empty(header: ProvenanceHeaderV13) -> (a: Self)
        ensures
            a.provenance_header == header,
            a.owner == header.owner,
            a.capital == 0,
            a.pnl == 0,
            a.reserved_pnl == 0,
            a.fee_credits == 0,
            a.active_bitmap == 0,
            forall|i: int| 0 <= i < V13_MAX_PORTFOLIO_ASSETS_N ==> a.legs[i] == empty_leg(),
            a.health_cert == blank_cert(),
            !a.stale_state,
            !a.b_stale_state,
            !a.rebalance_lock,
            !a.liquidation_lock,
    {
        let leg = PortfolioLegV13::empty();
        let legs = [leg; 16];
        let a = PortfolioAccountV13 {
            provenance_header: header,
            owner: header.owner,
            capital: 0,
            pnl: 0,
            reserved_pnl: 0,
            fee_credits: 0,
            active_bitmap: 0,
            legs,
            health_cert: HealthCertV13 {
                certified_equity: 0,
                certified_initial_req: 0,
                certified_maintenance_req: 0,
                certified_liq_deficit: 0,
                certified_worst_case_loss: 0,
                cert_oracle_epoch: 0,
                cert_funding_epoch: 0,
                cert_risk_epoch: 0,
                active_bitmap_at_cert: 0,
                valid: false,
            },
            stale_state: false,
            b_stale_state: false,
            rebalance_lock: false,
            liquidation_lock: false,
        };
        proof {
            broadcast use vstd::array::group_array_axioms;
            assert forall|i: int| 0 <= i < V13_MAX_PORTFOLIO_ASSETS_N implies a.legs[i]
                == empty_leg() by {
                assert(a.legs@[i] == leg);
            }
        }
        a
    }
}

/// Outcome of one account-local B settlement chunk.
#[derive(Clone, Copy, Debug, PartialEq, Eq, Structural)]
pub struct AccountBSettlementChunkV13 {
    pub delta_b: u128,
    pub loss: u128,
    pub new_remainder: u128,
    pub remaining_after: u128,
}

/// Liquidation risk score, ordered lexicographically by its fields.
#[derive(Clone, Copy, Debug, PartialEq, Eq, PartialOrd, Ord)]
pub struct RiskScoreV13 {
    pub certified_liq_deficit: u128,
    pub unsettled_b_loss_bound: u128,
    pub stale_loss_bound: u128,
    pub gross_risk_notional: u128,
    pub active_leg_count: u32,
}

/// Lexicographic strict order on risk scores, field by field.
pub open spec fn score_lt(a: RiskScoreV13, b: RiskScoreV13) -> bool {
    ||| a.certified_liq_deficit < b.certified_liq_deficit
    ||| a.certified_liq_deficit == b.certified_liq_deficit && a.unsettled_b_loss_bound
        < b.unsettled_b_loss_bound
    ||| a.certified_liq_deficit == b.certified_liq_deficit && a.unsettled_b_loss_bound
        == b.unsettled_b_loss_bound && a.stale_loss_bound < b.stale_loss_bound
    ||| a.certified_liq_deficit == b.certified_liq_deficit && a.unsettled_b_loss_bound
        == b.unsettled_b_loss_bound && a.stale_loss_bound == b.stale_loss_bound
        && a.gross_risk_notional < b.gross_risk_notional
    ||| a.certified_liq_deficit == b.certified_liq_deficit && a.unsettled_b_loss_bound
        == b.unsettled_b_loss_bound && a.stale_loss_bound == b.stale_loss_bound
        && a.gross_risk_notional == b.gross_risk_notional && a.active_leg_count
        < b.active_leg_count
}

impl RiskScoreV13 {
    /// True when this score is lexicographically smaller than `before`.
    pub fn strictly_reduces_from(self, before: Self) -> (r: bool)
        ensures
            r == score_lt(self, before),
    {
        if self.certified_liq_deficit != before.certified_liq_deficit {
            return self.certified_liq_deficit < before.certified_liq_deficit;
        }
        if self.unsettled_b_loss_bound != before.unsettled_b_loss_bound {
            return self.unsettled_b_loss_bound < before.unsettled_b_loss_bound;
        }
        if self.stale_loss_bound != before.stale_loss_bound {
            return self.stale_loss_bound < before.stale_loss_bound;
        }
        if self.gross_risk_notional != before.gross_risk_notional {
            return self.gross_risk_notional < before.gross_risk_notional;
        }
        self.active_leg_count < before.active_leg_count
    }
}

#[derive(Clone, Copy, Debug, PartialEq, Eq, Structural)]
pub enum PermissionlessProgressOutcomeV13 {
    AccountBChunk(AccountBSettlementChunkV13),
    RecoveryDeclared(PermissionlessRecoveryReasonV13),
}

/// A market group: configuration, global balances and counters, epochs,
/// per-asset state and the market-wide lock flags.
#[derive(Clone, Copy, Debug, PartialEq, Eq)]
pub struct MarketGroupV13 {
    pub market_group_id: [u8; 32],
    pub config: V13Config,
    pub vault: u128,
    pub insurance: u128,
    pub c_tot: u128,
    pub pnl_pos_tot: u128,
    pub pnl_matured_pos_tot: u128,
    pub materialized_portfolio_count: u64,
    pub stale_certificate_count: u64,
    pub b_stale_account_count: u64,
    pub negative_pnl_account_count: u64,
    pub risk_epoch: u64,
    pub oracle_epoch: u64,
    pub funding_epoch: u64,
    pub slot_last: u64,
    pub current_slot: u64,
    pub assets: [AssetStateV13; 16],
    pub bankruptcy_hlock_active: bool,
    pub threshold_stress_active: bool,
    pub active_bankrupt_close_present: bool,
    pub loss_stale_active: bool,
    pub recovery_reason: Option<PermissionlessRecoveryReasonV13>,
}

} // verus!
