//! Account-local risk engine primitives.
pub mod account_shape;
pub mod arith;
pub mod laws;
pub mod legs;
pub mod lifecycle;
pub mod public_state;
pub mod refresh;
pub mod settlement;
pub mod types;
pub mod value_laws;

pub use arith::{account_equity, risk_notional_ceil};
pub use types::{
    AccountBSettlementChunkV13, AssetStateV13, HLockLaneV13, HealthCertV13, MarketGroupV13,
    PermissionlessProgressOutcomeV13, PermissionlessRecoveryReasonV13, PortfolioAccountV13,
    PortfolioLegV13, ProvenanceHeaderV13, RiskScoreV13, SideModeV13, SideV13, V13Config, V13Error,
    V13Result, BPS_DENOM, V13_ACCOUNT_VERSION, V13_LAYOUT_DISCRIMINATOR,
    V13_MAX_PORTFOLIO_ASSETS_N,
};
