//! Properties that pin down the values the engine computes: which side's
//! indices a leg reads, the certified requirements, the B-loss bound and the
//! liquidation order, each stated over the raw fields of the inputs.
use vstd::prelude::*;
use crate::v13::account_shape::{shape_result, slot_result, slots_from};
use crate::v13::arith::{abs_int, bit_at, equity_result, popcount_below, popcount};
use crate::v13::legs::{attach_post, mark_leg_b_stale_post};
use crate::v13::lifecycle::{
    clear_b_stale_post, clear_stale_post, close_post, create_post, mark_b_stale_post,
    mark_stale_post,
};
use crate::v13::public_state::{invariants_result, recovery_post};
use crate::v13::refresh::{
    b_loss_below, b_loss_bound, favorable_result, progress_result,
    refresh_result, refresh_sum, score_result,
};
use crate::v13::settlement::{chunk_result, settle_post};
use crate::v13::types::{
    config_valid, AccountBSettlementChunkV13, MarketGroupV13, PermissionlessProgressOutcomeV13,
    PermissionlessRecoveryReasonV13, PortfolioAccountV13, PortfolioLegV13, SideModeV13, SideV13,
    V13Config, V13Error, V13_MAX_PORTFOLIO_ASSETS_N,
};
use crate::{
    ADL_ONE, MAX_OI_SIDE_Q, MAX_ORACLE_PRICE, MAX_POSITION_ABS_Q, MAX_VAULT_TVL, MIN_A_SIDE,
    POS_SCALE, SOCIAL_LOSS_DEN, SOCIAL_WEIGHT_SCALE,
};

verus! {

/// B settlement of a leg runs towards its own side's B index: the advance plus
/// what remains is the side's current index minus the leg's snapshot in the
/// leg's epoch, or the side's epoch-start index after exactly one pending
/// reset; the other side's indices play no part.
pub proof fn law_b_settles_toward_own_side_index(g: MarketGroupV13, a: PortfolioAccountV13, idx: int, budget: u128)
    requires
        0 <= idx < V13_MAX_PORTFOLIO_ASSETS_N,
        chunk_result(g, a, idx, budget) is Ok,
    ensures
        a.legs[idx].side == SideV13::Short && a.legs[idx].b_epoch_snap == g.assets[idx].epoch_short ==>
            chunk_result(g, a, idx, budget)->Ok_0.delta_b + chunk_result(g, a, idx, budget)->Ok_0.remaining_after
                == g.assets[idx].b_short_num - a.legs[idx].b_snap,
        a.legs[idx].side == SideV13::Short && a.legs[idx].b_epoch_snap != g.assets[idx].epoch_short ==> {
            &&& g.assets[idx].mode_short == SideModeV13::ResetPending
            &&& a.legs[idx].b_epoch_snap + 1 == g.assets[idx].epoch_short
            &&& chunk_result(g, a, idx, budget)->Ok_0.delta_b + chunk_result(g, a, idx, budget)->Ok_0.remaining_after
                == g.assets[idx].b_epoch_start_short_num - a.legs[idx].b_snap
        },
        a.legs[idx].side == SideV13::Long && a.legs[idx].b_epoch_snap == g.assets[idx].epoch_long ==>
            chunk_result(g, a, idx, budget)->Ok_0.delta_b + chunk_result(g, a, idx, budget)->Ok_0.remaining_after
                == g.assets[idx].b_long_num - a.legs[idx].b_snap,
        a.legs[idx].side == SideV13::Long && a.legs[idx].b_epoch_snap != g.assets[idx].epoch_long ==> {
            &&& g.assets[idx].mode_long == SideModeV13::ResetPending
            &&& a.legs[idx].b_epoch_snap + 1 == g.assets[idx].epoch_long
            &&& chunk_result(g, a, idx, budget)->Ok_0.delta_b + chunk_result(g, a, idx, budget)->Ok_0.remaining_after
                == g.assets[idx].b_epoch_start_long_num - a.legs[idx].b_snap
        },
{
    crate::v13::laws::law_b_chunk_conserves_booked_loss(g, a, idx, budget);
}

/// A leg attached on a side snapshots that side's indices (A, K, F, B and
/// epoch), and therefore owes no B right after it is attached: the next
/// settlement chunk of the new leg advances nothing.
pub proof fn law_attach_snapshots_own_side(g: MarketGroupV13, a: PortfolioAccountV13, idx: int, side: SideV13, basis: i128, budget: u128)
    requires
        0 <= idx < V13_MAX_PORTFOLIO_ASSETS_N,
        attach_post(g, a, idx, side, basis).0 is Ok,
    ensures
        attach_post(g, a, idx, side, basis).2.legs[idx].active,
        attach_post(g, a, idx, side, basis).2.legs[idx].side == side,
        attach_post(g, a, idx, side, basis).2.legs[idx].basis_pos_q == basis,
        side == SideV13::Short ==> {
            let leg = attach_post(g, a, idx, side, basis).2.legs[idx];
            &&& leg.a_basis == g.assets[idx].a_short
            &&& leg.k_snap == g.assets[idx].k_short
            &&& leg.f_snap == g.assets[idx].f_short_num
            &&& leg.b_snap == g.assets[idx].b_short_num
            &&& leg.epoch_snap == g.assets[idx].epoch_short
            &&& leg.b_epoch_snap == g.assets[idx].epoch_short
        },
        side == SideV13::Long ==> {
            let leg = attach_post(g, a, idx, side, basis).2.legs[idx];
            &&& leg.a_basis == g.assets[idx].a_long
            &&& leg.k_snap == g.assets[idx].k_long
            &&& leg.f_snap == g.assets[idx].f_long_num
            &&& leg.b_snap == g.assets[idx].b_long_num
            &&& leg.epoch_snap == g.assets[idx].epoch_long
            &&& leg.b_epoch_snap == g.assets[idx].epoch_long
        },
        chunk_result(attach_post(g, a, idx, side, basis).1, attach_post(g, a, idx, side, basis).2, idx, budget)
            == Ok::<AccountBSettlementChunkV13, V13Error>(AccountBSettlementChunkV13 {
                delta_b: 0,
                loss: 0,
                new_remainder: 0,
                remaining_after: 0,
            }),
{
    broadcast use vstd::array::group_array_axioms;
    let s = attach_post(g, a, idx, side, basis);
    assert(s.1.assets[idx] == crate::v13::legs::book_leg(g.assets[idx], side, abs_int(basis as int), crate::v13::legs::leg_weight(basis, crate::v13::legs::side_snapshot(g.assets[idx], side).0)).1);
}

/// Sum, over the active legs among slots `0..k`, of the leg's size times its
/// own asset's effective price, divided by `POS_SCALE` and rounded up.
pub open spec fn priced_notional(a: PortfolioAccountV13, prices: [u64; 16], k: int) -> int
    decreases k,
{
    if k <= 0 {
        0
    } else {
        priced_notional(a, prices, k - 1) + if a.legs[k - 1].active {
            (abs_int(a.legs[k - 1].basis_pos_q as int) * prices[k - 1] + POS_SCALE - 1) / (POS_SCALE as int)
        } else {
            0
        }
    }
}

proof fn lemma_refresh_sum_is_priced_notional(n: int, a: PortfolioAccountV13, prices: [u64; 16], i: int, acc: int)
    requires
        0 <= i <= n,
        refresh_sum(n, a, prices, i, acc) is Ok,
        0 <= acc <= u128::MAX,
    ensures
        refresh_sum(n, a, prices, i, acc)->Ok_0 == acc + priced_notional(a, prices, n) - priced_notional(a, prices, i),
        0 <= refresh_sum(n, a, prices, i, acc)->Ok_0 <= u128::MAX,
    decreases n - i,
{
    if i < n {
        if a.legs[i].active {
            assert(abs_int(a.legs[i].basis_pos_q as int) * prices[i] >= 0) by (nonlinear_arith)
                requires
                    abs_int(a.legs[i].basis_pos_q as int) >= 0,
                    prices[i] >= 0,
            ;
            vstd::arithmetic::div_mod::lemma_div_pos_is_pos(
                abs_int(a.legs[i].basis_pos_q as int) * prices[i] + POS_SCALE - 1,
                POS_SCALE as int,
            );
            lemma_refresh_sum_is_priced_notional(
                n,
                a,
                prices,
                i + 1,
                acc + (abs_int(a.legs[i].basis_pos_q as int) * prices[i] + POS_SCALE - 1) / (POS_SCALE as int),
            );
        } else {
            lemma_refresh_sum_is_priced_notional(n, a, prices, i + 1, acc);
        }
    }
}

/// A full refresh certifies, as initial requirement, maintenance requirement
/// and worst-case loss alike, the sum over the active legs of each leg's
/// rounded-up notional at its own asset's price; equity is capital plus PnL
/// plus (non-positive) fee credits, and the deficit is the whole negative
/// equity, else the shortfall below the maintenance requirement.
pub proof fn law_refresh_prices_each_leg_at_its_own_price(g: MarketGroupV13, a: PortfolioAccountV13, prices: [u64; 16])
    requires
        refresh_result(g, a, prices) is Ok,
    ensures
        refresh_result(g, a, prices)->Ok_0.certified_maintenance_req
            == priced_notional(a, prices, g.config.max_portfolio_assets as int),
        refresh_result(g, a, prices)->Ok_0.certified_initial_req
            == priced_notional(a, prices, g.config.max_portfolio_assets as int),
        refresh_result(g, a, prices)->Ok_0.certified_worst_case_loss
            == priced_notional(a, prices, g.config.max_portfolio_assets as int),
        refresh_result(g, a, prices)->Ok_0.certified_equity == a.capital + a.pnl + a.fee_credits,
        refresh_result(g, a, prices)->Ok_0.certified_equity < 0 ==>
            refresh_result(g, a, prices)->Ok_0.certified_liq_deficit == -(a.capital + a.pnl + a.fee_credits),
        refresh_result(g, a, prices)->Ok_0.certified_equity >= 0 ==>
            refresh_result(g, a, prices)->Ok_0.certified_liq_deficit == if priced_notional(a, prices, g.config.max_portfolio_assets as int) > a.capital + a.pnl + a.fee_credits {
                priced_notional(a, prices, g.config.max_portfolio_assets as int) - (a.capital + a.pnl + a.fee_credits)
            } else {
                0
            },
        refresh_result(g, a, prices)->Ok_0.valid,
        refresh_result(g, a, prices)->Ok_0.cert_oracle_epoch == g.oracle_epoch,
        refresh_result(g, a, prices)->Ok_0.cert_funding_epoch == g.funding_epoch,
        refresh_result(g, a, prices)->Ok_0.cert_risk_epoch == g.risk_epoch,
        refresh_result(g, a, prices)->Ok_0.active_bitmap_at_cert == a.active_bitmap,
{
    let n = g.config.max_portfolio_assets as int;
    assert(n >= 0);
    lemma_refresh_sum_is_priced_notional(n, a, prices, 0, 0);
}

/// Slot validation agrees on two accounts whose slots validate alike.
proof fn lemma_slots_agree(n: int, a: PortfolioAccountV13, b: PortfolioAccountV13, i: int)
    requires
        0 <= i,
        forall|j: int| 0 <= j < V13_MAX_PORTFOLIO_ASSETS_N ==> #[trigger] slot_result(n, a, j) == slot_result(n, b, j),
    ensures
        slots_from(n, a, i) == slots_from(n, b, i),
    decreases V13_MAX_PORTFOLIO_ASSETS_N - i,
{
    if i < V13_MAX_PORTFOLIO_ASSETS_N {
        assert(slot_result(n, a, i) == slot_result(n, b, i));
        lemma_slots_agree(n, a, b, i + 1);
    }
}

proof fn lemma_b_loss_add_leg(a: PortfolioAccountV13, b: PortfolioAccountV13, j: int, k: int)
    requires
        0 <= j < V13_MAX_PORTFOLIO_ASSETS_N,
        forall|i: int| 0 <= i < V13_MAX_PORTFOLIO_ASSETS_N && i != j ==> #[trigger] b.legs[i] == a.legs[i],
        a.legs[j].active && !a.legs[j].b_stale,
        b.legs[j] == (PortfolioLegV13 { b_stale: true, ..a.legs[j] }),
        0 <= k <= V13_MAX_PORTFOLIO_ASSETS_N,
    ensures
        b_loss_below(b, k) == b_loss_below(a, k) + if k > j { a.legs[j].loss_weight as int } else { 0 },
    decreases k,
{
    if k > 0 {
        lemma_b_loss_add_leg(a, b, j, k - 1);
        if k - 1 != j {
            assert(b.legs[k - 1] == a.legs[k - 1]);
        }
    }
}

/// The unsettled B-loss bound adds up the loss weights of the active B-stale
/// legs: an account with no B-stale leg has bound zero, and flagging one more
/// active leg B-stale raises the bound by exactly that leg's weight.
pub proof fn law_b_loss_bound_adds_leg_weights(g: MarketGroupV13, a: PortfolioAccountV13, b: PortfolioAccountV13, j: int)
    requires
        0 <= j < V13_MAX_PORTFOLIO_ASSETS_N,
        score_result(g, a) is Ok,
        forall|i: int| 0 <= i < V13_MAX_PORTFOLIO_ASSETS_N && i != j ==> #[trigger] b.legs[i] == a.legs[i],
        a.legs[j].active && !a.legs[j].b_stale,
        b.legs[j] == (PortfolioLegV13 { b_stale: true, ..a.legs[j] }),
        b == (PortfolioAccountV13 { legs: b.legs, ..a }),
    ensures
        (forall|i: int| 0 <= i < V13_MAX_PORTFOLIO_ASSETS_N ==> !(#[trigger] a.legs[i].active && a.legs[i].b_stale))
            ==> score_result(g, a)->Ok_0.unsettled_b_loss_bound == 0,
        score_result(g, a)->Ok_0.unsettled_b_loss_bound + a.legs[j].loss_weight <= u128::MAX ==> {
            &&& score_result(g, b) is Ok
            &&& score_result(g, b)->Ok_0.unsettled_b_loss_bound
                == score_result(g, a)->Ok_0.unsettled_b_loss_bound + a.legs[j].loss_weight
        },
{
    lemma_b_loss_add_leg(a, b, j, V13_MAX_PORTFOLIO_ASSETS_N as int);
    let n = g.config.max_portfolio_assets as int;
    assert forall|i: int| 0 <= i < V13_MAX_PORTFOLIO_ASSETS_N implies #[trigger] slot_result(n, a, i) == slot_result(n, b, i) by {
        if i != j {
            assert(b.legs[i] == a.legs[i]);
        }
    }
    lemma_slots_agree(n, a, b, 0);
    assert(shape_result(g, b) == shape_result(g, a));
    lemma_b_loss_nonneg(a, V13_MAX_PORTFOLIO_ASSETS_N as int);
    assert(b.health_cert == a.health_cert);
    assert(b_loss_bound(b) == b_loss_bound(a) + a.legs[j].loss_weight);
    if forall|i: int| 0 <= i < V13_MAX_PORTFOLIO_ASSETS_N ==> !(#[trigger] a.legs[i].active && a.legs[i].b_stale) {
        lemma_b_loss_zero(a, V13_MAX_PORTFOLIO_ASSETS_N as int);
    }
}

proof fn lemma_b_loss_nonneg(a: PortfolioAccountV13, k: int)
    ensures
        b_loss_below(a, k) >= 0,
    decreases k,
{
    if k > 0 {
        lemma_b_loss_nonneg(a, k - 1);
    }
}

proof fn lemma_b_loss_zero(a: PortfolioAccountV13, k: int)
    requires
        0 <= k <= V13_MAX_PORTFOLIO_ASSETS_N,
        forall|i: int| 0 <= i < V13_MAX_PORTFOLIO_ASSETS_N ==> !(#[trigger] a.legs[i].active && a.legs[i].b_stale),
    ensures
        b_loss_below(a, k) == 0,
    decreases k,
{
    if k > 0 {
        lemma_b_loss_zero(a, k - 1);
        assert(!(a.legs[k - 1].active && a.legs[k - 1].b_stale));
    }
}

/// A liquidation step is progress exactly when the later risk score is
/// lexicographically smaller: first by certified deficit, then B-loss bound,
/// stale bound, gross notional and active leg count. In particular a step that
/// raises the certified deficit is never progress.
pub proof fn law_liquidation_progress_is_lexicographic_reduction(g: MarketGroupV13, before: PortfolioAccountV13, after: PortfolioAccountV13)
    requires
        score_result(g, before) is Ok,
        score_result(g, after) is Ok,
    ensures
        progress_result(g, before, after) is Ok <==> {
            let b = score_result(g, before)->Ok_0;
            let s = score_result(g, after)->Ok_0;
            ||| s.certified_liq_deficit < b.certified_liq_deficit
            ||| s.certified_liq_deficit == b.certified_liq_deficit && s.unsettled_b_loss_bound < b.unsettled_b_loss_bound
            ||| s.certified_liq_deficit == b.certified_liq_deficit && s.unsettled_b_loss_bound == b.unsettled_b_loss_bound
                && s.stale_loss_bound < b.stale_loss_bound
            ||| s.certified_liq_deficit == b.certified_liq_deficit && s.unsettled_b_loss_bound == b.unsettled_b_loss_bound
                && s.stale_loss_bound == b.stale_loss_bound && s.gross_risk_notional < b.gross_risk_notional
            ||| s.certified_liq_deficit == b.certified_liq_deficit && s.unsettled_b_loss_bound == b.unsettled_b_loss_bound
                && s.stale_loss_bound == b.stale_loss_bound && s.gross_risk_notional == b.gross_risk_notional
                && s.active_leg_count < b.active_leg_count
        },
        score_result(g, after)->Ok_0.certified_liq_deficit > score_result(g, before)->Ok_0.certified_liq_deficit
            ==> progress_result(g, before, after) == Err::<(), V13Error>(V13Error::NonProgress),
        progress_result(g, before, after) is Err ==> progress_result(g, before, after) == Err::<(), V13Error>(V13Error::NonProgress),
{
}

/// The positive part of a PnL.
pub open spec fn pos_part(v: int) -> int {
    if v > 0 { v } else { 0 }
}

/// The stale and B-stale flags and the portfolio count each move their market
/// counter by exactly one when they change state, and nothing at all when
/// they do not; every other field of the market is left alone.
pub proof fn law_flag_counters_move_by_exactly_one(g: MarketGroupV13, a: PortfolioAccountV13)
    ensures
        mark_stale_post(g, a).0 is Ok && !a.stale_state ==> {
            &&& mark_stale_post(g, a).1 == (MarketGroupV13 { stale_certificate_count: (g.stale_certificate_count + 1) as u64, ..g })
            &&& g.stale_certificate_count + 1 <= u64::MAX
            &&& mark_stale_post(g, a).2.stale_state
            &&& !mark_stale_post(g, a).2.health_cert.valid
        },
        mark_stale_post(g, a).0 is Ok && a.stale_state ==> mark_stale_post(g, a).1 == g && mark_stale_post(g, a).2 == a,
        clear_stale_post(g, a).0 is Ok && a.stale_state ==> {
            &&& clear_stale_post(g, a).1 == (MarketGroupV13 { stale_certificate_count: (g.stale_certificate_count - 1) as u64, ..g })
            &&& g.stale_certificate_count >= 1
            &&& !clear_stale_post(g, a).2.stale_state
        },
        clear_stale_post(g, a).0 is Ok && !a.stale_state ==> clear_stale_post(g, a).1 == g && clear_stale_post(g, a).2 == a,
        mark_b_stale_post(g, a).0 is Ok && !a.b_stale_state ==> {
            &&& mark_b_stale_post(g, a).1 == (MarketGroupV13 { b_stale_account_count: (g.b_stale_account_count + 1) as u64, ..g })
            &&& g.b_stale_account_count + 1 <= u64::MAX
            &&& mark_b_stale_post(g, a).2.b_stale_state
            &&& !mark_b_stale_post(g, a).2.health_cert.valid
        },
        mark_b_stale_post(g, a).0 is Ok && a.b_stale_state ==> mark_b_stale_post(g, a).1 == g && mark_b_stale_post(g, a).2 == a,
        clear_b_stale_post(g, a).0 is Ok && a.b_stale_state ==> {
            &&& clear_b_stale_post(g, a).1 == (MarketGroupV13 { b_stale_account_count: (g.b_stale_account_count - 1) as u64, ..g })
            &&& g.b_stale_account_count >= 1
            &&& !clear_b_stale_post(g, a).2.b_stale_state
        },
        clear_b_stale_post(g, a).0 is Ok && !a.b_stale_state ==> clear_b_stale_post(g, a).1 == g && clear_b_stale_post(g, a).2 == a,
        create_post(g, a).0 is Ok ==> create_post(g, a).1 == (MarketGroupV13 { materialized_portfolio_count: (g.materialized_portfolio_count + 1) as u64, ..g })
            && g.materialized_portfolio_count + 1 <= u64::MAX,
        close_post(g, a).0 is Ok ==> close_post(g, a).1 == (MarketGroupV13 { materialized_portfolio_count: (g.materialized_portfolio_count - 1) as u64, ..g })
            && g.materialized_portfolio_count >= 1
            && a.active_bitmap == 0 && a.capital == 0 && a.pnl == 0 && a.reserved_pnl == 0
            && a.fee_credits == 0 && !a.stale_state && !a.b_stale_state,
{
}

/// Flagging a leg B-stale sets that leg's flag and the account's, and leaves
/// every other leg and every other field of the leg as it was.
pub proof fn law_mark_leg_b_stale_flags_leg_and_account(g: MarketGroupV13, a: PortfolioAccountV13, idx: int)
    requires
        0 <= idx < V13_MAX_PORTFOLIO_ASSETS_N,
        mark_leg_b_stale_post(g, a, idx).0 is Ok,
    ensures
        mark_leg_b_stale_post(g, a, idx).2.legs[idx] == (PortfolioLegV13 { b_stale: true, ..a.legs[idx] }),
        a.legs[idx].active,
        mark_leg_b_stale_post(g, a, idx).2.b_stale_state,
        forall|j: int| 0 <= j < V13_MAX_PORTFOLIO_ASSETS_N && j != idx ==>
            #[trigger] mark_leg_b_stale_post(g, a, idx).2.legs[j] == a.legs[j],
{
    broadcast use vstd::array::group_array_axioms;
}

/// Declaring recovery records exactly the given reason and answers with it,
/// when the configuration enables recovery; otherwise nothing changes.
pub proof fn law_recovery_records_the_given_reason(g: MarketGroupV13, reason: PermissionlessRecoveryReasonV13)
    ensures
        g.config.permissionless_recovery_enabled ==> recovery_post(g, reason) == (
            Ok::<PermissionlessProgressOutcomeV13, V13Error>(PermissionlessProgressOutcomeV13::RecoveryDeclared(reason)),
            MarketGroupV13 { recovery_reason: Some(reason), ..g },
        ),
        !g.config.permissionless_recovery_enabled ==> recovery_post(g, reason) == (
            Err::<PermissionlessProgressOutcomeV13, V13Error>(V13Error::InvalidConfig),
            g,
        ),
{
}

/// Only the public user-fund profile is accepted: a width of one to sixteen
/// assets, `0 < h_max`, `h_min <= h_max`, maintenance margin at most the
/// initial margin, margins and fees at most 100%, nonzero chunk limits, and
/// every safety switch on.
pub proof fn law_config_accepts_only_public_profile(c: V13Config)
    ensures
        config_valid(c) <==> {
            &&& 1 <= c.max_portfolio_assets <= 16
            &&& 0 < c.h_max
            &&& c.h_min <= c.h_max
            &&& c.maintenance_margin_bps <= c.initial_margin_bps
            &&& c.initial_margin_bps <= 10_000
            &&& c.max_trading_fee_bps <= 10_000
            &&& c.max_account_b_settlement_chunks > 0
            &&& c.max_bankrupt_close_chunks > 0
            &&& c.public_b_chunk_atoms > 0
            &&& c.permissionless_recovery_enabled
            &&& c.stale_certificate_penalty_enabled
            &&& c.full_refresh_required_for_favorable_actions
            &&& c.public_liveness_profile_crank_forward
        },
{
}

/// Equity is exactly capital plus PnL plus the (non-positive) fee credits
/// whenever it is reported, and it is reported whenever the balances are
/// valid and the value fits an `i128`.
pub proof fn law_equity_is_capital_plus_pnl_minus_fee_debt(a: PortfolioAccountV13)
    ensures
        equity_result(a) is Ok ==> {
            &&& equity_result(a)->Ok_0 == a.capital + a.pnl + a.fee_credits
            &&& a.fee_credits <= 0
            &&& a.pnl != i128::MIN
        },
        a.pnl != i128::MIN && a.fee_credits != i128::MIN && a.fee_credits <= 0
            && a.capital + a.pnl <= i128::MAX && a.capital <= i128::MAX
            && a.capital + a.pnl + a.fee_credits >= i128::MIN ==> equity_result(a) is Ok,
{
}

/// A well-shaped account's balances and active legs are admissible: PnL is
/// not `i128::MIN`, fee credits are a debt, reserved PnL is within positive
/// PnL, and every active leg has a nonzero basis within the position cap, `A`
/// in range, the exact rounded-up loss weight at that `A`, a booking remainder
/// below the denominator and its B epoch equal to its epoch.
pub proof fn law_well_shaped_accounts_hold_admissible_legs(g: MarketGroupV13, a: PortfolioAccountV13)
    requires
        shape_result(g, a) is Ok,
    ensures
        a.pnl != i128::MIN,
        a.fee_credits <= 0 && a.fee_credits != i128::MIN,
        a.reserved_pnl <= pos_part(a.pnl as int),
        forall|i: int| 0 <= i < V13_MAX_PORTFOLIO_ASSETS_N && #[trigger] a.legs[i].active ==> {
            &&& a.legs[i].basis_pos_q != 0
            &&& a.legs[i].basis_pos_q != i128::MIN
            &&& abs_int(a.legs[i].basis_pos_q as int) <= MAX_POSITION_ABS_Q
            &&& MIN_A_SIDE <= a.legs[i].a_basis <= ADL_ONE
            &&& a.legs[i].loss_weight * a.legs[i].a_basis >= abs_int(a.legs[i].basis_pos_q as int) * SOCIAL_WEIGHT_SCALE
            &&& a.legs[i].loss_weight * a.legs[i].a_basis < abs_int(a.legs[i].basis_pos_q as int) * SOCIAL_WEIGHT_SCALE + a.legs[i].a_basis
            &&& a.legs[i].b_rem < SOCIAL_LOSS_DEN
            &&& a.legs[i].b_epoch_snap == a.legs[i].epoch_snap
        },
{
    let n = g.config.max_portfolio_assets as int;
    crate::v13::laws::lemma_slots_from_ok(n, a, 0);
    assert forall|i: int| 0 <= i < V13_MAX_PORTFOLIO_ASSETS_N && #[trigger] a.legs[i].active implies {
        &&& a.legs[i].basis_pos_q != 0
        &&& a.legs[i].basis_pos_q != i128::MIN
        &&& abs_int(a.legs[i].basis_pos_q as int) <= MAX_POSITION_ABS_Q
        &&& MIN_A_SIDE <= a.legs[i].a_basis <= ADL_ONE
        &&& a.legs[i].loss_weight * a.legs[i].a_basis >= abs_int(a.legs[i].basis_pos_q as int) * SOCIAL_WEIGHT_SCALE
        &&& a.legs[i].loss_weight * a.legs[i].a_basis < abs_int(a.legs[i].basis_pos_q as int) * SOCIAL_WEIGHT_SCALE + a.legs[i].a_basis
        &&& a.legs[i].b_rem < SOCIAL_LOSS_DEN
        &&& a.legs[i].b_epoch_snap == a.legs[i].epoch_snap
    } by {
        assert(slot_result(n, a, i) is Ok);
        crate::v13::laws::law_risk_shapes_are_exact_ceilings(
            abs_int(a.legs[i].basis_pos_q as int) as nat,
            0,
            a.legs[i].a_basis as int,
        );
    }
}

/// A market that passes the public invariant check has a capped vault that
/// covers capital plus insurance, matured PnL within positive PnL, no future
/// slot, and every configured asset priced within the oracle cap with capped
/// open interest and loss weights and remainders within the denominator.
pub proof fn law_public_invariants_bound_the_market(g: MarketGroupV13)
    requires
        invariants_result(g) is Ok,
    ensures
        g.vault <= MAX_VAULT_TVL,
        g.c_tot + g.insurance <= g.vault,
        g.pnl_matured_pos_tot <= g.pnl_pos_tot,
        g.slot_last <= g.current_slot,
        forall|i: int| 0 <= i < g.config.max_portfolio_assets ==> {
            &&& 0 < (#[trigger] g.assets[i]).effective_price <= MAX_ORACLE_PRICE
            &&& 0 < g.assets[i].raw_oracle_target_price <= MAX_ORACLE_PRICE
            &&& 0 < g.assets[i].fund_px_last <= MAX_ORACLE_PRICE
            &&& g.assets[i].oi_eff_long_q <= MAX_OI_SIDE_Q
            &&& g.assets[i].oi_eff_short_q <= MAX_OI_SIDE_Q
            &&& g.assets[i].loss_weight_sum_long <= SOCIAL_LOSS_DEN
            &&& g.assets[i].loss_weight_sum_short <= SOCIAL_LOSS_DEN
            &&& g.assets[i].social_loss_remainder_long_num < SOCIAL_LOSS_DEN
            &&& g.assets[i].social_loss_remainder_short_num < SOCIAL_LOSS_DEN
            &&& g.assets[i].social_loss_dust_long_num < SOCIAL_LOSS_DEN
            &&& g.assets[i].social_loss_dust_short_num < SOCIAL_LOSS_DEN
        },
{
}

/// A positive settlement chunk is the largest the leg may take: it settles
/// everything owed, or uses the whole budget, or one more unit would push the
/// booking numerator past the chunk limit `(limit + 1) * DEN - 1`; and the
/// numerator it books never exceeds that limit.
pub proof fn law_b_chunk_is_the_largest_admissible(g: MarketGroupV13, a: PortfolioAccountV13, idx: int, budget: u128)
    requires
        0 <= idx < V13_MAX_PORTFOLIO_ASSETS_N,
        chunk_result(g, a, idx, budget) is Ok,
        chunk_result(g, a, idx, budget)->Ok_0.delta_b > 0,
    ensures
        chunk_result(g, a, idx, budget)->Ok_0.remaining_after == 0
            || chunk_result(g, a, idx, budget)->Ok_0.delta_b == budget
            || a.legs[idx].loss_weight * (chunk_result(g, a, idx, budget)->Ok_0.delta_b + 1) + a.legs[idx].b_rem
                > (g.config.public_b_chunk_atoms + 1) * SOCIAL_LOSS_DEN - 1,
        a.legs[idx].loss_weight * chunk_result(g, a, idx, budget)->Ok_0.delta_b + a.legs[idx].b_rem
            <= (g.config.public_b_chunk_atoms + 1) * SOCIAL_LOSS_DEN - 1,
{
    let c = chunk_result(g, a, idx, budget)->Ok_0;
    let leg = a.legs[idx];
    let m = (g.config.public_b_chunk_atoms + 1) * SOCIAL_LOSS_DEN - 1;
    let w = leg.loss_weight as int;
    let q = (m - leg.b_rem) / w;
    vstd::arithmetic::div_mod::lemma_fundamental_div_mod(m - leg.b_rem, w);
    vstd::arithmetic::div_mod::lemma_mod_pos_bound(m - leg.b_rem, w);
    assert(c.delta_b <= q);
    assert(w * c.delta_b <= w * q) by (nonlinear_arith)
        requires
            c.delta_b <= q,
            w > 0,
    ;
    if c.delta_b == q {
        assert(w * (q + 1) == w * q + w) by (nonlinear_arith);
    }
}

/// Settling a positive chunk takes exactly the booked loss from PnL and moves
/// the market's positive-PnL total by exactly the change in the account's
/// positive PnL, and the negative-PnL count by the change in its sign.
pub proof fn law_settle_books_loss_into_market_totals(g: MarketGroupV13, a: PortfolioAccountV13, idx: int, budget: u128)
    requires
        0 <= idx < V13_MAX_PORTFOLIO_ASSETS_N,
        settle_post(g, a, idx, budget).0 is Ok,
        chunk_result(g, a, idx, budget)->Ok_0.delta_b > 0,
    ensures
        settle_post(g, a, idx, budget).2.pnl == a.pnl - chunk_result(g, a, idx, budget)->Ok_0.loss,
        settle_post(g, a, idx, budget).1.pnl_pos_tot == g.pnl_pos_tot - pos_part(a.pnl as int)
            + pos_part(a.pnl - chunk_result(g, a, idx, budget)->Ok_0.loss),
        settle_post(g, a, idx, budget).1.negative_pnl_account_count == g.negative_pnl_account_count
            + (if a.pnl - chunk_result(g, a, idx, budget)->Ok_0.loss < 0 { 1int } else { 0 })
            - (if a.pnl < 0 { 1int } else { 0 }),
        settle_post(g, a, idx, budget).1.pnl_matured_pos_tot <= g.pnl_matured_pos_tot,
        settle_post(g, a, idx, budget).1.pnl_matured_pos_tot <= settle_post(g, a, idx, budget).1.pnl_pos_tot
            || settle_post(g, a, idx, budget).1.pnl_matured_pos_tot == g.pnl_matured_pos_tot,
{
    crate::v13::laws::law_settle_applies_exact_chunk(g, a, idx, budget);
}

/// Number of active legs among slots `0..k`.
pub open spec fn active_legs_below(a: PortfolioAccountV13, k: int) -> int
    decreases k,
{
    if k <= 0 {
        0
    } else {
        active_legs_below(a, k - 1) + if a.legs[k - 1].active { 1int } else { 0 }
    }
}

proof fn lemma_active_legs_bounded(a: PortfolioAccountV13, k: int)
    requires
        0 <= k,
    ensures
        0 <= active_legs_below(a, k) <= k,
    decreases k,
{
    if k > 0 {
        lemma_active_legs_bounded(a, k - 1);
    }
}

proof fn lemma_high_bit_clear(x: u32, i: u32)
    by (bit_vector)
    requires
        x >> 16u32 == 0u32,
        16 <= i < 32,
    ensures
        (x >> i) & 1u32 != 1u32,
{
}

proof fn lemma_popcount_counts_active_legs(g: MarketGroupV13, a: PortfolioAccountV13, k: int)
    requires
        shape_result(g, a) is Ok,
        0 <= k <= 32,
    ensures
        popcount_below(a.active_bitmap, k as nat) == active_legs_below(a, if k <= 16 { k } else { 16 }),
    decreases k,
{
    if k > 0 {
        lemma_popcount_counts_active_legs(g, a, k - 1);
        crate::v13::laws::law_active_bitmap_is_leg_authority(g, a);
        if k > 16 {
            lemma_high_bit_clear(a.active_bitmap, (k - 1) as u32);
            assert(!bit_at(a.active_bitmap, k - 1));
        } else {
            assert(bit_at(a.active_bitmap, k - 1) == a.legs[k - 1].active);
        }
    }
}

/// The risk score of a certified, well-shaped account: the certificate's
/// deficit and worst-case loss, a stale bound of exactly one for a stale
/// account and zero otherwise, and the number of active legs.
pub proof fn law_risk_score_reports_certificate_and_legs(g: MarketGroupV13, a: PortfolioAccountV13)
    requires
        score_result(g, a) is Ok,
    ensures
        score_result(g, a)->Ok_0.certified_liq_deficit == a.health_cert.certified_liq_deficit,
        score_result(g, a)->Ok_0.gross_risk_notional == a.health_cert.certified_worst_case_loss,
        score_result(g, a)->Ok_0.stale_loss_bound == if a.stale_state { 1u128 } else { 0u128 },
        score_result(g, a)->Ok_0.active_leg_count == active_legs_below(a, V13_MAX_PORTFOLIO_ASSETS_N as int),
        a.health_cert.valid,
{
    lemma_popcount_counts_active_legs(g, a, 32);
    lemma_active_legs_bounded(a, 16);
    assert(popcount(a.active_bitmap) == popcount_below(a.active_bitmap, 32));
}

/// The favorable-action gate admits exactly the well-shaped accounts with no
/// stale or B-stale flag or leg, no market-wide lock, and a valid certificate
/// issued at the market's current oracle, funding and risk epochs for the
/// account's current bitmap.
pub proof fn law_favorable_gate_admits_exactly_current_fresh_accounts(g: MarketGroupV13, a: PortfolioAccountV13)
    ensures
        favorable_result(g, a) is Ok <==> {
            &&& shape_result(g, a) is Ok
            &&& !a.stale_state && !a.b_stale_state
            &&& !g.threshold_stress_active && !g.bankruptcy_hlock_active
            &&& !g.loss_stale_active && !g.active_bankrupt_close_present
            &&& forall|i: int| 0 <= i < V13_MAX_PORTFOLIO_ASSETS_N && #[trigger] a.legs[i].active
                ==> !a.legs[i].stale && !a.legs[i].b_stale
            &&& a.health_cert.valid
            &&& a.health_cert.cert_oracle_epoch == g.oracle_epoch
            &&& a.health_cert.cert_funding_epoch == g.funding_epoch
            &&& a.health_cert.cert_risk_epoch == g.risk_epoch
            &&& a.health_cert.active_bitmap_at_cert == a.active_bitmap
        },
{
}

} // verus!
