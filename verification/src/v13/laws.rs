//! Properties of the engine that span calls, states or all inputs.
use vstd::prelude::*;
use crate::v13::account_shape::{
    active_leg_result, lemma_loss_weight_bounded, provenance_ok, shape_result, slot_result,
    slots_from,
};
use crate::v13::arith::{
    abs_int, bit_at, ceil_div, equity_result, loss_weight_value, risk_notional_value,
};
use crate::v13::legs::{
    attach_post, attached_leg, book_leg, clear_post, leg_weight, mark_leg_b_stale_post,
    side_snapshot, unbook_leg, with_asset, with_leg,
};
use crate::v13::lifecycle::{
    account_closable, clear_b_stale_post, clear_stale_post, close_post, create_post,
    has_b_stale_leg_spec, has_stale_leg_spec, invalidate_cert, mark_b_stale_post, mark_stale_post,
};
use crate::v13::refresh::{
    cert_current, favorable_result, lane_horizon, lane_result, market_lock_active,
    progress_result, refresh_result, score_result,
};
use crate::v13::settlement::{
    b_target, chunk_result, clear_b_stale_if_settled, max_chunk_num, set_pnl_post, settle_post,
    settled_leg,
};
use crate::v13::types::{
    empty_leg, score_lt, AccountBSettlementChunkV13, AssetStateV13, HLockLaneV13, HealthCertV13,
    MarketGroupV13, PortfolioAccountV13, SideV13, V13Error, V13_MAX_PORTFOLIO_ASSETS_N,
};
use crate::{POS_SCALE, SOCIAL_LOSS_DEN, SOCIAL_WEIGHT_SCALE};

verus! {

/// The h-lock lane of an authenticated account is h-max exactly when the
/// account is stale or B-stale or a market-wide lock condition (or the
/// instruction's own bankruptcy candidacy) holds, and h-min otherwise; the
/// selected horizon is then exactly `h_max` or `h_min`.
pub proof fn law_h_lock_is_exactly_hmin_or_hmax(g: MarketGroupV13, a: PortfolioAccountV13, bankruptcy_candidate: bool)
    requires
        provenance_ok(g, a),
    ensures
        lane_result(g, Some(&a), bankruptcy_candidate) == (if a.stale_state || a.b_stale_state
            || market_lock_active(g, bankruptcy_candidate) {
            Ok::<HLockLaneV13, V13Error>(HLockLaneV13::HMax)
        } else {
            Ok(HLockLaneV13::HMin)
        }),
        lane_horizon(g, HLockLaneV13::HMax) == g.config.h_max,
        lane_horizon(g, HLockLaneV13::HMin) == g.config.h_min,
{
}

/// Marking an account stale twice has the effect of marking it once.
pub proof fn law_mark_stale_idempotent(g: MarketGroupV13, a: PortfolioAccountV13)
    requires
        mark_stale_post(g, a).0 is Ok,
    ensures
        mark_stale_post(mark_stale_post(g, a).1, mark_stale_post(g, a).2) == (
            Ok::<(), V13Error>(()),
            mark_stale_post(g, a).1,
            mark_stale_post(g, a).2,
        ),
{
}

/// Clearing the stale flag twice has the effect of clearing it once.
pub proof fn law_clear_stale_idempotent(g: MarketGroupV13, a: PortfolioAccountV13)
    requires
        clear_stale_post(g, a).0 is Ok,
    ensures
        clear_stale_post(clear_stale_post(g, a).1, clear_stale_post(g, a).2) == (
            Ok::<(), V13Error>(()),
            clear_stale_post(g, a).1,
            clear_stale_post(g, a).2,
        ),
{
}

/// The stale-certificate count is exact: marking a fresh account stale and
/// clearing it again restores the count and leaves the account unflagged.
pub proof fn law_stale_count_round_trip(g: MarketGroupV13, a: PortfolioAccountV13)
    requires
        !a.stale_state,
        mark_stale_post(g, a).0 is Ok,
    ensures
        clear_stale_post(mark_stale_post(g, a).1, mark_stale_post(g, a).2).0 is Ok,
        clear_stale_post(mark_stale_post(g, a).1, mark_stale_post(g, a).2).1 == g,
        !clear_stale_post(mark_stale_post(g, a).1, mark_stale_post(g, a).2).2.stale_state,
{
}

/// Marking an account B-stale twice has the effect of marking it once.
pub proof fn law_mark_b_stale_idempotent(g: MarketGroupV13, a: PortfolioAccountV13)
    requires
        mark_b_stale_post(g, a).0 is Ok,
    ensures
        mark_b_stale_post(mark_b_stale_post(g, a).1, mark_b_stale_post(g, a).2) == (
            Ok::<(), V13Error>(()),
            mark_b_stale_post(g, a).1,
            mark_b_stale_post(g, a).2,
        ),
{
}

/// Clearing the B-stale flag twice has the effect of clearing it once.
pub proof fn law_clear_b_stale_idempotent(g: MarketGroupV13, a: PortfolioAccountV13)
    requires
        clear_b_stale_post(g, a).0 is Ok,
    ensures
        clear_b_stale_post(clear_b_stale_post(g, a).1, clear_b_stale_post(g, a).2) == (
            Ok::<(), V13Error>(()),
            clear_b_stale_post(g, a).1,
            clear_b_stale_post(g, a).2,
        ),
{
}

/// The B-stale account count is exact: marking an account with no B-stale
/// leg B-stale and clearing it again restores the count.
pub proof fn law_b_stale_count_round_trip(g: MarketGroupV13, a: PortfolioAccountV13)
    requires
        !a.b_stale_state,
        !has_b_stale_leg_spec(a),
        mark_b_stale_post(g, a).0 is Ok,
    ensures
        clear_b_stale_post(mark_b_stale_post(g, a).1, mark_b_stale_post(g, a).2).0 is Ok,
        clear_b_stale_post(mark_b_stale_post(g, a).1, mark_b_stale_post(g, a).2).1 == g,
        !clear_b_stale_post(mark_b_stale_post(g, a).1, mark_b_stale_post(g, a).2).2.b_stale_state,
{
    let a2 = mark_b_stale_post(g, a).2;
    assert forall|i: int| 0 <= i < V13_MAX_PORTFOLIO_ASSETS_N implies !(#[trigger] a2.legs[i].active && a2.legs[i].b_stale) by {
        assert(a2.legs[i] == a.legs[i]);
    }
}

/// A persisted PnL of `i128::MIN` makes equity unrepresentable.
pub proof fn law_equity_rejects_min_pnl(a: PortfolioAccountV13)
    requires
        a.pnl == i128::MIN,
    ensures
        equity_result(a) == Err::<i128, V13Error>(V13Error::ArithmeticOverflow),
{
}

/// `slots_from` succeeds exactly when every slot from `i` on does.
pub(crate) proof fn lemma_slots_from_ok(n: int, a: PortfolioAccountV13, i: int)
    requires
        0 <= i,
    ensures
        slots_from(n, a, i) is Ok <==> (forall|j: int| i <= j < V13_MAX_PORTFOLIO_ASSETS_N ==> #[trigger] slot_result(n, a, j) is Ok),
    decreases V13_MAX_PORTFOLIO_ASSETS_N - i,
{
    if i < V13_MAX_PORTFOLIO_ASSETS_N {
        lemma_slots_from_ok(n, a, i + 1);
    }
}

/// The active bitmap is the only authority over which legs are active: in a
/// well-shaped account a slot's bit is set exactly when its leg is active, no
/// bit is set beyond the leg slots, every inactive slot holds the empty leg,
/// and no slot beyond the market's width is in use.
pub proof fn law_active_bitmap_is_leg_authority(g: MarketGroupV13, a: PortfolioAccountV13)
    requires
        shape_result(g, a) is Ok,
    ensures
        forall|i: int| 0 <= i < V13_MAX_PORTFOLIO_ASSETS_N ==> (bit_at(a.active_bitmap, i) <==> #[trigger] a.legs[i].active),
        a.active_bitmap >> 16u32 == 0u32,
        forall|i: int| 0 <= i < V13_MAX_PORTFOLIO_ASSETS_N && !(#[trigger] a.legs[i]).active ==> a.legs[i] == empty_leg(),
        forall|i: int| g.config.max_portfolio_assets <= i < V13_MAX_PORTFOLIO_ASSETS_N ==> !(#[trigger] a.legs[i]).active,
{
    lemma_slots_from_ok(g.config.max_portfolio_assets as int, a, 0);
    assert forall|i: int| 0 <= i < V13_MAX_PORTFOLIO_ASSETS_N implies (bit_at(a.active_bitmap, i) <==> #[trigger] a.legs[i].active) by {
        assert(slot_result(g.config.max_portfolio_assets as int, a, i) is Ok);
    }
    assert forall|i: int| 0 <= i < V13_MAX_PORTFOLIO_ASSETS_N && !(#[trigger] a.legs[i]).active implies a.legs[i] == empty_leg() by {
        assert(slot_result(g.config.max_portfolio_assets as int, a, i) is Ok);
    }
    assert forall|i: int| g.config.max_portfolio_assets <= i < V13_MAX_PORTFOLIO_ASSETS_N implies !(#[trigger] a.legs[i]).active by {
        assert(slot_result(g.config.max_portfolio_assets as int, a, i) is Ok);
    }
}

/// A stale or B-stale account, or an account with a stale or B-stale active
/// leg, fails closed: it can neither be refreshed nor take a favorable action.
pub proof fn law_stale_accounts_fail_closed(g: MarketGroupV13, a: PortfolioAccountV13, prices: [u64; 16])
    requires
        a.stale_state || a.b_stale_state || has_b_stale_leg_spec(a) || has_stale_leg_spec(a),
    ensures
        refresh_result(g, a, prices) is Err,
        favorable_result(g, a) is Err,
        a.b_stale_state ==> refresh_result(g, a, prices) == Err::<HealthCertV13, V13Error>(
            if shape_result(g, a) is Err { shape_result(g, a)->Err_0 } else { V13Error::BStale }),
{
}

/// A liquidation step that leaves the risk score unchanged is never progress.
pub proof fn law_liquidation_requires_strict_reduction(g: MarketGroupV13, before: PortfolioAccountV13, after: PortfolioAccountV13)
    requires
        score_result(g, before) is Ok,
        score_result(g, after) == score_result(g, before),
    ensures
        progress_result(g, before, after) == Err::<(), V13Error>(V13Error::NonProgress),
{
    let s = score_result(g, before)->Ok_0;
    assert(!score_lt(s, s));
}

/// Ceiling division never understates: `d * ceil(n / d)` covers `n` by less
/// than one `d`.
pub proof fn law_ceil_div_is_conservative(n: int, d: int)
    requires
        n >= 0,
        d > 0,
    ensures
        ceil_div(n, d) * d >= n,
        ceil_div(n, d) * d < n + d,
        ceil_div(n, d) >= 0,
{
    vstd::arithmetic::div_mod::lemma_fundamental_div_mod(n + d - 1, d);
    vstd::arithmetic::div_mod::lemma_mod_pos_bound(n + d - 1, d);
    vstd::arithmetic::div_mod::lemma_div_pos_is_pos(n + d - 1, d);
    assert(ceil_div(n, d) * d == d * ((n + d - 1) / d)) by (nonlinear_arith);
}

/// The risk notional is the exact ceiling of `abs * price / POS_SCALE`, and the
/// loss weight the exact ceiling of `abs * SOCIAL_WEIGHT_SCALE / a`: neither is
/// ever understated, nor overstated by a whole unit.
pub proof fn law_risk_shapes_are_exact_ceilings(abs_q: nat, price: nat, a_basis: int)
    requires
        a_basis > 0,
    ensures
        risk_notional_value(abs_q as int, price as int) * POS_SCALE >= abs_q * price,
        risk_notional_value(abs_q as int, price as int) * POS_SCALE < abs_q * price + POS_SCALE,
        loss_weight_value(abs_q as int, a_basis) * a_basis >= abs_q * SOCIAL_WEIGHT_SCALE,
        loss_weight_value(abs_q as int, a_basis) * a_basis < abs_q * SOCIAL_WEIGHT_SCALE + a_basis,
{
    assert(abs_q * price >= 0) by (nonlinear_arith);
    law_ceil_div_is_conservative((abs_q * price) as int, POS_SCALE as int);
    assert(abs_q * SOCIAL_WEIGHT_SCALE >= 0) by (nonlinear_arith);
    law_ceil_div_is_conservative((abs_q * SOCIAL_WEIGHT_SCALE) as int, a_basis);
}

/// Slot validation sees only the leg array and the active bitmap.
proof fn lemma_slots_same(n: int, a: PortfolioAccountV13, b: PortfolioAccountV13, i: int)
    requires
        a.legs == b.legs,
        a.active_bitmap == b.active_bitmap,
    ensures
        slots_from(n, a, i) == slots_from(n, b, i),
    decreases V13_MAX_PORTFOLIO_ASSETS_N - i,
{
    if i < V13_MAX_PORTFOLIO_ASSETS_N {
        lemma_slots_same(n, a, b, i + 1);
    }
}

/// A full refresh of a fresh account, with no market-wide lock in force,
/// admits the account's favorable actions.
pub proof fn law_refresh_admits_favorable_action(g: MarketGroupV13, a: PortfolioAccountV13, prices: [u64; 16])
    requires
        refresh_result(g, a, prices) is Ok,
        !market_lock_active(g, false),
    ensures
        favorable_result(g, PortfolioAccountV13 { health_cert: refresh_result(g, a, prices)->Ok_0, ..a }) == Ok::<(), V13Error>(()),
{
    let a2 = PortfolioAccountV13 { health_cert: refresh_result(g, a, prices)->Ok_0, ..a };
    lemma_slots_same(g.config.max_portfolio_assets as int, a, a2, 0);
}

/// Moving any of the market's oracle, funding or risk epochs makes every
/// certificate issued before stale for favorable actions.
pub proof fn law_epoch_change_invalidates_certificate(g: MarketGroupV13, g2: MarketGroupV13, a: PortfolioAccountV13)
    requires
        favorable_result(g, a) is Ok,
        g2.market_group_id == g.market_group_id,
        g2.config == g.config,
        !market_lock_active(g2, false),
        g2.oracle_epoch != g.oracle_epoch || g2.funding_epoch != g.funding_epoch || g2.risk_epoch != g.risk_epoch,
    ensures
        favorable_result(g2, a) == Err::<(), V13Error>(V13Error::Stale),
{
}

/// Without a certificate issued at the current epochs for the current bitmap,
/// no favorable action is admitted.
pub proof fn law_favorable_action_requires_current_certificate(g: MarketGroupV13, a: PortfolioAccountV13)
    requires
        favorable_result(g, a) is Ok,
    ensures
        cert_current(g, a),
        !a.stale_state,
        !a.b_stale_state,
        !market_lock_active(g, false),
{
}

proof fn lemma_bit_or_then_clear(x: u32, i: u32)
    by (bit_vector)
    requires
        i < 32,
        (x >> i) & 1u32 != 1u32,
    ensures
        (x | (1u32 << i)) & !(1u32 << i) == x,
{
}

proof fn lemma_bit_clear_other(x: u32, i: u32, j: u32)
    by (bit_vector)
    requires
        i < 32,
        j < 32,
        i != j,
    ensures
        ((x & !(1u32 << i)) >> j) & 1u32 == (x >> j) & 1u32,
{
}

proof fn lemma_bit_clear_keeps_high_bits_clear(x: u32, i: u32)
    by (bit_vector)
    requires
        i < 32,
        x >> 16u32 == 0u32,
    ensures
        (x & !(1u32 << i)) >> 16u32 == 0u32,
{
}

proof fn lemma_bit_clear_same(x: u32, i: u32)
    by (bit_vector)
    requires
        i < 32,
    ensures
        ((x & !(1u32 << i)) >> i) & 1u32 != 1u32,
{
}

/// Clearing an inactive-able slot of a well-shaped account keeps it well shaped.
proof fn lemma_cleared_slot_keeps_shape(g: MarketGroupV13, a: PortfolioAccountV13, idx: int)
    requires
        shape_result(g, a) is Ok,
        0 <= idx < g.config.max_portfolio_assets,
        idx < V13_MAX_PORTFOLIO_ASSETS_N,
    ensures
        shape_result(g, PortfolioAccountV13 {
            active_bitmap: a.active_bitmap & !(1u32 << (idx as u32)),
            ..invalidate_cert(with_leg(a, idx, empty_leg()))
        }) is Ok,
{
    broadcast use vstd::array::group_array_axioms;
    let n = g.config.max_portfolio_assets as int;
    let a3 = PortfolioAccountV13 {
        active_bitmap: a.active_bitmap & !(1u32 << (idx as u32)),
        ..invalidate_cert(with_leg(a, idx, empty_leg()))
    };
    lemma_slots_from_ok(n, a, 0);
    lemma_bit_clear_keeps_high_bits_clear(a.active_bitmap, idx as u32);
    assert forall|j: int| 0 <= j < V13_MAX_PORTFOLIO_ASSETS_N implies #[trigger] slot_result(n, a3, j) is Ok by {
        assert(slot_result(n, a, j) is Ok);
        if j == idx {
            lemma_bit_clear_same(a.active_bitmap, idx as u32);
            assert(a3.legs[j] == empty_leg());
        } else {
            lemma_bit_clear_other(a.active_bitmap, idx as u32, j as u32);
            assert(a3.legs[j] == a.legs[j]);
        }
    }
    lemma_slots_from_ok(n, a3, 0);
}

/// Attaching a leg and then clearing it again succeeds and restores the
/// market exactly and the account's bitmap and other slots; the slot is left
/// empty.
pub proof fn law_attach_then_clear_restores(g: MarketGroupV13, a: PortfolioAccountV13, idx: int, side: SideV13, basis: i128)
    requires
        0 <= idx < V13_MAX_PORTFOLIO_ASSETS_N,
        attach_post(g, a, idx, side, basis).0 is Ok,
    ensures
        clear_post(attach_post(g, a, idx, side, basis).1, attach_post(g, a, idx, side, basis).2, idx).0 is Ok,
        clear_post(attach_post(g, a, idx, side, basis).1, attach_post(g, a, idx, side, basis).2, idx).1 == g,
        clear_post(attach_post(g, a, idx, side, basis).1, attach_post(g, a, idx, side, basis).2, idx).2.active_bitmap == a.active_bitmap,
        clear_post(attach_post(g, a, idx, side, basis).1, attach_post(g, a, idx, side, basis).2, idx).2.legs[idx] == empty_leg(),
        forall|j: int| 0 <= j < V13_MAX_PORTFOLIO_ASSETS_N && j != idx ==>
            #[trigger] clear_post(attach_post(g, a, idx, side, basis).1, attach_post(g, a, idx, side, basis).2, idx).2.legs[j] == a.legs[j],
{
    broadcast use vstd::array::group_array_axioms;
    let s1 = attach_post(g, a, idx, side, basis);
    let snap = side_snapshot(g.assets[idx], side);
    let w = leg_weight(basis, snap.0);
    let booked = book_leg(g.assets[idx], side, abs_int(basis as int), w);
    let g2 = s1.1;
    let a2 = s1.2;
    assert(g2 == with_asset(g, idx, booked.1));
    assert(a2.legs[idx] == attached_leg(side, basis, snap, w as u128));
    let leg = a2.legs[idx];
    let unbooked = unbook_leg(g2.assets[idx], leg.side, abs_int(leg.basis_pos_q as int), leg.loss_weight as int);
    assert(g2.assets[idx] == booked.1);
    assert(unbooked.0 is Ok);
    assert(unbooked.1 == g.assets[idx]);
    let g3 = with_asset(g2, idx, unbooked.1);
    assert(g3.assets =~= g.assets);
    assert(g3 == g);
    lemma_bit_or_then_clear(a.active_bitmap, idx as u32);
    lemma_cleared_slot_keeps_shape(g2, a2, idx);
}

/// Materializing an empty, unflagged account and closing it again restores
/// the market's portfolio count.
pub proof fn law_create_then_close_restores_count(g: MarketGroupV13, a: PortfolioAccountV13)
    requires
        create_post(g, a).0 is Ok,
        account_closable(a),
    ensures
        close_post(create_post(g, a).1, a) == (Ok::<(), V13Error>(()), g),
{
}

/// A shape-valid leg's booking remainder is below the social-loss denominator
/// and its weight is nonzero and at most that denominator.
proof fn lemma_valid_leg_bounds(g: MarketGroupV13, a: PortfolioAccountV13, idx: int)
    requires
        shape_result(g, a) is Ok,
        0 <= idx < V13_MAX_PORTFOLIO_ASSETS_N,
        a.legs[idx].active,
    ensures
        a.legs[idx].b_rem < SOCIAL_LOSS_DEN,
        0 < a.legs[idx].loss_weight <= SOCIAL_LOSS_DEN,
{
    let n = g.config.max_portfolio_assets as int;
    lemma_slots_from_ok(n, a, 0);
    assert(slot_result(n, a, idx) is Ok);
    let leg = a.legs[idx];
    assert(active_leg_result(leg) is Ok);
    lemma_loss_weight_bounded(abs_int(leg.basis_pos_q as int), leg.a_basis as int);
}

/// Every B settlement chunk conserves the booked loss exactly: the loss it
/// books times the denominator plus the new remainder equals the weight
/// times the advance plus the old remainder, the new remainder stays below the
/// denominator, the advance stays within the caller's budget and what is
/// advanced plus what remains is exactly what the leg owed.
pub proof fn law_b_chunk_conserves_booked_loss(g: MarketGroupV13, a: PortfolioAccountV13, idx: int, budget: u128)
    requires
        0 <= idx < V13_MAX_PORTFOLIO_ASSETS_N,
        chunk_result(g, a, idx, budget) is Ok,
    ensures
        chunk_result(g, a, idx, budget)->Ok_0.loss * SOCIAL_LOSS_DEN + chunk_result(g, a, idx, budget)->Ok_0.new_remainder
            == a.legs[idx].loss_weight * chunk_result(g, a, idx, budget)->Ok_0.delta_b + a.legs[idx].b_rem,
        chunk_result(g, a, idx, budget)->Ok_0.new_remainder < SOCIAL_LOSS_DEN,
        chunk_result(g, a, idx, budget)->Ok_0.delta_b > 0 ==> chunk_result(g, a, idx, budget)->Ok_0.delta_b <= budget,
        chunk_result(g, a, idx, budget)->Ok_0.delta_b + chunk_result(g, a, idx, budget)->Ok_0.remaining_after
            == b_target(g, idx, a.legs[idx])->Ok_0 - a.legs[idx].b_snap,
{
    let c = chunk_result(g, a, idx, budget)->Ok_0;
    lemma_valid_leg_bounds(g, a, idx);
    if c.delta_b > 0 {
        let leg = a.legs[idx];
        let num = leg.loss_weight * c.delta_b + leg.b_rem;
        assert(c.loss == num / (SOCIAL_LOSS_DEN as int) && c.new_remainder == num % (SOCIAL_LOSS_DEN as int));
        vstd::arithmetic::div_mod::lemma_fundamental_div_mod(num, SOCIAL_LOSS_DEN as int);
        vstd::arithmetic::div_mod::lemma_mod_pos_bound(num, SOCIAL_LOSS_DEN as int);
        assert(c.loss * SOCIAL_LOSS_DEN + c.new_remainder == num) by (nonlinear_arith)
            requires
                num == SOCIAL_LOSS_DEN * (num / (SOCIAL_LOSS_DEN as int)) + num % (SOCIAL_LOSS_DEN as int),
                c.loss == num / (SOCIAL_LOSS_DEN as int),
                c.new_remainder == num % (SOCIAL_LOSS_DEN as int),
        ;
    }
}

/// Account-local B settlement makes strict progress: a well-shaped account
/// whose active leg still owes B advances by at least one unit under any
/// positive budget, and with no budget it is sent to recovery.
pub proof fn law_b_chunk_progresses_or_requires_recovery(g: MarketGroupV13, a: PortfolioAccountV13, idx: int, budget: u128)
    requires
        shape_result(g, a) is Ok,
        0 <= idx < g.config.max_portfolio_assets,
        idx < V13_MAX_PORTFOLIO_ASSETS_N,
        a.legs[idx].active,
        b_target(g, idx, a.legs[idx]) is Ok,
        b_target(g, idx, a.legs[idx])->Ok_0 > a.legs[idx].b_snap,
        g.config.public_b_chunk_atoms > 0,
        (g.config.public_b_chunk_atoms + 1) * SOCIAL_LOSS_DEN <= u128::MAX,
    ensures
        budget > 0 ==> chunk_result(g, a, idx, budget) is Ok,
        budget > 0 ==> chunk_result(g, a, idx, budget)->Ok_0.delta_b > 0,
        budget > 0 ==> chunk_result(g, a, idx, budget)->Ok_0.remaining_after
            < b_target(g, idx, a.legs[idx])->Ok_0 - a.legs[idx].b_snap,
        budget == 0 ==> chunk_result(g, a, idx, budget) == Err::<AccountBSettlementChunkV13, V13Error>(V13Error::RecoveryRequired),
{
    lemma_valid_leg_bounds(g, a, idx);
    let leg = a.legs[idx];
    let limit = g.config.public_b_chunk_atoms;
    let m = max_chunk_num(limit);
    assert(m >= 2 * SOCIAL_LOSS_DEN - 1) by (nonlinear_arith)
        requires
            limit >= 1,
            m == (limit + 1) * SOCIAL_LOSS_DEN - 1,
    ;
    let q = (m - leg.b_rem) / (leg.loss_weight as int);
    vstd::arithmetic::div_mod::lemma_div_is_ordered(leg.loss_weight as int, m - leg.b_rem, leg.loss_weight as int);
    vstd::arithmetic::div_mod::lemma_div_by_self(leg.loss_weight as int);
    if budget > 0 {
        let remaining = b_target(g, idx, leg)->Ok_0 - leg.b_snap;
        let delta = if remaining <= q { remaining } else { q };
        let delta = if delta <= budget { delta } else { budget as int };
        vstd::arithmetic::div_mod::lemma_fundamental_div_mod(m - leg.b_rem, leg.loss_weight as int);
        vstd::arithmetic::div_mod::lemma_mod_pos_bound(m - leg.b_rem, leg.loss_weight as int);
        assert(leg.loss_weight * delta <= leg.loss_weight * q) by (nonlinear_arith)
            requires
                0 <= delta <= q,
                leg.loss_weight > 0,
        ;
    }
}

/// Applying a settlement chunk advances the leg's B snapshot by exactly the
/// chunk, takes exactly its loss from PnL and invalidates the certificate.
pub proof fn law_settle_applies_exact_chunk(g: MarketGroupV13, a: PortfolioAccountV13, idx: int, budget: u128)
    requires
        0 <= idx < V13_MAX_PORTFOLIO_ASSETS_N,
        settle_post(g, a, idx, budget).0 is Ok,
    ensures
        chunk_result(g, a, idx, budget) == settle_post(g, a, idx, budget).0,
        chunk_result(g, a, idx, budget)->Ok_0.delta_b > 0 ==> {
            &&& settle_post(g, a, idx, budget).2.legs[idx] == settled_leg(a.legs[idx], chunk_result(g, a, idx, budget)->Ok_0)
            &&& settle_post(g, a, idx, budget).2.legs[idx].b_snap == a.legs[idx].b_snap + chunk_result(g, a, idx, budget)->Ok_0.delta_b
            &&& settle_post(g, a, idx, budget).2.pnl == a.pnl - chunk_result(g, a, idx, budget)->Ok_0.loss
            &&& !settle_post(g, a, idx, budget).2.health_cert.valid
        },
{
    broadcast use vstd::array::group_array_axioms;
}

/// An account whose header does not bind it to this market, its owner and
/// the current layout is refused by every operation with a provenance
/// mismatch, and nothing is changed.
pub proof fn law_foreign_account_is_rejected(g: MarketGroupV13, a: PortfolioAccountV13, idx: int, side: SideV13, basis: i128, prices: [u64; 16], budget: u128, candidate: bool)
    requires
        !provenance_ok(g, a),
    ensures
        shape_result(g, a) == Err::<(), V13Error>(V13Error::ProvenanceMismatch),
        create_post(g, a) == (Err::<(), V13Error>(V13Error::ProvenanceMismatch), g),
        close_post(g, a) == (Err::<(), V13Error>(V13Error::ProvenanceMismatch), g),
        mark_stale_post(g, a) == (Err::<(), V13Error>(V13Error::ProvenanceMismatch), g, a),
        clear_stale_post(g, a) == (Err::<(), V13Error>(V13Error::ProvenanceMismatch), g, a),
        mark_b_stale_post(g, a) == (Err::<(), V13Error>(V13Error::ProvenanceMismatch), g, a),
        clear_b_stale_post(g, a) == (Err::<(), V13Error>(V13Error::ProvenanceMismatch), g, a),
        attach_post(g, a, idx, side, basis) == (Err::<(), V13Error>(V13Error::ProvenanceMismatch), g, a),
        clear_post(g, a, idx) == (Err::<(), V13Error>(V13Error::ProvenanceMismatch), g, a),
        mark_leg_b_stale_post(g, a, idx) == (Err::<(), V13Error>(V13Error::ProvenanceMismatch), g, a),
        lane_result(g, Some(&a), candidate) == Err::<HLockLaneV13, V13Error>(V13Error::ProvenanceMismatch),
        refresh_result(g, a, prices) == Err::<HealthCertV13, V13Error>(V13Error::ProvenanceMismatch),
        favorable_result(g, a) == Err::<(), V13Error>(V13Error::ProvenanceMismatch),
        score_result(g, a) == Err::<crate::v13::types::RiskScoreV13, V13Error>(V13Error::ProvenanceMismatch),
        chunk_result(g, a, idx, budget) == Err::<AccountBSettlementChunkV13, V13Error>(V13Error::ProvenanceMismatch),
        settle_post(g, a, idx, budget) == (Err::<AccountBSettlementChunkV13, V13Error>(V13Error::ProvenanceMismatch), g, a),
{
}

/// Changing an account's legs or flagging it stale voids its certificate, so
/// no favorable action is admitted before the next full refresh.
pub proof fn law_leg_changes_void_certificate(g: MarketGroupV13, a: PortfolioAccountV13, idx: int, side: SideV13, basis: i128)
    ensures
        attach_post(g, a, idx, side, basis).0 is Ok ==> !attach_post(g, a, idx, side, basis).2.health_cert.valid
            && favorable_result(attach_post(g, a, idx, side, basis).1, attach_post(g, a, idx, side, basis).2) is Err,
        clear_post(g, a, idx).0 is Ok ==> !clear_post(g, a, idx).2.health_cert.valid
            && favorable_result(clear_post(g, a, idx).1, clear_post(g, a, idx).2) is Err,
        mark_stale_post(g, a).0 is Ok ==> mark_stale_post(g, a).2.stale_state
            && favorable_result(mark_stale_post(g, a).1, mark_stale_post(g, a).2) is Err,
        mark_b_stale_post(g, a).0 is Ok ==> mark_b_stale_post(g, a).2.b_stale_state
            && favorable_result(mark_b_stale_post(g, a).1, mark_b_stale_post(g, a).2) is Err,
{
}

/// A side's position count, open interest and loss-weight sum.
pub open spec fn side_totals(asset: AssetStateV13, side: SideV13) -> (int, int, int) {
    match side {
        SideV13::Long => (asset.stored_pos_count_long as int, asset.oi_eff_long_q as int, asset.loss_weight_sum_long as int),
        SideV13::Short => (asset.stored_pos_count_short as int, asset.oi_eff_short_q as int, asset.loss_weight_sum_short as int),
    }
}

pub open spec fn other_side(side: SideV13) -> SideV13 {
    match side {
        SideV13::Long => SideV13::Short,
        SideV13::Short => SideV13::Long,
    }
}

/// Attaching a leg moves its side's position count by one, its open interest
/// by exactly the leg's size and its loss-weight sum by exactly the leg's
/// weight; the other side and every other asset are untouched.
pub proof fn law_attach_moves_totals_by_exact_leg(g: MarketGroupV13, a: PortfolioAccountV13, idx: int, side: SideV13, basis: i128)
    requires
        0 <= idx < V13_MAX_PORTFOLIO_ASSETS_N,
        attach_post(g, a, idx, side, basis).0 is Ok,
    ensures
        side_totals(attach_post(g, a, idx, side, basis).1.assets[idx], side) == (
            side_totals(g.assets[idx], side).0 + 1,
            side_totals(g.assets[idx], side).1 + abs_int(basis as int),
            side_totals(g.assets[idx], side).2 + attach_post(g, a, idx, side, basis).2.legs[idx].loss_weight,
        ),
        side_totals(attach_post(g, a, idx, side, basis).1.assets[idx], other_side(side))
            == side_totals(g.assets[idx], other_side(side)),
        forall|j: int| 0 <= j < V13_MAX_PORTFOLIO_ASSETS_N && j != idx ==>
            #[trigger] attach_post(g, a, idx, side, basis).1.assets[j] == g.assets[j],
{
    broadcast use vstd::array::group_array_axioms;
}

/// Clearing a leg moves its side's totals back by exactly the leg's count,
/// size and weight; the other side and every other asset are untouched.
pub proof fn law_clear_moves_totals_by_exact_leg(g: MarketGroupV13, a: PortfolioAccountV13, idx: int)
    requires
        0 <= idx < V13_MAX_PORTFOLIO_ASSETS_N,
        clear_post(g, a, idx).0 is Ok,
    ensures
        side_totals(clear_post(g, a, idx).1.assets[idx], a.legs[idx].side) == (
            side_totals(g.assets[idx], a.legs[idx].side).0 - 1,
            side_totals(g.assets[idx], a.legs[idx].side).1 - abs_int(a.legs[idx].basis_pos_q as int),
            side_totals(g.assets[idx], a.legs[idx].side).2 - a.legs[idx].loss_weight,
        ),
        side_totals(clear_post(g, a, idx).1.assets[idx], other_side(a.legs[idx].side))
            == side_totals(g.assets[idx], other_side(a.legs[idx].side)),
        forall|j: int| 0 <= j < V13_MAX_PORTFOLIO_ASSETS_N && j != idx ==>
            #[trigger] clear_post(g, a, idx).1.assets[j] == g.assets[j],
{
    broadcast use vstd::array::group_array_axioms;
}

/// Account-local B settlement applies a positive chunk: a well-shaped account
/// whose active leg still owes B, settled under a positive budget, gets the
/// leg's snapshot strictly advanced by the engine-determined chunk, provided
/// the market's totals account for this account (its positive PnL is within
/// the positive-PnL total, the negative-PnL count can grow, a flagged account
/// is counted) and the booked loss keeps PnL representable and reserved PnL
/// covered.
pub proof fn law_settle_applies_positive_chunk(g: MarketGroupV13, a: PortfolioAccountV13, idx: int, budget: u128)
    requires
        shape_result(g, a) is Ok,
        0 <= idx < g.config.max_portfolio_assets,
        idx < V13_MAX_PORTFOLIO_ASSETS_N,
        a.legs[idx].active,
        b_target(g, idx, a.legs[idx]) is Ok,
        b_target(g, idx, a.legs[idx])->Ok_0 > a.legs[idx].b_snap,
        budget > 0,
        g.config.public_b_chunk_atoms > 0,
        (g.config.public_b_chunk_atoms + 1) * SOCIAL_LOSS_DEN <= u128::MAX,
        a.pnl - chunk_result(g, a, idx, budget)->Ok_0.loss > i128::MIN,
        a.reserved_pnl <= (if a.pnl - chunk_result(g, a, idx, budget)->Ok_0.loss > 0 {
            a.pnl - chunk_result(g, a, idx, budget)->Ok_0.loss
        } else {
            0
        }),
        g.pnl_pos_tot >= (if a.pnl > 0 { a.pnl as int } else { 0 }),
        g.negative_pnl_account_count < u64::MAX,
        a.b_stale_state ==> g.b_stale_account_count > 0,
    ensures
        settle_post(g, a, idx, budget).0 == chunk_result(g, a, idx, budget),
        chunk_result(g, a, idx, budget) is Ok,
        chunk_result(g, a, idx, budget)->Ok_0.delta_b > 0,
        settle_post(g, a, idx, budget).2.legs[idx].b_snap > a.legs[idx].b_snap,
{
    broadcast use vstd::array::group_array_axioms;
    law_b_chunk_progresses_or_requires_recovery(g, a, idx, budget);
    law_b_chunk_conserves_booked_loss(g, a, idx, budget);
    let c = chunk_result(g, a, idx, budget)->Ok_0;
    assert(c.loss <= 0x7fff_ffff_ffff_ffff_ffff_ffff_ffff_ffff) by (nonlinear_arith)
        requires
            c.loss * SOCIAL_LOSS_DEN + c.new_remainder <= u128::MAX,
            c.new_remainder >= 0,
            SOCIAL_LOSS_DEN == 1_000_000_000_000_000_000,
    ;
    let leg = a.legs[idx];
    assert(leg.b_snap + c.delta_b <= u128::MAX);
    let new_pnl = (a.pnl - c.loss) as i128;
    let a1 = with_leg(a, idx, settled_leg(leg, c));
    let s2 = set_pnl_post(g, a1, new_pnl);
    assert(s2.0 is Ok);
    let s3 = clear_b_stale_if_settled(s2.1, s2.2);
    assert(s3.0 is Ok);
    let a4 = invalidate_cert(s3.2);
    let n = g.config.max_portfolio_assets as int;
    lemma_slots_from_ok(n, a, 0);
    assert forall|j: int| 0 <= j < V13_MAX_PORTFOLIO_ASSETS_N implies #[trigger] slot_result(n, a4, j) is Ok by {
        assert(slot_result(n, a, j) is Ok);
        if j != idx {
            assert(a4.legs[j] == a.legs[j]);
        } else {
            assert(a4.legs[j] == settled_leg(leg, c));
        }
    }
    lemma_slots_from_ok(n, a4, 0);
    assert(shape_result(s3.1, a4) is Ok);
}

} // verus!
