use percolator::v13::{
    account_equity, risk_notional_ceil, HLockLaneV13, MarketGroupV13,
    PermissionlessProgressOutcomeV13, PermissionlessRecoveryReasonV13, PortfolioAccountV13,
    PortfolioLegV13, ProvenanceHeaderV13, RiskScoreV13, SideModeV13, SideV13, V13Config,
    V13Error, V13_MAX_PORTFOLIO_ASSETS_N,
};
use percolator::{ADL_ONE, MAX_VAULT_TVL, SOCIAL_LOSS_DEN};

fn ids() -> ([u8; 32], [u8; 32], [u8; 32]) {
    ([1; 32], [2; 32], [3; 32])
}

fn group_n(n: u8, h_max: u64) -> MarketGroupV13 {
    let (market, _, _) = ids();
    MarketGroupV13::new(market, V13Config::public_user_fund(n, 0, h_max)).unwrap()
}

fn account() -> PortfolioAccountV13 {
    let (market, account_id, owner) = ids();
    PortfolioAccountV13::empty(ProvenanceHeaderV13::new(market, account_id, owner))
}

#[test]
fn hlock_lane_is_hmax_exactly_under_a_lock_condition() {
    for mask in 0u32..128 {
        let mut g = group_n(1, 7);
        let mut a = account();
        g.threshold_stress_active = mask & 1 != 0;
        g.bankruptcy_hlock_active = mask & 2 != 0;
        g.loss_stale_active = mask & 4 != 0;
        g.active_bankrupt_close_present = mask & 8 != 0;
        a.stale_state = mask & 16 != 0;
        a.b_stale_state = mask & 32 != 0;
        let candidate = mask & 64 != 0;
        let lane = g.h_lock_lane(Some(&a), candidate).unwrap();
        let selected = g.select_h_lock(Some(&a), candidate).unwrap();
        if mask == 0 {
            assert_eq!(lane, HLockLaneV13::HMin);
            assert_eq!(selected, 0);
        } else {
            assert_eq!(lane, HLockLaneV13::HMax);
            assert_eq!(selected, 7);
        }
    }
}

#[test]
fn hlock_lane_without_account_uses_market_state_only() {
    let mut g = group_n(1, 7);
    assert_eq!(g.h_lock_lane(None, false), Ok(HLockLaneV13::HMin));
    g.loss_stale_active = true;
    assert_eq!(g.select_h_lock(None, false), Ok(7));
}

#[test]
fn hlock_lane_rejects_foreign_account() {
    let g = group_n(1, 7);
    let mut a = account();
    a.owner = [4; 32];
    assert_eq!(g.h_lock_lane(Some(&a), false), Err(V13Error::ProvenanceMismatch));
    assert_eq!(g.select_h_lock(Some(&a), false), Err(V13Error::ProvenanceMismatch));
}

#[test]
fn provenance_checks_version_and_layout() {
    let g = group_n(1, 1);
    let mut a = account();
    a.provenance_header.version = 2;
    assert_eq!(g.validate_portfolio_account_provenance(&a), Err(V13Error::ProvenanceMismatch));
    let mut b = account();
    b.provenance_header.layout_discriminator = 12;
    assert_eq!(g.validate_portfolio_account_provenance(&b), Err(V13Error::ProvenanceMismatch));
}

#[test]
fn equity_rejects_i128_min_pnl() {
    let mut a = account();
    a.pnl = i128::MIN;
    assert_eq!(account_equity(&a), Err(V13Error::ArithmeticOverflow));
}

#[test]
fn equity_rejects_positive_fee_credits_and_overflows() {
    let mut a = account();
    a.fee_credits = 1;
    assert_eq!(account_equity(&a), Err(V13Error::InvalidLeg));
    let mut b = account();
    b.capital = u128::MAX;
    assert_eq!(account_equity(&b), Err(V13Error::ArithmeticOverflow));
    let mut c = account();
    c.capital = i128::MAX as u128;
    c.pnl = 1;
    assert_eq!(account_equity(&c), Err(V13Error::ArithmeticOverflow));
    let mut d = account();
    d.pnl = i128::MIN + 1;
    d.fee_credits = -2;
    assert_eq!(account_equity(&d), Err(V13Error::ArithmeticOverflow));
    let mut e = account();
    e.capital = 10;
    e.pnl = -30;
    assert_eq!(account_equity(&e), Ok(-20));
}

#[test]
fn hidden_leg_is_rejected_by_bitmap_authority() {
    let g = group_n(1, 1);
    let mut a = account();
    a.legs[0].active = true;
    assert_eq!(g.validate_account_shape(&a), Err(V13Error::HiddenLeg));
    let mut b = account();
    b.active_bitmap = 1 << 3;
    assert_eq!(g.validate_account_shape(&b), Err(V13Error::HiddenLeg));
    let mut c = account();
    c.legs[2].b_snap = 5;
    assert_eq!(g.validate_account_shape(&c), Err(V13Error::HiddenLeg));
}

#[test]
fn shape_rejects_reserved_pnl_above_positive_pnl() {
    let g = group_n(1, 1);
    let mut a = account();
    a.pnl = 5;
    a.reserved_pnl = 6;
    assert_eq!(g.validate_account_shape(&a), Err(V13Error::InvalidLeg));
    a.reserved_pnl = 5;
    assert_eq!(g.validate_account_shape(&a), Ok(()));
}

#[test]
fn attach_then_clear_long_restores_counters() {
    let mut g = group_n(1, 1);
    let mut a = account();
    g.attach_leg(&mut a, 0, SideV13::Long, 7).unwrap();
    assert_eq!(a.active_bitmap, 1);
    assert_eq!(a.legs[0].basis_pos_q, 7);
    assert_eq!(g.assets[0].oi_eff_long_q, 7);
    g.clear_leg(&mut a, 0).unwrap();
    assert_eq!(a.active_bitmap, 0);
    assert_eq!(a.legs[0], PortfolioLegV13::default());
    assert_eq!(g.assets[0].oi_eff_long_q, 0);
    assert_eq!(g.assets[0].oi_eff_short_q, 0);
    assert_eq!(g.assets[0].stored_pos_count_long, 0);
    assert_eq!(g.assets[0].stored_pos_count_short, 0);
    assert_eq!(g.assets[0].loss_weight_sum_long, 0);
}

#[test]
fn attach_uses_ceiling_loss_weight_of_side_a() {
    let mut g = group_n(2, 1);
    g.assets[1].a_short = 3_000;
    let mut a = account();
    g.attach_leg(&mut a, 1, SideV13::Short, -7).unwrap();
    // ceil(7 * 1_000_000 / 3_000) = 2334
    assert_eq!(a.legs[1].loss_weight, 2334);
    assert_eq!(a.legs[1].a_basis, 3_000);
    assert_eq!(g.assets[1].loss_weight_sum_short, 2334);
    assert!(!a.health_cert.valid);
}

#[test]
fn attach_rejects_invalid_requests() {
    let mut g = group_n(2, 1);
    let mut a = account();
    assert_eq!(g.attach_leg(&mut a, 2, SideV13::Long, 1), Err(V13Error::InvalidLeg));
    assert_eq!(g.attach_leg(&mut a, 0, SideV13::Long, 0), Err(V13Error::InvalidLeg));
    assert_eq!(g.attach_leg(&mut a, 0, SideV13::Long, i128::MIN), Err(V13Error::InvalidLeg));
    g.assets[0].a_long = 999;
    assert_eq!(g.attach_leg(&mut a, 0, SideV13::Long, 1), Err(V13Error::InvalidLeg));
    g.assets[0].a_long = ADL_ONE;
    g.attach_leg(&mut a, 0, SideV13::Long, 1).unwrap();
    assert_eq!(g.attach_leg(&mut a, 0, SideV13::Short, -1), Err(V13Error::InvalidLeg));
    assert_eq!(g.assets[0].stored_pos_count_long, 1);
    assert_eq!(g.assets[0].stored_pos_count_short, 0);
}

#[test]
fn attach_counter_overflow_is_reported() {
    let mut g = group_n(1, 1);
    g.assets[0].stored_pos_count_long = u64::MAX;
    let mut a = account();
    assert_eq!(g.attach_leg(&mut a, 0, SideV13::Long, 1), Err(V13Error::CounterOverflow));
    assert_eq!(a.active_bitmap, 0);
}

#[test]
fn clear_leg_refuses_stale_or_inactive_legs() {
    let mut g = group_n(1, 1);
    let mut a = account();
    assert_eq!(g.clear_leg(&mut a, 0), Err(V13Error::InvalidLeg));
    g.attach_leg(&mut a, 0, SideV13::Long, 3).unwrap();
    g.mark_leg_b_stale(&mut a, 0).unwrap();
    assert_eq!(g.clear_leg(&mut a, 0), Err(V13Error::InvalidLeg));
    assert_eq!(g.b_stale_account_count, 1);
    assert!(a.b_stale_state);
}

#[test]
fn clear_b_stale_is_refused_while_a_leg_is_b_stale() {
    let mut g = group_n(1, 1);
    let mut a = account();
    g.attach_leg(&mut a, 0, SideV13::Long, 3).unwrap();
    g.mark_leg_b_stale(&mut a, 0).unwrap();
    assert_eq!(g.clear_account_b_stale(&mut a), Err(V13Error::BStale));
    assert!(a.b_stale_state);
}

#[test]
fn stale_counter_overflow_and_underflow_are_reported() {
    let mut g = group_n(1, 1);
    let mut a = account();
    g.stale_certificate_count = u64::MAX;
    assert_eq!(g.mark_account_stale(&mut a), Err(V13Error::CounterOverflow));
    assert!(a.stale_state);
    let mut g2 = group_n(1, 1);
    let mut b = account();
    b.stale_state = true;
    assert_eq!(g2.clear_account_stale(&mut b), Err(V13Error::CounterUnderflow));
    assert!(!b.stale_state);
}

#[test]
fn create_and_close_count_materialized_accounts() {
    let mut g = group_n(1, 1);
    let a = account();
    g.create_portfolio_account(&a).unwrap();
    assert_eq!(g.materialized_portfolio_count, 1);
    g.close_portfolio_account(&a).unwrap();
    assert_eq!(g.materialized_portfolio_count, 0);
    assert_eq!(g.close_portfolio_account(&a), Err(V13Error::CounterUnderflow));
    let mut funded = account();
    funded.capital = 1;
    assert_eq!(g.close_portfolio_account(&funded), Err(V13Error::LockActive));
    g.materialized_portfolio_count = u64::MAX;
    assert_eq!(g.create_portfolio_account(&a), Err(V13Error::CounterOverflow));
}

#[test]
fn b_chunk_advances_or_fails_closed_small_domain() {
    for target_units in 0u128..=4 {
        for budget_units in 0u128..=4 {
            let mut g = group_n(1, 1);
            let mut a = account();
            g.attach_leg(&mut a, 0, SideV13::Long, 1).unwrap();
            g.assets[0].b_long_num = target_units * SOCIAL_LOSS_DEN;
            g.mark_leg_b_stale(&mut a, 0).unwrap();
            let before_snap = a.legs[0].b_snap;
            let before_remaining = g.assets[0].b_long_num - before_snap;
            let budget = budget_units * SOCIAL_LOSS_DEN;
            let result = g.settle_account_b_chunk(&mut a, 0, budget);
            if before_remaining == 0 {
                assert!(result.is_ok());
                assert_eq!(a.legs[0].b_snap, before_snap);
            } else if budget == 0 {
                assert_eq!(result, Err(V13Error::RecoveryRequired));
                assert_eq!(a.legs[0].b_snap, before_snap);
            } else {
                let chunk = result.unwrap();
                assert!(chunk.delta_b > 0);
                assert!(a.legs[0].b_snap > before_snap);
                assert!(chunk.remaining_after < before_remaining);
            }
        }
    }
}

#[test]
fn b_chunk_books_exact_loss_into_pnl() {
    let mut g = group_n(1, 1);
    let mut a = account();
    g.attach_leg(&mut a, 0, SideV13::Long, 1).unwrap();
    g.assets[0].b_long_num = SOCIAL_LOSS_DEN * 3 + 5;
    g.mark_leg_b_stale(&mut a, 0).unwrap();
    let chunk = g.account_b_settlement_chunk(&a, 0, SOCIAL_LOSS_DEN * 3 + 5).unwrap();
    assert_eq!(chunk.delta_b, SOCIAL_LOSS_DEN * 3 + 5);
    assert_eq!(chunk.loss, 3);
    assert_eq!(chunk.new_remainder, 5);
    assert_eq!(chunk.remaining_after, 0);
    let applied = g.settle_account_b_chunk(&mut a, 0, SOCIAL_LOSS_DEN * 3 + 5).unwrap();
    assert_eq!(applied, chunk);
    assert_eq!(a.pnl, -3);
    assert_eq!(a.legs[0].b_rem, 5);
    assert!(!a.legs[0].b_stale);
    assert!(!a.b_stale_state);
    assert_eq!(g.b_stale_account_count, 0);
    assert_eq!(g.negative_pnl_account_count, 1);
}

#[test]
fn b_chunk_partial_progress_keeps_leg_b_stale() {
    let mut g = group_n(1, 1);
    let mut a = account();
    g.attach_leg(&mut a, 0, SideV13::Long, 1).unwrap();
    g.assets[0].b_long_num = 10;
    g.mark_leg_b_stale(&mut a, 0).unwrap();
    let chunk = g.settle_account_b_chunk(&mut a, 0, 4).unwrap();
    assert_eq!(chunk.delta_b, 4);
    assert_eq!(chunk.loss, 0);
    assert_eq!(chunk.new_remainder, 4);
    assert_eq!(chunk.remaining_after, 6);
    assert!(a.legs[0].b_stale);
    assert!(a.b_stale_state);
    assert_eq!(a.legs[0].b_snap, 4);
}

#[test]
fn b_chunk_uses_epoch_start_index_after_reset() {
    let mut g = group_n(1, 1);
    let mut a = account();
    g.attach_leg(&mut a, 0, SideV13::Long, 1).unwrap();
    g.assets[0].epoch_long = 1;
    g.assets[0].b_long_num = 100;
    g.assets[0].b_epoch_start_long_num = 8;
    assert_eq!(g.account_b_settlement_chunk(&a, 0, 100), Err(V13Error::InvalidLeg));
    g.assets[0].mode_long = SideModeV13::ResetPending;
    let chunk = g.account_b_settlement_chunk(&a, 0, 100).unwrap();
    assert_eq!(chunk.delta_b, 8);
    g.assets[0].epoch_long = 2;
    assert_eq!(g.account_b_settlement_chunk(&a, 0, 100), Err(V13Error::InvalidLeg));
}

#[test]
fn b_chunk_behind_snapshot_requires_recovery() {
    let mut g = group_n(1, 1);
    let mut a = account();
    g.assets[0].b_long_num = 10;
    g.attach_leg(&mut a, 0, SideV13::Long, 1).unwrap();
    g.assets[0].b_long_num = 9;
    assert_eq!(g.account_b_settlement_chunk(&a, 0, 100), Err(V13Error::RecoveryRequired));
}

#[test]
fn liquidation_progress_rejects_non_reducing_scores() {
    for deficit in [0u128, 1, 200] {
        let mut g = group_n(1, 1);
        let mut before = account();
        let mut after = before;
        g.full_account_refresh(&mut before, &[1; V13_MAX_PORTFOLIO_ASSETS_N]).unwrap();
        g.full_account_refresh(&mut after, &[1; V13_MAX_PORTFOLIO_ASSETS_N]).unwrap();
        before.health_cert.certified_liq_deficit = deficit;
        after.health_cert.certified_liq_deficit = deficit;
        assert_eq!(g.validate_liquidation_progress(&before, &after), Err(V13Error::NonProgress));
    }
}

#[test]
fn liquidation_progress_uses_lexicographic_score_order() {
    let mut g = group_n(1, 1);
    let mut before = account();
    let mut after = before;
    g.full_account_refresh(&mut before, &[1; V13_MAX_PORTFOLIO_ASSETS_N]).unwrap();
    g.full_account_refresh(&mut after, &[1; V13_MAX_PORTFOLIO_ASSETS_N]).unwrap();
    before.health_cert.certified_worst_case_loss = 5;
    after.health_cert.certified_worst_case_loss = 4;
    assert_eq!(g.validate_liquidation_progress(&before, &after), Ok(()));
    after.health_cert.valid = false;
    assert_eq!(g.validate_liquidation_progress(&before, &after), Err(V13Error::Stale));
}

#[test]
fn risk_score_strict_reduction_matches_field_order() {
    let base = RiskScoreV13 {
        certified_liq_deficit: 5,
        unsettled_b_loss_bound: 5,
        stale_loss_bound: 1,
        gross_risk_notional: 5,
        active_leg_count: 3,
    };
    let mut smaller = base;
    smaller.active_leg_count = 2;
    assert!(smaller.strictly_reduces_from(base));
    assert!(!base.strictly_reduces_from(base));
    let mut mixed = base;
    mixed.certified_liq_deficit = 4;
    mixed.gross_risk_notional = 100;
    assert!(mixed.strictly_reduces_from(base));
    assert!(!base.strictly_reduces_from(mixed));
    assert_eq!(mixed < base, mixed.strictly_reduces_from(base));
}

#[test]
fn risk_score_reports_b_loss_bound_and_leg_count() {
    let mut g = group_n(4, 1);
    let mut a = account();
    a.capital = 1_000;
    g.attach_leg(&mut a, 0, SideV13::Long, 2_000_000).unwrap();
    g.attach_leg(&mut a, 2, SideV13::Short, -3).unwrap();
    let cert = g.full_account_refresh(&mut a, &[10; V13_MAX_PORTFOLIO_ASSETS_N]).unwrap();
    assert_eq!(cert.certified_maintenance_req, 21);
    assert_eq!(cert.certified_liq_deficit, 0);
    g.mark_leg_b_stale(&mut a, 2).unwrap();
    a.health_cert.valid = true;
    let score = g.risk_score(&a).unwrap();
    assert_eq!(score.unsettled_b_loss_bound, 3);
    assert_eq!(score.active_leg_count, 2);
    assert_eq!(score.stale_loss_bound, 0);
    assert_eq!(score.gross_risk_notional, 21);
}

#[test]
fn refresh_certifies_deficits() {
    let mut g = group_n(1, 1);
    let mut a = account();
    a.capital = 50;
    g.attach_leg(&mut a, 0, SideV13::Long, 1_000_000).unwrap();
    let cert = g.full_account_refresh(&mut a, &[80; V13_MAX_PORTFOLIO_ASSETS_N]).unwrap();
    assert_eq!(cert.certified_equity, 50);
    assert_eq!(cert.certified_liq_deficit, 30);
    a.pnl = -70;
    let cert = g.full_account_refresh(&mut a, &[80; V13_MAX_PORTFOLIO_ASSETS_N]).unwrap();
    assert_eq!(cert.certified_equity, -20);
    assert_eq!(cert.certified_liq_deficit, 20);
    assert_eq!(a.health_cert, cert);
}

#[test]
fn refresh_rejects_bad_prices_and_stale_accounts() {
    let mut g = group_n(1, 1);
    let mut a = account();
    g.attach_leg(&mut a, 0, SideV13::Long, 1).unwrap();
    assert_eq!(
        g.full_account_refresh(&mut a, &[0; V13_MAX_PORTFOLIO_ASSETS_N]),
        Err(V13Error::InvalidConfig)
    );
    assert!(!a.health_cert.valid);
    g.mark_account_stale(&mut a).unwrap();
    assert_eq!(
        g.full_account_refresh(&mut a, &[1; V13_MAX_PORTFOLIO_ASSETS_N]),
        Err(V13Error::Stale)
    );
}

#[test]
fn favorable_action_requires_current_full_refresh() {
    let mut g = group_n(1, 1);
    let mut a = account();
    a.capital = 2;
    assert_eq!(g.ensure_favorable_action_allowed(&a), Err(V13Error::Stale));
    g.full_account_refresh(&mut a, &[1; V13_MAX_PORTFOLIO_ASSETS_N]).unwrap();
    assert_eq!(g.ensure_favorable_action_allowed(&a), Ok(()));
    g.funding_epoch += 1;
    assert_eq!(g.ensure_favorable_action_allowed(&a), Err(V13Error::Stale));
    g.full_account_refresh(&mut a, &[1; V13_MAX_PORTFOLIO_ASSETS_N]).unwrap();
    g.bankruptcy_hlock_active = true;
    assert_eq!(g.ensure_favorable_action_allowed(&a), Err(V13Error::LockActive));
}

#[test]
fn risk_notional_is_exact_ceiling() {
    assert_eq!(risk_notional_ceil(0, 5), Ok(0));
    assert_eq!(risk_notional_ceil(1_000_000, 100), Ok(100));
    assert_eq!(risk_notional_ceil(1_500_000, 3), Ok(5));
    assert_eq!(risk_notional_ceil(u128::MAX, 1), Ok(u128::MAX / 1_000_000 + 1));
    assert_eq!(risk_notional_ceil(u128::MAX, u64::MAX), Err(V13Error::ArithmeticOverflow));
    assert_eq!(risk_notional_ceil(u128::MAX / 2, 2_000_000), Ok(u128::MAX - 1));
    assert_eq!(risk_notional_ceil(u128::MAX / 2, 3_000_000), Err(V13Error::ArithmeticOverflow));
}

#[test]
fn public_invariants_check_balances_and_assets() {
    let mut g = group_n(2, 1);
    assert_eq!(g.assert_public_invariants(), Ok(()));
    g.vault = MAX_VAULT_TVL + 1;
    assert_eq!(g.assert_public_invariants(), Err(V13Error::InvalidConfig));
    g.vault = 10;
    g.c_tot = u128::MAX;
    g.insurance = 1;
    assert_eq!(g.assert_public_invariants(), Err(V13Error::ArithmeticOverflow));
    g.c_tot = 6;
    g.insurance = 5;
    assert_eq!(g.assert_public_invariants(), Err(V13Error::InvalidConfig));
    g.insurance = 4;
    assert_eq!(g.assert_public_invariants(), Ok(()));
    g.assets[1].effective_price = 0;
    assert_eq!(g.assert_public_invariants(), Err(V13Error::InvalidConfig));
    g.assets[1].effective_price = 1;
    g.assets[5].effective_price = 0;
    assert_eq!(g.assert_public_invariants(), Ok(()));
    g.slot_last = 3;
    assert_eq!(g.assert_public_invariants(), Err(V13Error::InvalidConfig));
}

#[test]
fn recovery_requires_enabled_configuration() {
    let mut g = group_n(1, 1);
    g.config.permissionless_recovery_enabled = false;
    let reason = PermissionlessRecoveryReasonV13::BIndexHeadroomExhausted;
    assert_eq!(g.declare_permissionless_recovery(reason), Err(V13Error::InvalidConfig));
    assert_eq!(g.recovery_reason, None);
    g.config.permissionless_recovery_enabled = true;
    assert_eq!(
        g.declare_permissionless_recovery(reason),
        Ok(PermissionlessProgressOutcomeV13::RecoveryDeclared(reason))
    );
}

#[test]
fn config_validation_rejects_each_bad_field() {
    let (market, _, _) = ids();
    assert_eq!(
        MarketGroupV13::new(market, V13Config::public_user_fund(0, 0, 10)),
        Err(V13Error::InvalidConfig)
    );
    assert_eq!(
        MarketGroupV13::new(market, V13Config::public_user_fund(4, 0, 0)),
        Err(V13Error::InvalidConfig)
    );
    assert_eq!(
        MarketGroupV13::new(market, V13Config::public_user_fund(4, 11, 10)),
        Err(V13Error::InvalidConfig)
    );
    let mut cfg = V13Config::public_user_fund(16, 10, 10);
    assert_eq!(cfg.validate_public_user_fund(), Ok(()));
    cfg.maintenance_margin_bps = 10_001;
    assert_eq!(cfg.validate_public_user_fund(), Err(V13Error::InvalidConfig));
    let mut cfg2 = V13Config::public_user_fund(16, 10, 10);
    cfg2.public_liveness_profile_crank_forward = false;
    assert_eq!(cfg2.validate_public_user_fund(), Err(V13Error::InvalidConfig));
    let g = MarketGroupV13::new(market, V13Config::public_user_fund(16, 10, 10)).unwrap();
    assert_eq!(g.assets[15].a_long, ADL_ONE);
    assert_eq!(g.materialized_portfolio_count, 0);
}

#[test]
fn foreign_account_is_refused_without_mutation() {
    let mut g = group_n(2, 1);
    let mut a = account();
    a.provenance_header.market_group_id = [9; 32];
    let g0 = g;
    let a0 = a;
    assert_eq!(g.create_portfolio_account(&a), Err(V13Error::ProvenanceMismatch));
    assert_eq!(g.mark_account_stale(&mut a), Err(V13Error::ProvenanceMismatch));
    assert_eq!(g.mark_account_b_stale(&mut a), Err(V13Error::ProvenanceMismatch));
    assert_eq!(g.attach_leg(&mut a, 0, SideV13::Long, 1), Err(V13Error::ProvenanceMismatch));
    assert_eq!(g.clear_leg(&mut a, 0), Err(V13Error::ProvenanceMismatch));
    assert_eq!(
        g.full_account_refresh(&mut a, &[1; V13_MAX_PORTFOLIO_ASSETS_N]),
        Err(V13Error::ProvenanceMismatch)
    );
    assert_eq!(g.settle_account_b_chunk(&mut a, 0, 1), Err(V13Error::ProvenanceMismatch));
    assert_eq!(g.ensure_favorable_action_allowed(&a), Err(V13Error::ProvenanceMismatch));
    assert_eq!(g.risk_score(&a), Err(V13Error::ProvenanceMismatch));
    assert_eq!(g, g0);
    assert_eq!(a, a0);
}

#[test]
fn leg_changes_void_the_certificate() {
    let mut g = group_n(2, 1);
    let mut a = account();
    a.capital = 100;
    g.full_account_refresh(&mut a, &[1; V13_MAX_PORTFOLIO_ASSETS_N]).unwrap();
    assert_eq!(g.ensure_favorable_action_allowed(&a), Ok(()));
    g.attach_leg(&mut a, 1, SideV13::Long, 5).unwrap();
    assert!(!a.health_cert.valid);
    assert_eq!(g.ensure_favorable_action_allowed(&a), Err(V13Error::Stale));
    g.full_account_refresh(&mut a, &[1; V13_MAX_PORTFOLIO_ASSETS_N]).unwrap();
    assert_eq!(g.ensure_favorable_action_allowed(&a), Ok(()));
    g.clear_leg(&mut a, 1).unwrap();
    assert_eq!(g.ensure_favorable_action_allowed(&a), Err(V13Error::Stale));
    g.full_account_refresh(&mut a, &[1; V13_MAX_PORTFOLIO_ASSETS_N]).unwrap();
    g.mark_account_stale(&mut a).unwrap();
    assert_eq!(g.ensure_favorable_action_allowed(&a), Err(V13Error::LockActive));
}

#[test]
fn settle_with_nothing_owed_clears_b_stale_flag() {
    let mut g = group_n(1, 1);
    let mut a = account();
    g.attach_leg(&mut a, 0, SideV13::Long, 1).unwrap();
    g.mark_account_b_stale(&mut a).unwrap();
    assert_eq!(g.b_stale_account_count, 1);
    let chunk = g.settle_account_b_chunk(&mut a, 0, 0).unwrap();
    assert_eq!(chunk.delta_b, 0);
    assert_eq!(chunk.remaining_after, 0);
    assert!(!a.b_stale_state);
    assert_eq!(g.b_stale_account_count, 0);
}

#[test]
fn bitmap_bits_beyond_leg_slots_are_hidden_legs() {
    let g = group_n(4, 1);
    let mut a = account();
    a.active_bitmap = 1 << 16;
    assert_eq!(g.validate_account_shape(&a), Err(V13Error::HiddenLeg));
    a.active_bitmap = 1 << 31;
    assert_eq!(g.validate_account_shape(&a), Err(V13Error::HiddenLeg));
    assert_eq!(g.risk_score(&a), Err(V13Error::HiddenLeg));
}

#[test]
fn b_stale_leg_blocks_refresh_and_favorable_action() {
    let mut g = group_n(1, 1);
    let mut a = account();
    a.capital = 100;
    g.attach_leg(&mut a, 0, SideV13::Long, 1).unwrap();
    g.full_account_refresh(&mut a, &[1; V13_MAX_PORTFOLIO_ASSETS_N]).unwrap();
    assert_eq!(g.ensure_favorable_action_allowed(&a), Ok(()));
    g.assets[0].b_long_num = 10;
    a.legs[0].b_stale = true;
    assert!(!a.b_stale_state);
    assert_eq!(g.ensure_favorable_action_allowed(&a), Err(V13Error::BStale));
    assert_eq!(
        g.full_account_refresh(&mut a, &[1; V13_MAX_PORTFOLIO_ASSETS_N]),
        Err(V13Error::BStale)
    );
    let chunk = g.settle_account_b_chunk(&mut a, 0, 4).unwrap();
    assert_eq!(chunk.remaining_after, 6);
    assert!(a.legs[0].b_stale);
    assert_eq!(
        g.full_account_refresh(&mut a, &[1; V13_MAX_PORTFOLIO_ASSETS_N]),
        Err(V13Error::BStale)
    );
    assert_eq!(g.ensure_favorable_action_allowed(&a), Err(V13Error::Stale));
    g.settle_account_b_chunk(&mut a, 0, 6).unwrap();
    assert!(!a.legs[0].b_stale);
    g.full_account_refresh(&mut a, &[1; V13_MAX_PORTFOLIO_ASSETS_N]).unwrap();
    assert_eq!(g.ensure_favorable_action_allowed(&a), Ok(()));
}

#[test]
fn stale_leg_blocks_refresh_and_favorable_action() {
    let mut g = group_n(1, 1);
    let mut a = account();
    a.capital = 100;
    g.attach_leg(&mut a, 0, SideV13::Short, -2).unwrap();
    g.full_account_refresh(&mut a, &[1; V13_MAX_PORTFOLIO_ASSETS_N]).unwrap();
    a.legs[0].stale = true;
    assert_eq!(g.ensure_favorable_action_allowed(&a), Err(V13Error::Stale));
    assert_eq!(
        g.full_account_refresh(&mut a, &[1; V13_MAX_PORTFOLIO_ASSETS_N]),
        Err(V13Error::Stale)
    );
}

#[test]
fn stale_leg_refusals_keep_earlier_errors_first() {
    let mut g = group_n(1, 1);
    let mut a = account();
    a.capital = 100;
    g.attach_leg(&mut a, 0, SideV13::Long, 1).unwrap();
    a.legs[0].b_stale = true;
    assert_eq!(
        g.full_account_refresh(&mut a, &[0; V13_MAX_PORTFOLIO_ASSETS_N]),
        Err(V13Error::InvalidConfig)
    );
    assert!(!a.health_cert.valid);
    assert_eq!(g.ensure_favorable_action_allowed(&a), Err(V13Error::Stale));
    a.pnl = i128::MAX;
    a.capital = 1;
    assert_eq!(
        g.full_account_refresh(&mut a, &[1; V13_MAX_PORTFOLIO_ASSETS_N]),
        Err(V13Error::ArithmeticOverflow)
    );
}

#[test]
fn high_bitmap_bits_are_checked_after_the_leg_slots() {
    let g = group_n(1, 1);
    let mut a = account();
    a.legs[0] = PortfolioLegV13 {
        active: true,
        side: SideV13::Long,
        basis_pos_q: 1,
        a_basis: ADL_ONE,
        k_snap: i128::MIN,
        f_snap: 0,
        epoch_snap: 0,
        loss_weight: 1,
        b_snap: 0,
        b_rem: 0,
        b_epoch_snap: 0,
        b_stale: false,
        stale: false,
    };
    a.active_bitmap = 1 | (1 << 20);
    assert_eq!(g.validate_account_shape(&a), Err(V13Error::ArithmeticOverflow));
    a.legs[0].k_snap = 0;
    assert_eq!(g.validate_account_shape(&a), Err(V13Error::HiddenLeg));
    a.active_bitmap = 1;
    assert_eq!(g.validate_account_shape(&a), Ok(()));
}
