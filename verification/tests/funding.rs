use escrow::{init_with_floor, EscrowError, LedgerInfo, LiquifactEscrow, YieldTier};

const TARGET: i128 = 10_000_0000000i128;

fn account(name: &str) -> String {
    String::from(name)
}

fn ledger() -> LedgerInfo {
    LedgerInfo { timestamp: 0, sequence: 0 }
}

fn init_full(
    client: &mut LiquifactEscrow,
    invoice_id: &str,
    amount: i128,
    yield_bps: i64,
    maturity: u64,
    tiers: Option<Vec<YieldTier>>,
    floor: Option<i128>,
) -> Result<escrow::InvoiceEscrow, EscrowError> {
    client.init(
        account("admin"),
        String::from(invoice_id),
        account("sme"),
        amount,
        yield_bps,
        maturity,
        account("token"),
        None,
        account("treasury"),
        tiers,
        floor,
        None,
    )
}

fn default_init(client: &mut LiquifactEscrow) {
    init_full(client, "INV001", TARGET, 800, 1000, None, None).unwrap();
}

fn floor_escrow(invoice_id: &str, target: i128, floor: i128) -> (LiquifactEscrow, String) {
    let client = init_with_floor(
        account("admin"),
        String::from(invoice_id),
        account("sme"),
        account("token"),
        account("treasury"),
        target,
        floor,
    )
    .unwrap();
    (client, account("investor"))
}

#[test]
fn test_fund_and_settle() {
    let mut client = LiquifactEscrow::new();
    let investor = account("investor");
    init_full(&mut client, "INVMETA", TARGET, 800, 0, None, None).unwrap();
    let funded = client.fund(&investor, TARGET, ledger()).unwrap();
    assert_eq!(funded.funded_amount, TARGET);
    assert_eq!(funded.status, 1);
    let settled = client.settle(TARGET + TARGET * 800 / 10000).unwrap();
    assert_eq!(settled.status, 2);
}

#[test]
fn test_fund_partial_then_full() {
    let mut client = LiquifactEscrow::new();
    let investor = account("investor");
    init_full(&mut client, "INV002", TARGET, 800, 0, None, None).unwrap();
    let partial = client.fund(&investor, TARGET / 2, ledger()).unwrap();
    assert_eq!(partial.status, 0);
    assert_eq!(partial.funded_amount, TARGET / 2);
    let full = client.fund(&investor, TARGET / 2, ledger()).unwrap();
    assert_eq!(full.status, 1);
    assert_eq!(full.funded_amount, TARGET);
}

#[test]
fn test_fund_zero_amount_panics() {
    let mut client = LiquifactEscrow::new();
    let investor = account("investor");
    default_init(&mut client);
    let r = client.fund(&investor, 0i128, ledger());
    assert_eq!(r.unwrap_err(), EscrowError::FundingAmountNotPositive);
    assert_eq!(
        EscrowError::FundingAmountNotPositive.message(),
        "Funding amount must be positive"
    );
}

#[test]
fn test_fund_after_funded_panics() {
    let mut client = LiquifactEscrow::new();
    let investor = account("investor");
    default_init(&mut client);
    client.fund(&investor, TARGET, ledger()).unwrap();
    assert_eq!(
        client.fund(&investor, 1i128, ledger()).unwrap_err(),
        EscrowError::NotOpenForFunding
    );
}

#[test]
fn test_single_investor_contribution_tracked() {
    let mut client = LiquifactEscrow::new();
    let investor = account("investor");
    init_full(&mut client, "INV020", TARGET, 800, 1000, None, None).unwrap();
    client.fund(&investor, 3_000_0000000i128, ledger()).unwrap();
    assert_eq!(client.get_contribution(&investor), 3_000_0000000i128);
}

#[test]
fn test_unknown_investor_contribution_is_zero() {
    let mut client = LiquifactEscrow::new();
    let investor = account("investor");
    let stranger = account("stranger");
    default_init(&mut client);
    client.fund(&investor, 1_000i128, ledger()).unwrap();
    assert_eq!(client.get_contribution(&stranger), 0i128);
}

#[test]
fn test_repeated_funding_accumulates_contribution() {
    let mut client = LiquifactEscrow::new();
    let investor = account("investor");
    init_full(&mut client, "INV021", TARGET, 800, 1000, None, None).unwrap();
    client.fund(&investor, 2_000_0000000i128, ledger()).unwrap();
    client.fund(&investor, 3_000_0000000i128, ledger()).unwrap();
    assert_eq!(client.get_contribution(&investor), 5_000_0000000i128);
}

#[test]
fn test_multiple_investors_tracked_independently() {
    let mut client = LiquifactEscrow::new();
    let inv_a = account("a");
    let inv_b = account("b");
    let inv_c = account("c");
    init_full(&mut client, "INV023", TARGET, 800, 1000, None, None).unwrap();
    client.fund(&inv_a, 2_000_0000000i128, ledger()).unwrap();
    client.fund(&inv_b, 5_000_0000000i128, ledger()).unwrap();
    client.fund(&inv_c, 3_000_0000000i128, ledger()).unwrap();
    assert_eq!(client.get_contribution(&inv_a), 2_000_0000000i128);
    assert_eq!(client.get_contribution(&inv_b), 5_000_0000000i128);
    assert_eq!(client.get_contribution(&inv_c), 3_000_0000000i128);
    let sum = client.get_contribution(&inv_a)
        + client.get_contribution(&inv_b)
        + client.get_contribution(&inv_c);
    assert_eq!(sum, client.get_escrow().unwrap().funded_amount);
}

#[test]
fn test_contributions_sum_equals_funded_amount() {
    let mut client = LiquifactEscrow::new();
    let inv_a = account("a");
    let inv_b = account("b");
    let inv_c = account("c");
    init_full(&mut client, "INV023b", TARGET, 800, 1000, None, None).unwrap();
    client.fund(&inv_a, 2_000_0000000i128, ledger()).unwrap();
    client.fund(&inv_b, 5_000_0000000i128, ledger()).unwrap();
    client.fund(&inv_c, 3_000_0000000i128, ledger()).unwrap();
    let sum = client.get_contribution(&inv_a)
        + client.get_contribution(&inv_b)
        + client.get_contribution(&inv_c);
    assert_eq!(sum, client.get_escrow().unwrap().funded_amount);
}

#[test]
fn test_cost_baseline_fund_partial() {
    let mut client = LiquifactEscrow::new();
    let investor = account("investor");
    init_full(&mut client, "INV103", TARGET, 800, 1000, None, None).unwrap();
    client.fund(&investor, 1_000_0000000i128, ledger()).unwrap();
}

#[test]
fn test_cost_baseline_fund_full() {
    let mut client = LiquifactEscrow::new();
    let investor = account("investor");
    init_full(&mut client, "INV104", TARGET, 800, 1000, None, None).unwrap();
    client.fund(&investor, TARGET, ledger()).unwrap();
}

#[test]
fn test_cost_baseline_fund_overshoot() {
    let mut client = LiquifactEscrow::new();
    let investor = account("investor");
    init_full(&mut client, "INV105", TARGET, 800, 1000, None, None).unwrap();
    client.fund(&investor, 15_000_0000000i128, ledger()).unwrap();
    assert_eq!(client.get_escrow().unwrap().status, 1);
}

#[test]
fn test_cost_baseline_fund_two_step_completion() {
    let mut client = LiquifactEscrow::new();
    let investor = account("investor");
    init_full(&mut client, "INV106", TARGET, 800, 1000, None, None).unwrap();
    client.fund(&investor, TARGET / 2, ledger()).unwrap();
    client.fund(&investor, TARGET / 2, ledger()).unwrap();
    assert_eq!(client.get_escrow().unwrap().status, 1);
}

#[test]
fn test_funding_close_snapshot_captures_overfunded_total_once() {
    let mut client = LiquifactEscrow::new();
    let inv = account("investor");
    let now = LedgerInfo { timestamp: 1_700_000_000, sequence: 42 };
    init_full(&mut client, "SNAP001", TARGET, 800, 0, None, None).unwrap();
    assert_eq!(client.get_funding_close_snapshot(), None);
    client.fund(&inv, TARGET + 5_000_0000000i128, now).unwrap();
    let snap = client.get_funding_close_snapshot().expect("snapshot");
    assert_eq!(snap.total_principal, TARGET + 5_000_0000000i128);
    assert_eq!(snap.funding_target, TARGET);
    assert_eq!(snap.closed_at_ledger_timestamp, now.timestamp);
    assert_eq!(snap.closed_at_ledger_sequence, now.sequence);
}

#[test]
fn test_funding_snapshot_immutable_across_second_fund_after_funded() {
    let mut client = LiquifactEscrow::new();
    let a = account("a");
    let b = account("b");
    init_full(&mut client, "SNAP002", TARGET, 800, 0, None, None).unwrap();
    client.fund(&a, TARGET / 2, ledger()).unwrap();
    assert_eq!(client.get_funding_close_snapshot(), None);
    client.fund(&b, TARGET / 2, ledger()).unwrap();
    let s1 = client.get_funding_close_snapshot().unwrap();
    assert_eq!(s1.total_principal, TARGET);
    let s2 = client.get_funding_close_snapshot().unwrap();
    assert_eq!(s1, s2);
}

#[test]
fn test_pro_rata_weight_ratio_from_snapshot() {
    let mut client = LiquifactEscrow::new();
    let a = account("a");
    let b = account("b");
    init_full(&mut client, "SNAP003", TARGET, 800, 0, None, None).unwrap();
    client.fund(&a, 2_000_0000000i128, ledger()).unwrap();
    client.fund(&b, 8_000_0000000i128, ledger()).unwrap();
    let snap = client.get_funding_close_snapshot().unwrap();
    assert_eq!(snap.total_principal, TARGET);
    let ca = client.get_contribution(&a);
    let cb = client.get_contribution(&b);
    assert_eq!(ca + cb, snap.total_principal);
}

#[test]
fn test_tiered_yield_and_follow_on_fund() {
    let mut client = LiquifactEscrow::new();
    let inv = account("investor");
    let tiers = vec![
        YieldTier { min_lock_secs: 100, yield_bps: 900 },
        YieldTier { min_lock_secs: 500, yield_bps: 1100 },
    ];
    init_full(&mut client, "TIER001", 10_000i128, 800, 0, Some(tiers), None).unwrap();
    client.fund_with_commitment(&inv, 5_000i128, 200u64, ledger()).unwrap();
    assert_eq!(client.get_investor_yield_bps(&inv).unwrap(), 900);
    assert_eq!(client.get_investor_claim_not_before(&inv), 200);
    client.fund(&inv, 5_000i128, ledger()).unwrap();
    assert_eq!(client.get_investor_yield_bps(&inv).unwrap(), 900);
    assert_eq!(client.get_escrow().unwrap().status, 1);
}

#[test]
fn test_tier_selection_edges_base_vs_high_bucket() {
    let mut client = LiquifactEscrow::new();
    let i_short = account("short");
    let i_long = account("long");
    let tiers = vec![YieldTier { min_lock_secs: 50, yield_bps: 850 }];
    init_full(&mut client, "TIER002", 20_000i128, 800, 0, Some(tiers), None).unwrap();
    client.fund_with_commitment(&i_short, 10_000i128, 40u64, ledger()).unwrap();
    assert_eq!(client.get_investor_yield_bps(&i_short).unwrap(), 800);
    client.fund_with_commitment(&i_long, 10_000i128, 50u64, ledger()).unwrap();
    assert_eq!(client.get_investor_yield_bps(&i_long).unwrap(), 850);
}

#[test]
fn test_fund_with_commitment_twice_panics() {
    let mut client = LiquifactEscrow::new();
    let inv = account("investor");
    let tiers = vec![YieldTier { min_lock_secs: 1, yield_bps: 810 }];
    init_full(&mut client, "TIER003", 10_000i128, 800, 0, Some(tiers), None).unwrap();
    client.fund_with_commitment(&inv, 5_000i128, 10u64, ledger()).unwrap();
    let r = client.fund_with_commitment(&inv, 5_000i128, 10u64, ledger());
    assert_eq!(r.unwrap_err(), EscrowError::AdditionalPrincipalAfterTieredDeposit);
    assert_eq!(
        EscrowError::AdditionalPrincipalAfterTieredDeposit.message(),
        "Additional principal after a tiered first deposit"
    );
}

#[test]
fn test_init_bad_tier_order_panics() {
    let mut client = LiquifactEscrow::new();
    let tiers = vec![
        YieldTier { min_lock_secs: 200, yield_bps: 900 },
        YieldTier { min_lock_secs: 100, yield_bps: 950 },
    ];
    let r = init_full(&mut client, "BADTIER", 1_000i128, 800, 0, Some(tiers), None);
    assert_eq!(r.unwrap_err(), EscrowError::TierLocksNotIncreasing);
    assert!(EscrowError::TierLocksNotIncreasing
        .message()
        .contains("strictly increasing min_lock_secs"));
}

#[test]
fn test_init_tier_yield_below_base_panics() {
    let mut client = LiquifactEscrow::new();
    let tiers = vec![YieldTier { min_lock_secs: 10, yield_bps: 700 }];
    let r = init_full(&mut client, "BADT2", 1_000i128, 800, 0, Some(tiers), None);
    assert_eq!(r.unwrap_err(), EscrowError::TierYieldBelowBase);
    assert_eq!(
        EscrowError::TierYieldBelowBase.message(),
        "tier yield_bps must be >= base yield_bps"
    );
}

#[test]
fn test_differential_funding_target_eq_exact_cross() {
    let mut client = LiquifactEscrow::new();
    let inv = account("investor");
    let t = 5_000i128;
    init_full(&mut client, "DIFF002", t, 100, 0, None, None).unwrap();
    let escrow = client.fund(&inv, t, ledger()).unwrap();
    assert_eq!(escrow.funded_amount, t);
    assert_eq!(escrow.status, 1);
    let snap = client.get_funding_close_snapshot().unwrap();
    assert_eq!(snap.total_principal, t);
    assert_eq!(snap.funding_target, t);
}

#[test]
fn test_ledger_sequence_recorded_in_snapshot_with_tick() {
    let mut client = LiquifactEscrow::new();
    let inv = account("investor");
    init_full(&mut client, "DIFF003", 1_000i128, 100, 0, None, None).unwrap();
    let now = LedgerInfo { timestamp: 5, sequence: 17 };
    let seq = now.sequence;
    client.fund(&inv, 1_000i128, now).unwrap();
    let snap = client.get_funding_close_snapshot().unwrap();
    assert_eq!(snap.closed_at_ledger_sequence, seq);
}

#[test]
fn test_get_min_contribution_floor_returns_configured_value() {
    let (client, _) = floor_escrow("FL001", 10_000i128, 500i128);
    assert_eq!(client.get_min_contribution_floor(), 500i128);
}

#[test]
fn test_fund_at_floor_succeeds() {
    let (mut client, investor) = floor_escrow("FL002", 10_000i128, 500i128);
    let escrow = client.fund(&investor, 500i128, ledger()).unwrap();
    assert_eq!(client.get_contribution(&investor), 500i128);
    assert_eq!(escrow.funded_amount, 500i128);
}

#[test]
fn test_fund_below_floor_panics() {
    let (mut client, investor) = floor_escrow("FL003", 10_000i128, 500i128);
    let r = client.fund(&investor, 499i128, ledger());
    assert_eq!(r.unwrap_err(), EscrowError::BelowMinContribution);
    assert_eq!(
        EscrowError::BelowMinContribution.message(),
        "funding amount below min_contribution floor"
    );
}

#[test]
fn test_fund_one_above_floor_succeeds() {
    let (mut client, investor) = floor_escrow("FL004", 10_000i128, 500i128);
    client.fund(&investor, 501i128, ledger()).unwrap();
    assert_eq!(client.get_contribution(&investor), 501i128);
}

#[test]
fn test_fund_follow_on_below_floor_panics() {
    let (mut client, investor) = floor_escrow("FL005", 10_000i128, 500i128);
    client.fund(&investor, 500i128, ledger()).unwrap();
    let r = client.fund(&investor, 499i128, ledger());
    assert_eq!(r.unwrap_err(), EscrowError::BelowMinContribution);
}

#[test]
fn test_fund_follow_on_at_floor_accumulates() {
    let (mut client, investor) = floor_escrow("FL006", 10_000i128, 500i128);
    client.fund(&investor, 500i128, ledger()).unwrap();
    client.fund(&investor, 500i128, ledger()).unwrap();
    assert_eq!(client.get_contribution(&investor), 1_000i128);
}

#[test]
fn test_fund_no_floor_accepts_one_unit() {
    let mut client = LiquifactEscrow::new();
    let investor = account("investor");
    default_init(&mut client);
    client.fund(&investor, 1i128, ledger()).unwrap();
    assert_eq!(client.get_contribution(&investor), 1i128);
}

#[test]
fn test_fund_overshoot_with_floor_records_snapshot() {
    let target = 5_000i128;
    let floor = 1_000i128;
    let (mut client, investor) = floor_escrow("FL007", target, floor);
    let escrow = client.fund(&investor, 6_000i128, ledger()).unwrap();
    assert_eq!(escrow.status, 1);
    assert_eq!(escrow.funded_amount, 6_000i128);
    let snap = client.get_funding_close_snapshot().unwrap();
    assert_eq!(snap.total_principal, 6_000i128);
    assert_eq!(snap.funding_target, target);
}

#[test]
fn test_fund_two_investors_at_floor_reach_target() {
    let target = 2_000i128;
    let floor = 1_000i128;
    let (mut client, inv_a) = floor_escrow("FL008", target, floor);
    let inv_b = account("b");
    client.fund(&inv_a, floor, ledger()).unwrap();
    let escrow = client.fund(&inv_b, floor, ledger()).unwrap();
    assert_eq!(escrow.status, 1);
    assert_eq!(escrow.funded_amount, target);
    assert_eq!(
        client.get_contribution(&inv_a) + client.get_contribution(&inv_b),
        target
    );
    let snap = client.get_funding_close_snapshot().unwrap();
    assert_eq!(snap.total_principal, target);
}

#[test]
fn test_fund_with_commitment_below_floor_panics() {
    let (mut client, investor) = floor_escrow("FL009", 10_000i128, 500i128);
    let r = client.fund_with_commitment(&investor, 499i128, 0u64, ledger());
    assert_eq!(r.unwrap_err(), EscrowError::BelowMinContribution);
}

#[test]
fn test_fund_with_commitment_at_floor_succeeds() {
    let (mut client, investor) = floor_escrow("FL010", 10_000i128, 500i128);
    client.fund_with_commitment(&investor, 500i128, 0u64, ledger()).unwrap();
    assert_eq!(client.get_contribution(&investor), 500i128);
}

#[test]
fn test_fund_floor_equals_target_exact_fill() {
    let amount = 1_000i128;
    let (mut client, investor) = floor_escrow("FL011", amount, amount);
    let escrow = client.fund(&investor, amount, ledger()).unwrap();
    assert_eq!(escrow.status, 1);
    assert_eq!(escrow.funded_amount, amount);
    let snap = client.get_funding_close_snapshot().unwrap();
    assert_eq!(snap.total_principal, amount);
    assert_eq!(snap.funding_target, amount);
}
