use vstd::prelude::*;
use crate::types::{EscrowError, LedgerInfo, YieldTier, SCHEMA_VERSION};
use crate::records::{
    investor_cap, EscrowTerms, InvestorPosition, InvoiceEscrow, STATUS_FUNDED, STATUS_OPEN,
    STATUS_SETTLED,
};
use crate::arith::{interest_of, locks_strictly_increasing, principal_with_interest, tier_yield};
use crate::model::{
    claim_step, contribution_of, fund_step, init_step, initial_escrow, inv, investors_distinct,
    position_index, settle_step, step, sum_principal, total_due, update_maturity_step, Action,
    EscrowModel,
};

verus! {

/// Replacing one position changes the total principal by the difference.
pub proof fn lemma_sum_update(ps: Seq<InvestorPosition>, k: int, p: InvestorPosition)
    requires
        0 <= k < ps.len(),
    ensures
        sum_principal(ps.update(k, p)) == sum_principal(ps) - ps[k].principal + p.principal,
    decreases ps.len(),
{
    let u = ps.update(k, p);
    if k == ps.len() - 1 {
        assert(u.drop_last() =~= ps.drop_last());
    } else {
        lemma_sum_update(ps.drop_last(), k, p);
        assert(u.drop_last() =~= ps.drop_last().update(k, p));
    }
}

/// Appending a position adds its principal to the total.
pub proof fn lemma_sum_push(ps: Seq<InvestorPosition>, p: InvestorPosition)
    ensures
        sum_principal(ps.push(p)) == sum_principal(ps) + p.principal,
{
    assert(ps.push(p).drop_last() =~= ps);
}

/// When all principal is positive, no single position exceeds the total.
pub proof fn lemma_principal_le_sum(ps: Seq<InvestorPosition>, k: int)
    requires
        0 <= k < ps.len(),
        forall|i: int| 0 <= i < ps.len() ==> #[trigger] ps[i].principal > 0,
    ensures
        ps[k].principal <= sum_principal(ps),
        sum_principal(ps) >= 0,
    decreases ps.len(),
{
    lemma_sum_nonneg(ps.drop_last());
    if k < ps.len() - 1 {
        lemma_principal_le_sum(ps.drop_last(), k);
    }
}

/// When all principal is positive, so is the total (or zero when empty).
pub proof fn lemma_sum_nonneg(ps: Seq<InvestorPosition>)
    requires
        forall|i: int| 0 <= i < ps.len() ==> #[trigger] ps[i].principal > 0,
    ensures
        sum_principal(ps) >= 0,
    decreases ps.len(),
{
    if ps.len() > 0 {
        lemma_sum_nonneg(ps.drop_last());
    }
}

/// When all principal is positive, the total of a prefix never exceeds the whole total.
pub proof fn lemma_sum_prefix_le(ps: Seq<InvestorPosition>, j: int)
    requires
        0 <= j <= ps.len(),
        forall|i: int| 0 <= i < ps.len() ==> #[trigger] ps[i].principal > 0,
    ensures
        sum_principal(ps.take(j)) <= sum_principal(ps),
    decreases ps.len(),
{
    if j == ps.len() {
        assert(ps.take(j) =~= ps);
    } else {
        lemma_sum_prefix_le(ps.drop_last(), j);
        assert(ps.drop_last().take(j) =~= ps.take(j));
    }
}

/// What `position_index` gives: the investor's index when it has a position, else `-1`.
pub proof fn lemma_position_index(ps: Seq<InvestorPosition>, investor: Seq<char>)
    ensures
        position_index(ps, investor) >= 0 ==> {
            &&& position_index(ps, investor) < ps.len()
            &&& ps[position_index(ps, investor)].investor@ == investor
        },
        position_index(ps, investor) < 0 ==> position_index(ps, investor) == -1 && forall|i: int|
            0 <= i < ps.len() ==> #[trigger] ps[i].investor@ != investor,
{
}

/// In a sequence of distinct investors, a position of `investor` sits at `position_index`.
pub proof fn lemma_position_index_unique(ps: Seq<InvestorPosition>, investor: Seq<char>, i: int)
    requires
        investors_distinct(ps),
        0 <= i < ps.len(),
        ps[i].investor@ == investor,
    ensures
        position_index(ps, investor) == i,
{
    lemma_position_index(ps, investor);
    let k = position_index(ps, investor);
    if k != i {
        if k < i {
            assert(ps[k].investor@ != ps[i].investor@);
        } else {
            assert(ps[i].investor@ != ps[k].investor@);
        }
    }
}

/// Every successful deposit keeps the invariant.
pub proof fn lemma_fund_preserves_inv(
    m: EscrowModel,
    investor: String,
    amount: i128,
    lock_secs: Option<u64>,
    now: LedgerInfo,
)
    requires
        inv(m),
        fund_step(m, investor, amount, lock_secs, now) is Ok,
    ensures
        inv(fund_step(m, investor, amount, lock_secs, now).unwrap()),
{
    let m2 = fund_step(m, investor, amount, lock_secs, now).unwrap();
    let e = m.escrow.unwrap();
    let ps = m.positions;
    let ps2 = m2.positions;
    let k = position_index(ps, investor@);
    lemma_position_index(ps, investor@);
    assert(forall|i: int| 0 <= i < ps.len() ==> !(#[trigger] ps[i].claimed));
    lemma_sum_nonneg(ps);
    if k >= 0 {
        let p = ps[k];
        lemma_principal_le_sum(ps, k);
        lemma_sum_update(ps, k, InvestorPosition { principal: (p.principal + amount) as i128, ..p });
        assert(investors_distinct(ps2)) by {
            assert forall|i: int, j: int| 0 <= i < j < ps2.len() implies #[trigger] ps2[i].investor@
                != #[trigger] ps2[j].investor@ by {
                assert(ps[i].investor@ != ps[j].investor@);
            }
        }
        assert(forall|i: int| 0 <= i < ps2.len() ==> #[trigger] ps2[i].principal > 0) by {
            assert forall|i: int| 0 <= i < ps2.len() implies #[trigger] ps2[i].principal > 0 by {
                if i != k {
                    assert(ps2[i] == ps[i]);
                }
            }
        }
        assert(forall|i: int| 0 <= i < ps2.len() ==> !(#[trigger] ps2[i].claimed)) by {
            assert forall|i: int| 0 <= i < ps2.len() implies !(#[trigger] ps2[i].claimed) by {
                if i != k {
                    assert(ps2[i] == ps[i]);
                }
            }
        }
    } else {
        let np = ps2.last();
        lemma_sum_push(ps, np);
        assert(ps2 == ps.push(np));
        assert(investors_distinct(ps2)) by {
            assert forall|i: int, j: int| 0 <= i < j < ps2.len() implies #[trigger] ps2[i].investor@
                != #[trigger] ps2[j].investor@ by {
                if j < ps.len() {
                    assert(ps[i].investor@ != ps[j].investor@);
                } else {
                    assert(ps2[i] == ps[i]);
                }
            }
        }
        assert(forall|i: int| 0 <= i < ps2.len() ==> #[trigger] ps2[i].principal > 0) by {
            assert forall|i: int| 0 <= i < ps2.len() implies #[trigger] ps2[i].principal > 0 by {
                if i < ps.len() {
                    assert(ps2[i] == ps[i]);
                }
            }
        }
        assert(forall|i: int| 0 <= i < ps2.len() ==> !(#[trigger] ps2[i].claimed)) by {
            assert forall|i: int| 0 <= i < ps2.len() implies !(#[trigger] ps2[i].claimed) by {
                if i < ps.len() {
                    assert(ps2[i] == ps[i]);
                }
            }
        }
    }
}

/// A successful `init` yields a state that satisfies the invariant.
pub proof fn lemma_init_preserves_inv(
    m: EscrowModel,
    escrow: InvoiceEscrow,
    terms: EscrowTerms,
    tiers: Seq<YieldTier>,
)
    requires
        inv(m),
        init_step(m, escrow, terms, tiers) is Ok,
        escrow.funding_target == escrow.amount,
        escrow.funded_amount == 0,
        escrow.settled_amount == 0,
        escrow.status == STATUS_OPEN,
        escrow.version == SCHEMA_VERSION,
    ensures
        inv(init_step(m, escrow, terms, tiers).unwrap()),
{
    let m2 = init_step(m, escrow, terms, tiers).unwrap();
    assert(sum_principal(m2.positions) == 0);
}

/// Every successful settlement keeps the invariant.
pub proof fn lemma_settle_preserves_inv(m: EscrowModel, amount: i128)
    requires
        inv(m),
        settle_step(m, amount) is Ok,
    ensures
        inv(settle_step(m, amount).unwrap()),
{
    let ps = m.positions;
    assert(forall|i: int| 0 <= i < ps.len() ==> !(#[trigger] ps[i].claimed));
}

/// Every successful claim keeps the invariant.
pub proof fn lemma_claim_preserves_inv(m: EscrowModel, investor: Seq<char>, now: LedgerInfo)
    requires
        inv(m),
        claim_step(m, investor, now) is Ok,
    ensures
        inv(claim_step(m, investor, now).unwrap().0),
{
    let m2 = claim_step(m, investor, now).unwrap().0;
    let ps = m.positions;
    let ps2 = m2.positions;
    let k = position_index(ps, investor);
    lemma_position_index(ps, investor);
    let p = ps[k];
    lemma_sum_update(ps, k, InvestorPosition { claimed: true, ..p });
    assert(investors_distinct(ps2)) by {
        assert forall|i: int, j: int| 0 <= i < j < ps2.len() implies #[trigger] ps2[i].investor@
            != #[trigger] ps2[j].investor@ by {
            assert(ps[i].investor@ != ps[j].investor@);
        }
    }
    assert(forall|i: int| 0 <= i < ps2.len() ==> #[trigger] ps2[i].principal > 0) by {
        assert forall|i: int| 0 <= i < ps2.len() implies #[trigger] ps2[i].principal > 0 by {
            if i != k {
                assert(ps2[i] == ps[i]);
            }
        }
    }
}

/// Every successful maturity update keeps the invariant.
pub proof fn lemma_update_maturity_preserves_inv(m: EscrowModel, new_maturity: u64)
    requires
        inv(m),
        update_maturity_step(m, new_maturity) is Ok,
    ensures
        inv(update_maturity_step(m, new_maturity).unwrap()),
{
}

/// Every call that succeeds keeps the escrow invariant: contributions sum to
/// the funded amount, the status agrees with the funding target, settlement
/// stays within the total due, and the investor cap holds.
pub proof fn law_step_preserves_inv(m: EscrowModel, a: Action)
    requires
        inv(m),
        step(m, a) is Ok,
    ensures
        inv(step(m, a).unwrap()),
{
    match a {
        Action::Init { admin, invoice_id, sme_address, amount, yield_bps, maturity, terms, tiers } => {
            lemma_init_preserves_inv(
                m,
                initial_escrow(admin, invoice_id, sme_address, amount, yield_bps, maturity),
                terms,
                tiers,
            );
        },
        Action::Fund { investor, amount, lock_secs, now } => {
            lemma_fund_preserves_inv(m, investor, amount, lock_secs, now);
        },
        Action::Settle { amount } => {
            lemma_settle_preserves_inv(m, amount);
        },
        Action::Claim { claimant, now } => {
            lemma_claim_preserves_inv(m, claimant, now);
        },
        Action::UpdateMaturity { new_maturity } => {
            lemma_update_maturity_preserves_inv(m, new_maturity);
        },
        Action::Migrate { from_version } => {},
    }
}

/// The principal recorded across all investors equals the escrow's funded amount.
pub proof fn law_contributions_sum_to_funded_amount(m: EscrowModel)
    requires
        inv(m),
        m.escrow is Some,
    ensures
        sum_principal(m.positions) == m.escrow.unwrap().funded_amount,
        forall|i: int| 0 <= i < m.positions.len() ==> #[trigger] contribution_of(m.positions, m.positions[i].investor@)
            == m.positions[i].principal,
{
    assert forall|i: int| 0 <= i < m.positions.len() implies #[trigger] contribution_of(
        m.positions,
        m.positions[i].investor@,
    ) == m.positions[i].principal by {
        lemma_position_index_unique(m.positions, m.positions[i].investor@, i);
    }
}

/// The escrow is open exactly while its funded amount is below the target,
/// and once funded its settled amount never exceeds principal plus interest.
pub proof fn law_status_tracks_amounts(m: EscrowModel)
    requires
        inv(m),
        m.escrow is Some,
    ensures
        m.escrow.unwrap().status == STATUS_OPEN <==> m.escrow.unwrap().funded_amount
            < m.escrow.unwrap().funding_target,
        m.escrow.unwrap().settled_amount > 0 ==> m.escrow.unwrap().settled_amount <= total_due(
            m.escrow.unwrap(),
        ).unwrap(),
        m.escrow.unwrap().status == STATUS_SETTLED ==> total_due(m.escrow.unwrap()) == Some(
            m.escrow.unwrap().settled_amount,
        ),
        m.escrow.unwrap().status == STATUS_FUNDED && m.escrow.unwrap().settled_amount > 0
            ==> m.escrow.unwrap().settled_amount < total_due(m.escrow.unwrap()).unwrap(),
        m.positions.len() <= investor_cap(m.terms.unwrap()),
{
}

/// Once initialized, no call undoes it: the status only moves forward
/// (open, funded, settled), funded and settled amounts never decrease, and the
/// invoice's amount, target, base yield and version never change.
pub proof fn law_status_only_advances(m: EscrowModel, a: Action)
    requires
        inv(m),
        m.escrow is Some,
        step(m, a) is Ok,
    ensures
        step(m, a).unwrap().escrow is Some,
        step(m, a).unwrap().escrow.unwrap().status >= m.escrow.unwrap().status,
        step(m, a).unwrap().escrow.unwrap().funded_amount >= m.escrow.unwrap().funded_amount,
        step(m, a).unwrap().escrow.unwrap().settled_amount >= m.escrow.unwrap().settled_amount,
        step(m, a).unwrap().escrow.unwrap().amount == m.escrow.unwrap().amount,
        step(m, a).unwrap().escrow.unwrap().funding_target == m.escrow.unwrap().funding_target,
        step(m, a).unwrap().escrow.unwrap().yield_bps == m.escrow.unwrap().yield_bps,
        step(m, a).unwrap().version == m.version,
{
}

/// The funding-close snapshot, once taken, never changes.
pub proof fn law_snapshot_fixed_once_taken(m: EscrowModel, a: Action)
    requires
        inv(m),
        m.snapshot is Some,
        step(m, a) is Ok,
    ensures
        step(m, a).unwrap().snapshot == m.snapshot,
{
}

/// An initialized escrow cannot be initialized again.
pub proof fn law_init_only_once(m: EscrowModel, a: Action)
    requires
        m.escrow is Some,
        a is Init,
    ensures
        step(m, a) == Err::<EscrowModel, EscrowError>(EscrowError::AlreadyInitialized),
{
}

/// A deposit adds exactly its amount to the investor's contribution and to
/// the funded amount, and leaves every other investor's contribution as it was.
pub proof fn law_deposit_accounting(
    m: EscrowModel,
    investor: String,
    amount: i128,
    lock_secs: Option<u64>,
    now: LedgerInfo,
    other: Seq<char>,
)
    requires
        inv(m),
        fund_step(m, investor, amount, lock_secs, now) is Ok,
        other != investor@,
    ensures
        contribution_of(fund_step(m, investor, amount, lock_secs, now).unwrap().positions, investor@)
            == contribution_of(m.positions, investor@) + amount,
        contribution_of(fund_step(m, investor, amount, lock_secs, now).unwrap().positions, other)
            == contribution_of(m.positions, other),
        fund_step(m, investor, amount, lock_secs, now).unwrap().escrow.unwrap().funded_amount
            == m.escrow.unwrap().funded_amount + amount,
{
    let m2 = fund_step(m, investor, amount, lock_secs, now).unwrap();
    let ps = m.positions;
    let ps2 = m2.positions;
    lemma_fund_preserves_inv(m, investor, amount, lock_secs, now);
    lemma_position_index(ps, investor@);
    lemma_position_index(ps, other);
    lemma_position_index(ps2, other);
    let k = position_index(ps, investor@);
    if k >= 0 {
        assert(ps2[k].investor@ == investor@);
        lemma_sum_nonneg(ps);
        lemma_principal_le_sum(ps, k);
        lemma_position_index_unique(ps2, investor@, k);
        assert(ps2[k].principal == ps[k].principal + amount);
    } else {
        assert(ps2.len() == ps.len() + 1);
        assert(ps2[ps.len() as int].investor@ == investor@);
        lemma_position_index_unique(ps2, investor@, ps.len() as int);
        assert(ps2[ps.len() as int].principal == amount);
    }
    let j = position_index(ps, other);
    if j >= 0 {
        lemma_position_index_unique(ps2, other, j);
    } else {
        let j2 = position_index(ps2, other);
        if j2 >= 0 {
            assert(j2 < ps.len() ==> ps2[j2] == ps[j2]);
        }
    }
}

/// A claim pays principal plus interest at the investor's yield, and an
/// investor who has claimed is refused every later claim.
pub proof fn law_claim_pays_once(m: EscrowModel, investor: Seq<char>, now: LedgerInfo, later: LedgerInfo)
    requires
        inv(m),
        claim_step(m, investor, now) is Ok,
    ensures
        ({
            let k = position_index(m.positions, investor);
            let p = m.positions[k];
            &&& claim_step(m, investor, now).unwrap().1 == p.principal + interest_of(
                p.principal,
                p.yield_bps,
            ).unwrap()
            &&& p.principal == contribution_of(m.positions, investor)
        }),
        claim_step(claim_step(m, investor, now).unwrap().0, investor, later) == Err::<
            (EscrowModel, i128),
            EscrowError,
        >(EscrowError::AlreadyClaimed),
{
    let m2 = claim_step(m, investor, now).unwrap().0;
    lemma_position_index(m.positions, investor);
    let k = position_index(m.positions, investor);
    lemma_claim_preserves_inv(m, investor, now);
    lemma_position_index_unique(m2.positions, investor, k);
}

/// The distinct-investor cap never refuses an investor who already holds a
/// position: re-funding at the cap is allowed.
pub proof fn law_cap_spares_existing_investors(
    m: EscrowModel,
    investor: String,
    amount: i128,
    lock_secs: Option<u64>,
    now: LedgerInfo,
)
    requires
        inv(m),
        contribution_of(m.positions, investor@) > 0,
    ensures
        fund_step(m, investor, amount, lock_secs, now) != Err::<EscrowModel, EscrowError>(
            EscrowError::InvestorCapReached,
        ),
{
    lemma_position_index(m.positions, investor@);
}

/// An initialized escrow stores the current schema version, in its record
/// and under its version key.
pub proof fn law_initialized_version_is_current(m: EscrowModel)
    requires
        inv(m),
        m.escrow is Some,
    ensures
        m.version == Some(SCHEMA_VERSION),
        m.escrow.unwrap().version == SCHEMA_VERSION,
{
}

/// The tier a lock reaches, one `j` at a time: with strictly increasing
/// thresholds, a lock of at least `tiers[j]` and below `tiers[j + 1]` earns
/// `tiers[j]`'s yield.
proof fn lemma_tier_yield_at(tiers: Seq<YieldTier>, base: i64, lock_secs: u64, j: int)
    requires
        locks_strictly_increasing(tiers),
        0 <= j < tiers.len(),
        tiers[j].min_lock_secs <= lock_secs,
        j + 1 == tiers.len() || lock_secs < tiers[j + 1].min_lock_secs,
    ensures
        tier_yield(tiers, base, lock_secs) == tiers[j].yield_bps,
    decreases tiers.len(),
{
    if j + 1 < tiers.len() {
        let n = tiers.len() - 1;
        assert(tiers[j + 1].min_lock_secs <= tiers[n].min_lock_secs) by {
            if j + 1 < n {
                assert(tiers[j + 1].min_lock_secs < tiers[n].min_lock_secs);
            }
        }
        let d = tiers.drop_last();
        assert(locks_strictly_increasing(d)) by {
            assert forall|a: int, b: int| 0 <= a < b < d.len() implies #[trigger] d[a].min_lock_secs
                < #[trigger] d[b].min_lock_secs by {
                assert(tiers[a].min_lock_secs < tiers[b].min_lock_secs);
            }
        }
        assert(d[j] == tiers[j]);
        assert(j + 1 == d.len() || d[j + 1] == tiers[j + 1]);
        lemma_tier_yield_at(d, base, lock_secs, j);
    }
}

/// A lock below the first threshold, or any lock when there are no tiers,
/// earns the base yield.
proof fn lemma_tier_yield_below_all(tiers: Seq<YieldTier>, base: i64, lock_secs: u64)
    requires
        locks_strictly_increasing(tiers),
        tiers.len() == 0 || lock_secs < tiers[0].min_lock_secs,
    ensures
        tier_yield(tiers, base, lock_secs) == base,
    decreases tiers.len(),
{
    if tiers.len() > 0 {
        let n = tiers.len() - 1;
        assert(tiers[0].min_lock_secs <= tiers[n].min_lock_secs) by {
            if 0 < n {
                assert(tiers[0].min_lock_secs < tiers[n].min_lock_secs);
            }
        }
        let d = tiers.drop_last();
        assert(locks_strictly_increasing(d)) by {
            assert forall|a: int, b: int| 0 <= a < b < d.len() implies #[trigger] d[a].min_lock_secs
                < #[trigger] d[b].min_lock_secs by {
                assert(tiers[a].min_lock_secs < tiers[b].min_lock_secs);
            }
        }
        if d.len() > 0 {
            assert(d[0] == tiers[0]);
        }
        lemma_tier_yield_below_all(d, base, lock_secs);
    }
}

/// With strictly increasing thresholds, a lock earns the yield of the highest
/// tier whose threshold it reaches, and the base yield when it reaches none.
pub proof fn law_tier_yield_is_highest_reached_tier(tiers: Seq<YieldTier>, base: i64, lock_secs: u64)
    requires
        locks_strictly_increasing(tiers),
    ensures
        forall|j: int|
            0 <= j < tiers.len() && #[trigger] tiers[j].min_lock_secs <= lock_secs && (j + 1
                == tiers.len() || lock_secs < tiers[j + 1].min_lock_secs) ==> tier_yield(
                tiers,
                base,
                lock_secs,
            ) == tiers[j].yield_bps,
        tiers.len() == 0 || lock_secs < tiers[0].min_lock_secs ==> tier_yield(tiers, base, lock_secs)
            == base,
{
    assert forall|j: int|
        0 <= j < tiers.len() && #[trigger] tiers[j].min_lock_secs <= lock_secs && (j + 1
            == tiers.len() || lock_secs < tiers[j + 1].min_lock_secs) implies tier_yield(
        tiers,
        base,
        lock_secs,
    ) == tiers[j].yield_bps by {
        lemma_tier_yield_at(tiers, base, lock_secs, j);
    }
    if tiers.len() == 0 || lock_secs < tiers[0].min_lock_secs {
        lemma_tier_yield_below_all(tiers, base, lock_secs);
    }
}

/// A committed first deposit opens a new position for the investor with the
/// deposited principal, unclaimed, locked until `now.timestamp + lock_secs`,
/// and earning the yield of the highest tier the lock length reaches (the
/// base yield when it reaches none). The yield depends on the lock length,
/// not on the ledger time: the same deposit at another time earns the same.
pub proof fn law_commitment_earns_reached_tier(
    m: EscrowModel,
    investor: String,
    amount: i128,
    lock_secs: u64,
    now: LedgerInfo,
    other_now: LedgerInfo,
)
    requires
        inv(m),
        fund_step(m, investor, amount, Some(lock_secs), now) is Ok,
    ensures
        ({
            let ps = m.positions;
            let ps2 = fund_step(m, investor, amount, Some(lock_secs), now).unwrap().positions;
            let tiers = m.tiers;
            let p = ps2[ps.len() as int];
            &&& ps2.len() == ps.len() + 1
            &&& forall|i: int| 0 <= i < ps.len() ==> #[trigger] ps2[i] == ps[i]
            &&& p.investor == investor
            &&& p.principal == amount
            &&& p.claim_not_before == now.timestamp + lock_secs
            &&& !p.claimed
            &&& (forall|j: int|
                0 <= j < tiers.len() && #[trigger] tiers[j].min_lock_secs <= lock_secs && (j + 1
                    == tiers.len() || lock_secs < tiers[j + 1].min_lock_secs) ==> p.yield_bps
                    == tiers[j].yield_bps)
            &&& (tiers.len() == 0 || lock_secs < tiers[0].min_lock_secs ==> p.yield_bps
                == m.escrow.unwrap().yield_bps)
        }),
        fund_step(m, investor, amount, Some(lock_secs), other_now) is Ok ==> fund_step(
            m,
            investor,
            amount,
            Some(lock_secs),
            other_now,
        ).unwrap().positions[m.positions.len() as int].yield_bps == fund_step(
            m,
            investor,
            amount,
            Some(lock_secs),
            now,
        ).unwrap().positions[m.positions.len() as int].yield_bps,
{
    lemma_position_index(m.positions, investor@);
    law_tier_yield_is_highest_reached_tier(m.tiers, m.escrow.unwrap().yield_bps, lock_secs);
}

/// A deposit by an investor that already holds a position changes only that
/// position's principal, by exactly the amount: its yield, claim lock and
/// claim flag stay, and every other position is untouched.
pub proof fn law_follow_on_deposit_keeps_terms(
    m: EscrowModel,
    investor: String,
    amount: i128,
    lock_secs: Option<u64>,
    now: LedgerInfo,
    k: int,
)
    requires
        inv(m),
        0 <= k < m.positions.len(),
        m.positions[k].investor@ == investor@,
        fund_step(m, investor, amount, lock_secs, now) is Ok,
    ensures
        ({
            let ps = m.positions;
            let ps2 = fund_step(m, investor, amount, lock_secs, now).unwrap().positions;
            &&& ps2.len() == ps.len()
            &&& ps2[k].investor == ps[k].investor
            &&& ps2[k].principal == ps[k].principal + amount
            &&& ps2[k].yield_bps == ps[k].yield_bps
            &&& ps2[k].claim_not_before == ps[k].claim_not_before
            &&& ps2[k].claimed == ps[k].claimed
            &&& forall|i: int| 0 <= i < ps.len() && i != k ==> #[trigger] ps2[i] == ps[i]
        }),
{
    lemma_position_index_unique(m.positions, investor@, k);
    lemma_sum_nonneg(m.positions);
    lemma_principal_le_sum(m.positions, k);
}

/// `update_maturity(x)` succeeds exactly on an initialized, open escrow, and
/// then sets the maturity to `x` and changes nothing else.
pub proof fn law_update_maturity_sets_maturity(m: EscrowModel, new_maturity: u64)
    ensures
        update_maturity_step(m, new_maturity) is Ok <==> (m.escrow is Some
            && m.escrow.unwrap().status == STATUS_OPEN),
        update_maturity_step(m, new_maturity) is Ok ==> ({
            let m2 = update_maturity_step(m, new_maturity).unwrap();
            let e = m.escrow.unwrap();
            let e2 = m2.escrow.unwrap();
            &&& m2.escrow is Some
            &&& e2.maturity == new_maturity
            &&& e2.invoice_id == e.invoice_id
            &&& e2.admin == e.admin
            &&& e2.sme_address == e.sme_address
            &&& e2.amount == e.amount
            &&& e2.funding_target == e.funding_target
            &&& e2.funded_amount == e.funded_amount
            &&& e2.settled_amount == e.settled_amount
            &&& e2.yield_bps == e.yield_bps
            &&& e2.status == e.status
            &&& e2.version == e.version
            &&& m2.terms == m.terms
            &&& m2.tiers == m.tiers
            &&& m2.version == m.version
            &&& m2.positions == m.positions
            &&& m2.snapshot == m.snapshot
        }),
{
}

/// A successful `settle(a)` raises the settled amount by exactly `a`, never
/// past principal plus interest, and the escrow is settled exactly when the
/// whole amount due has been repaid; nothing but the settled amount and the
/// status changes.
pub proof fn law_settle_adds_exactly(m: EscrowModel, amount: i128)
    requires
        inv(m),
        settle_step(m, amount) is Ok,
    ensures
        ({
            let e = m.escrow.unwrap();
            let m2 = settle_step(m, amount).unwrap();
            let e2 = m2.escrow.unwrap();
            let due = principal_with_interest(e.amount, e.yield_bps);
            &&& m2.escrow is Some
            &&& e.status == STATUS_FUNDED
            &&& amount > 0
            &&& due is Some
            &&& e2.settled_amount == e.settled_amount + amount
            &&& e2.settled_amount <= due.unwrap()
            &&& (e2.status == STATUS_SETTLED <==> e2.settled_amount == due.unwrap())
            &&& (e2.status == STATUS_FUNDED <==> e2.settled_amount < due.unwrap())
            &&& e2.funded_amount == e.funded_amount
            &&& e2.amount == e.amount
            &&& e2.maturity == e.maturity
            &&& m2.positions == m.positions
            &&& m2.snapshot == m.snapshot
        }),
{
}

/// A settlement that would bring the settled amount past principal plus
/// interest is refused with `SettlementExceedsTotalDue`, however it is split
/// into installments.
pub proof fn law_settle_refuses_overpayment(m: EscrowModel, amount: i128)
    requires
        m.escrow is Some,
        m.escrow.unwrap().status == STATUS_FUNDED,
        amount > 0,
        principal_with_interest(m.escrow.unwrap().amount, m.escrow.unwrap().yield_bps) is Some,
        m.escrow.unwrap().settled_amount + amount <= i128::MAX,
        m.escrow.unwrap().settled_amount + amount > principal_with_interest(
            m.escrow.unwrap().amount,
            m.escrow.unwrap().yield_bps,
        ).unwrap(),
    ensures
        settle_step(m, amount) == Err::<EscrowModel, EscrowError>(
            EscrowError::SettlementExceedsTotalDue,
        ),
{
}

} // verus!
