use vstd::prelude::*;
use crate::types::{EscrowError, FundingCloseSnapshot, LedgerInfo, YieldTier, MAX_INVESTORS, SCHEMA_VERSION};
use crate::records::{
    investor_cap, EscrowTerms, InvestorPosition, InvoiceEscrow, STATUS_FUNDED, STATUS_OPEN,
    STATUS_SETTLED,
};
use crate::persist::{parts_valid, EscrowParts};
use crate::arith::{check_tiers, compute_principal_with_interest, select_tier_yield};
use crate::model::{
    claim_step, contribution_of, fund_step, init_step, initial_escrow, inv, migrate_error,
    position_index, settle_step, stored_version, update_maturity_step, outcome, EscrowModel,
};
use crate::laws::{
    lemma_claim_preserves_inv, lemma_fund_preserves_inv, lemma_init_preserves_inv,
    lemma_position_index, lemma_position_index_unique, lemma_principal_le_sum, lemma_sum_nonneg,
    lemma_settle_preserves_inv, lemma_update_maturity_preserves_inv,
};

verus! {

/// The tier schedule that `init` stores for an optional argument.
pub open spec fn tiers_given(yield_tiers: Option<Vec<YieldTier>>) -> Seq<YieldTier> {
    match yield_tiers {
        Some(v) => v@,
        None => Seq::empty(),
    }
}

/// The terms that `init` stores.
pub open spec fn initial_terms(
    funding_token: String,
    registry: Option<String>,
    treasury: String,
    min_contribution: Option<i128>,
    max_unique_investors: Option<u32>,
) -> EscrowTerms {
    EscrowTerms { funding_token, registry, treasury, min_contribution, max_unique_investors }
}

/// The state of an escrow contract that has not been initialized.
pub open spec fn uninitialized() -> EscrowModel {
    EscrowModel {
        escrow: None,
        terms: None,
        tiers: Seq::empty(),
        version: None,
        positions: Seq::empty(),
        snapshot: None,
    }
}

/// The escrow contract: its record, terms, investor positions and funding snapshot.
pub struct LiquifactEscrow {
    escrow: Option<InvoiceEscrow>,
    terms: Option<EscrowTerms>,
    tiers: Vec<YieldTier>,
    version: Option<u32>,
    positions: Vec<InvestorPosition>,
    snapshot: Option<FundingCloseSnapshot>,
}

impl View for LiquifactEscrow {
    type V = EscrowModel;

    closed spec fn view(&self) -> EscrowModel {
        EscrowModel {
            escrow: self.escrow,
            terms: self.terms,
            tiers: self.tiers@,
            version: self.version,
            positions: self.positions@,
            snapshot: self.snapshot,
        }
    }
}

/// Finds `investor`'s position.
fn find_position(positions: &Vec<InvestorPosition>, investor: &String) -> (r: Option<usize>)
    ensures
        match r {
            Some(i) => i < positions@.len() && positions@[i as int].investor@ == investor@,
            None => forall|i: int|
                0 <= i < positions@.len() ==> #[trigger] positions@[i].investor@ != investor@,
        },
{
    let n = positions.len();
    let mut i: usize = 0;
    while i < n
        invariant
            n == positions@.len(),
            i <= n,
            forall|j: int| 0 <= j < i ==> #[trigger] positions@[j].investor@ != investor@,
        decreases n - i,
    {
        if positions[i].investor == *investor {
            return Some(i);
        }
        i = i + 1;
    }
    None
}

impl LiquifactEscrow {
    /// The state satisfies the escrow invariant.
    pub open spec fn wf(&self) -> bool {
        inv(self@)
    }

    /// A freshly deployed contract, not yet initialized.
    pub fn new() -> (r: Self)
        ensures
            r.wf(),
            r@ == uninitialized(),
    {
        let r = LiquifactEscrow {
            escrow: None,
            terms: None,
            tiers: Vec::new(),
            version: None,
            positions: Vec::new(),
            snapshot: None,
        };
        assert(r@ =~= uninitialized());
        r
    }

    /// Initializes the escrow once. The funding target is the invoice amount,
    /// which must be positive; yield tiers must have strictly increasing lock
    /// thresholds and pay at least the base yield.
    pub fn init(
        &mut self,
        admin: String,
        invoice_id: String,
        sme_address: String,
        amount: i128,
        yield_bps: i64,
        maturity: u64,
        funding_token: String,
        registry: Option<String>,
        treasury: String,
        yield_tiers: Option<Vec<YieldTier>>,
        min_contribution: Option<i128>,
        max_unique_investors: Option<u32>,
    ) -> (r: Result<InvoiceEscrow, EscrowError>)
        requires
            old(self).wf(),
        ensures
            final(self).wf(),
            outcome(
                init_step(
                    old(self)@,
                    initial_escrow(admin, invoice_id, sme_address, amount, yield_bps, maturity),
                    initial_terms(funding_token, registry, treasury, min_contribution, max_unique_investors),
                    tiers_given(yield_tiers),
                ),
                old(self)@,
                final(self)@,
                r,
            ),
            r matches Ok(e) ==> final(self)@.escrow == Some(e),
    {
        let ghost pre = self@;
        let ghost record = initial_escrow(admin, invoice_id, sme_address, amount, yield_bps, maturity);
        let ghost terms_spec = initial_terms(funding_token, registry, treasury, min_contribution, max_unique_investors);
        let ghost tiers_spec = tiers_given(yield_tiers);
        if self.escrow.is_some() {
            return Err(EscrowError::AlreadyInitialized);
        }
        if amount <= 0 {
            return Err(EscrowError::EscrowAmountNotPositive);
        }
        let tiers = match yield_tiers {
            Some(v) => v,
            None => Vec::new(),
        };
        assert(tiers@ == tiers_spec);
        match check_tiers(&tiers, yield_bps) {
            Err(e) => {
                return Err(e);
            },
            Ok(()) => {},
        }
        let escrow = InvoiceEscrow {
            invoice_id,
            admin,
            sme_address,
            amount,
            funding_target: amount,
            funded_amount: 0,
            settled_amount: 0,
            yield_bps,
            maturity,
            status: STATUS_OPEN,
            version: SCHEMA_VERSION,
        };
        let result = escrow.clone();
        self.escrow = Some(escrow);
        self.terms = Some(
            EscrowTerms { funding_token, registry, treasury, min_contribution, max_unique_investors },
        );
        self.tiers = tiers;
        self.version = Some(SCHEMA_VERSION);
        proof {
            lemma_init_preserves_inv(pre, record, terms_spec, tiers_spec);
            assert(self@ =~= init_step(pre, record, terms_spec, tiers_spec).unwrap());
        }
        Ok(result)
    }

    /// The escrow record.
    pub fn get_escrow(&self) -> (r: Result<InvoiceEscrow, EscrowError>)
        ensures
            r == (match self@.escrow {
                Some(e) => Ok(e),
                None => Err(EscrowError::NotInitialized),
            }),
    {
        match &self.escrow {
            Some(e) => Ok(e.clone()),
            None => Err(EscrowError::NotInitialized),
        }
    }

    /// Rebuilds an escrow from its stored parts, when they describe a state the
    /// operations can reach; `None` otherwise.
    pub fn from_parts(parts: EscrowParts) -> (r: Option<Self>)
        ensures
            r is Some <==> inv(parts.model()),
            r matches Some(s) ==> s@ == parts.model(),
    {
        if !parts_valid(&parts) {
            return None;
        }
        let r = LiquifactEscrow {
            escrow: parts.escrow,
            terms: parts.terms,
            tiers: parts.tiers,
            version: parts.version,
            positions: parts.positions,
            snapshot: parts.snapshot,
        };
        assert(r@ =~= parts.model());
        Some(r)
    }

    /// The escrow's state, field by field, for storage.
    pub fn into_parts(self) -> (r: EscrowParts)
        ensures
            r.model() == self@,
    {
        let r = EscrowParts {
            escrow: self.escrow,
            terms: self.terms,
            tiers: self.tiers,
            version: self.version,
            positions: self.positions,
            snapshot: self.snapshot,
        };
        assert(r.model() =~= self@);
        r
    }

    /// The stored schema version, `0` before initialization.
    pub fn get_version(&self) -> (r: u32)
        ensures
            r == stored_version(self@),
    {
        match self.version {
            Some(v) => v,
            None => 0,
        }
    }

    /// A deposit of `amount` by `investor`; with `lock_secs`, a first deposit
    /// committed to a lock that selects the investor's yield tier.
    fn deposit(&mut self, investor: &String, amount: i128, lock_secs: Option<u64>, now: LedgerInfo) -> (r:
        Result<InvoiceEscrow, EscrowError>)
        requires
            old(self).wf(),
        ensures
            final(self).wf(),
            outcome(fund_step(old(self)@, *investor, amount, lock_secs, now), old(self)@, final(self)@, r),
            r matches Ok(e) ==> final(self)@.escrow == Some(e),
    {
        let ghost pre = self@;
        let (funded, target, status, base_yield) = match &self.escrow {
            None => {
                return Err(EscrowError::NotInitialized);
            },
            Some(e) => (e.funded_amount, e.funding_target, e.status, e.yield_bps),
        };
        if amount <= 0 {
            return Err(EscrowError::FundingAmountNotPositive);
        }
        if status != STATUS_OPEN {
            return Err(EscrowError::NotOpenForFunding);
        }
        let (floor, cap) = match &self.terms {
            Some(t) => (
                t.min_contribution,
                match t.max_unique_investors {
                    Some(c) => c,
                    None => MAX_INVESTORS,
                },
            ),
            None => {
                proof {
                    assert(false);
                }
                return Err(EscrowError::NotInitialized);
            },
        };
        let below = match floor {
            Some(f) => amount < f,
            None => false,
        };
        if below {
            return Err(EscrowError::BelowMinContribution);
        }
        let found = find_position(&self.positions, investor);
        proof {
            lemma_position_index(pre.positions, investor@);
            if let Some(i) = found {
                lemma_position_index_unique(pre.positions, investor@, i as int);
            }
        }
        if lock_secs.is_some() && found.is_some() {
            return Err(EscrowError::AdditionalPrincipalAfterTieredDeposit);
        }
        if found.is_none() && self.positions.len() >= cap as usize {
            return Err(EscrowError::InvestorCapReached);
        }
        let new_funded = match funded.checked_add(amount) {
            None => {
                return Err(EscrowError::ArithmeticOverflow);
            },
            Some(v) => v,
        };
        let claim_not_before: u64 = match lock_secs {
            Some(lock) => match now.timestamp.checked_add(lock) {
                None => {
                    return Err(EscrowError::ArithmeticOverflow);
                },
                Some(t) => t,
            },
            None => 0,
        };
        proof {
            lemma_fund_preserves_inv(pre, *investor, amount, lock_secs, now);
            lemma_sum_nonneg(pre.positions);
        }
        let new_status = if new_funded >= target {
            STATUS_FUNDED
        } else {
            STATUS_OPEN
        };
        match found {
            Some(i) => {
                proof {
                    lemma_principal_le_sum(pre.positions, i as int);
                }
                let old_position = self.positions[i].clone();
                let position = InvestorPosition {
                    investor: old_position.investor,
                    principal: old_position.principal + amount,
                    yield_bps: old_position.yield_bps,
                    claim_not_before: old_position.claim_not_before,
                    claimed: old_position.claimed,
                };
                self.positions.set(i, position);
            },
            None => {
                let yield_bps = match lock_secs {
                    Some(lock) => select_tier_yield(&self.tiers, base_yield, lock),
                    None => base_yield,
                };
                self.positions.push(
                    InvestorPosition {
                        investor: investor.clone(),
                        principal: amount,
                        yield_bps,
                        claim_not_before,
                        claimed: false,
                    },
                );
            },
        }
        match &mut self.escrow {
            Some(e) => {
                e.funded_amount = new_funded;
                e.status = new_status;
            },
            None => {},
        }
        if new_status == STATUS_FUNDED {
            self.snapshot = Some(
                FundingCloseSnapshot {
                    total_principal: new_funded,
                    funding_target: target,
                    closed_at_ledger_timestamp: now.timestamp,
                    closed_at_ledger_sequence: now.sequence,
                },
            );
        }
        proof {
            assert(self@ =~= fund_step(pre, *investor, amount, lock_secs, now).unwrap());
        }
        match &self.escrow {
            Some(e) => Ok(e.clone()),
            None => Err(EscrowError::NotInitialized),
        }
    }

    /// Records a deposit of `amount` by `investor` while the escrow is open;
    /// funding closes, and its snapshot is taken, when the target is reached.
    pub fn fund(&mut self, investor: &String, amount: i128, now: LedgerInfo) -> (r: Result<
        InvoiceEscrow,
        EscrowError,
    >)
        requires
            old(self).wf(),
        ensures
            final(self).wf(),
            outcome(fund_step(old(self)@, *investor, amount, None, now), old(self)@, final(self)@, r),
            r matches Ok(e) ==> final(self)@.escrow == Some(e),
    {
        self.deposit(investor, amount, None, now)
    }

    /// Records a first deposit committed to a lock of `lock_secs`: the
    /// investor earns the yield of the tier the lock reaches and may not claim
    /// before `now.timestamp + lock_secs`.
    pub fn fund_with_commitment(
        &mut self,
        investor: &String,
        amount: i128,
        lock_secs: u64,
        now: LedgerInfo,
    ) -> (r: Result<InvoiceEscrow, EscrowError>)
        requires
            old(self).wf(),
        ensures
            final(self).wf(),
            outcome(
                fund_step(old(self)@, *investor, amount, Some(lock_secs), now),
                old(self)@,
                final(self)@,
                r,
            ),
            r matches Ok(e) ==> final(self)@.escrow == Some(e),
    {
        self.deposit(investor, amount, Some(lock_secs), now)
    }

    /// Principal recorded for `investor`, `0` when it has none.
    pub fn get_contribution(&self, investor: &String) -> (r: i128)
        requires
            self.wf(),
        ensures
            r == contribution_of(self@.positions, investor@),
    {
        let found = find_position(&self.positions, investor);
        proof {
            lemma_position_index(self@.positions, investor@);
        }
        match found {
            Some(i) => {
                proof {
                    lemma_position_index_unique(self@.positions, investor@, i as int);
                }
                self.positions[i].principal
            },
            None => 0,
        }
    }

    /// Records a repayment of `amount` by the SME while the escrow is funded;
    /// the escrow becomes settled when principal plus interest is repaid.
    pub fn settle(&mut self, amount: i128) -> (r: Result<InvoiceEscrow, EscrowError>)
        requires
            old(self).wf(),
        ensures
            final(self).wf(),
            outcome(settle_step(old(self)@, amount), old(self)@, final(self)@, r),
            r matches Ok(e) ==> final(self)@.escrow == Some(e),
    {
        let ghost pre = self@;
        let (status, principal, yield_bps, settled) = match &self.escrow {
            None => {
                return Err(EscrowError::NotInitialized);
            },
            Some(e) => (e.status, e.amount, e.yield_bps, e.settled_amount),
        };
        if status != STATUS_FUNDED {
            return Err(EscrowError::NotFunded);
        }
        if amount <= 0 {
            return Err(EscrowError::SettlementAmountNotPositive);
        }
        let due = match compute_principal_with_interest(principal, yield_bps) {
            None => {
                return Err(EscrowError::ArithmeticOverflow);
            },
            Some(d) => d,
        };
        let new_settled = match settled.checked_add(amount) {
            None => {
                return Err(EscrowError::ArithmeticOverflow);
            },
            Some(v) => v,
        };
        if new_settled > due {
            return Err(EscrowError::SettlementExceedsTotalDue);
        }
        let new_status = if new_settled == due {
            STATUS_SETTLED
        } else {
            STATUS_FUNDED
        };
        match &mut self.escrow {
            Some(e) => {
                e.settled_amount = new_settled;
                e.status = new_status;
            },
            None => {},
        }
        proof {
            lemma_settle_preserves_inv(pre, amount);
            assert(self@ =~= settle_step(pre, amount).unwrap());
        }
        match &self.escrow {
            Some(e) => Ok(e.clone()),
            None => Err(EscrowError::NotInitialized),
        }
    }

    /// Pays `investor` its principal plus yield once the escrow is settled:
    /// one time only, and not before its committed lock ends.
    pub fn claim(&mut self, investor: &String, now: LedgerInfo) -> (r: Result<i128, EscrowError>)
        requires
            old(self).wf(),
        ensures
            final(self).wf(),
            match claim_step(old(self)@, investor@, now) {
                Ok((m, payout)) => r == Ok::<i128, EscrowError>(payout) && final(self)@ == m,
                Err(e) => r == Err::<i128, EscrowError>(e) && final(self)@ == old(self)@,
            },
    {
        let ghost pre = self@;
        let status = match &self.escrow {
            None => {
                return Err(EscrowError::NotInitialized);
            },
            Some(e) => e.status,
        };
        if status != STATUS_SETTLED {
            return Err(EscrowError::NotSettled);
        }
        let found = find_position(&self.positions, investor);
        proof {
            lemma_position_index(pre.positions, investor@);
            if let Some(i) = found {
                lemma_position_index_unique(pre.positions, investor@, i as int);
            }
        }
        let i = match found {
            None => {
                return Err(EscrowError::NoContribution);
            },
            Some(i) => i,
        };
        let old_position = self.positions[i].clone();
        if old_position.principal <= 0 {
            return Err(EscrowError::NoContribution);
        }
        if old_position.claimed {
            return Err(EscrowError::AlreadyClaimed);
        }
        if now.timestamp < old_position.claim_not_before {
            return Err(EscrowError::ClaimLocked);
        }
        let payout = match compute_principal_with_interest(old_position.principal, old_position.yield_bps) {
            None => {
                return Err(EscrowError::ArithmeticOverflow);
            },
            Some(p) => p,
        };
        let position = InvestorPosition {
            investor: old_position.investor,
            principal: old_position.principal,
            yield_bps: old_position.yield_bps,
            claim_not_before: old_position.claim_not_before,
            claimed: true,
        };
        self.positions.set(i, position);
        proof {
            lemma_claim_preserves_inv(pre, investor@, now);
            assert(self@ =~= claim_step(pre, investor@, now).unwrap().0);
        }
        Ok(payout)
    }

    /// Changes the maturity timestamp while the escrow is open.
    pub fn update_maturity(&mut self, new_maturity: u64) -> (r: Result<InvoiceEscrow, EscrowError>)
        requires
            old(self).wf(),
        ensures
            final(self).wf(),
            outcome(update_maturity_step(old(self)@, new_maturity), old(self)@, final(self)@, r),
            r matches Ok(e) ==> final(self)@.escrow == Some(e),
    {
        let ghost pre = self@;
        let status = match &self.escrow {
            None => {
                return Err(EscrowError::NotInitialized);
            },
            Some(e) => e.status,
        };
        if status != STATUS_OPEN {
            return Err(EscrowError::MaturityUpdateNotOpen);
        }
        match &mut self.escrow {
            Some(e) => {
                e.maturity = new_maturity;
            },
            None => {},
        }
        proof {
            lemma_update_maturity_preserves_inv(pre, new_maturity);
            assert(self@ =~= update_maturity_step(pre, new_maturity).unwrap());
        }
        match &self.escrow {
            Some(e) => Ok(e.clone()),
            None => Err(EscrowError::NotInitialized),
        }
    }

    /// Migrates storage from `from_version`. No migration path exists yet, so
    /// every call is refused, with the reason.
    pub fn migrate(&self, from_version: u32) -> (r: Result<u32, EscrowError>)
        ensures
            r == Err::<u32, EscrowError>(migrate_error(self@, from_version)),
    {
        let stored = self.get_version();
        if stored != from_version {
            return Err(EscrowError::VersionMismatch);
        }
        if from_version >= SCHEMA_VERSION {
            return Err(EscrowError::AlreadyCurrentVersion);
        }
        Err(EscrowError::NoMigrationPath)
    }

    /// The snapshot taken when funding closed, if it has.
    pub fn get_funding_close_snapshot(&self) -> (r: Option<FundingCloseSnapshot>)
        ensures
            r == self@.snapshot,
    {
        self.snapshot
    }

    /// The yield `investor` earns: that recorded with its position, else the base yield.
    pub fn get_investor_yield_bps(&self, investor: &String) -> (r: Result<i64, EscrowError>)
        requires
            self.wf(),
        ensures
            r == (match self@.escrow {
                None => Err(EscrowError::NotInitialized),
                Some(e) => {
                    let k = position_index(self@.positions, investor@);
                    if k >= 0 {
                        Ok(self@.positions[k].yield_bps)
                    } else {
                        Ok(e.yield_bps)
                    }
                },
            }),
    {
        let base = match &self.escrow {
            None => {
                return Err(EscrowError::NotInitialized);
            },
            Some(e) => e.yield_bps,
        };
        let found = find_position(&self.positions, investor);
        proof {
            lemma_position_index(self@.positions, investor@);
        }
        match found {
            Some(i) => {
                proof {
                    lemma_position_index_unique(self@.positions, investor@, i as int);
                }
                Ok(self.positions[i].yield_bps)
            },
            None => Ok(base),
        }
    }

    /// The ledger timestamp before which `investor` may not claim, `0` when it has no position.
    pub fn get_investor_claim_not_before(&self, investor: &String) -> (r: u64)
        requires
            self.wf(),
        ensures
            r == (if position_index(self@.positions, investor@) >= 0 {
                self@.positions[position_index(self@.positions, investor@)].claim_not_before
            } else {
                0
            }),
    {
        let found = find_position(&self.positions, investor);
        proof {
            lemma_position_index(self@.positions, investor@);
        }
        match found {
            Some(i) => {
                proof {
                    lemma_position_index_unique(self@.positions, investor@, i as int);
                }
                self.positions[i].claim_not_before
            },
            None => 0,
        }
    }

    /// The configured minimum contribution per funding call, `0` when none is set.
    pub fn get_min_contribution_floor(&self) -> (r: i128)
        ensures
            r == (match self@.terms {
                Some(t) => match t.min_contribution {
                    Some(f) => f,
                    None => 0,
                },
                None => 0,
            }),
    {
        match &self.terms {
            Some(t) => match t.min_contribution {
                Some(f) => f,
                None => 0,
            },
            None => 0,
        }
    }

    /// The number of distinct investors recorded.
    pub fn get_investor_count(&self) -> (r: usize)
        ensures
            r == self@.positions.len(),
    {
        self.positions.len()
    }

    /// The largest number of distinct investors the escrow accepts.
    pub fn max_investors(&self) -> (r: u32)
        ensures
            r == (match self@.terms {
                Some(t) => investor_cap(t),
                None => MAX_INVESTORS,
            }),
    {
        match &self.terms {
            Some(t) => match t.max_unique_investors {
                Some(c) => c,
                None => MAX_INVESTORS,
            },
            None => MAX_INVESTORS,
        }
    }
}

/// Deploys an escrow and initializes it with a minimum contribution `floor`:
/// funding target `target`, base yield 500 bps, maturity 0, no registry, no
/// yield tiers and the default investor cap.
pub fn init_with_floor(
    admin: String,
    invoice_id: String,
    sme_address: String,
    funding_token: String,
    treasury: String,
    target: i128,
    floor: i128,
) -> (r: Result<LiquifactEscrow, EscrowError>)
    ensures
        match init_step(
            uninitialized(),
            initial_escrow(admin, invoice_id, sme_address, target, 500, 0),
            initial_terms(funding_token, None, treasury, Some(floor), None),
            Seq::empty(),
        ) {
            Ok(m) => r matches Ok(s) && s.wf() && s@ == m,
            Err(e) => r matches Err(e2) && e2 == e,
        },
{
    let mut escrow = LiquifactEscrow::new();
    match escrow.init(
        admin,
        invoice_id,
        sme_address,
        target,
        500,
        0,
        funding_token,
        None,
        treasury,
        None,
        Some(floor),
        None,
    ) {
        Ok(_) => Ok(escrow),
        Err(e) => Err(e),
    }
}

} // verus!
