use vstd::prelude::*;
use crate::types::{EscrowError, FundingCloseSnapshot, LedgerInfo, YieldTier, SCHEMA_VERSION};
use crate::records::{
    below_floor, investor_cap, EscrowTerms, InvestorPosition, InvoiceEscrow, STATUS_FUNDED,
    STATUS_OPEN, STATUS_SETTLED,
};
use crate::arith::{locks_strictly_increasing, principal_with_interest, tier_error, tier_yield, tiers_at_least_base};

verus! {

/// The whole state of an escrow contract, as mathematics.
#[verifier::ext_equal]
pub struct EscrowModel {
    /// The escrow record; `None` before `init`.
    pub escrow: Option<InvoiceEscrow>,
    /// Settings fixed at `init`.
    pub terms: Option<EscrowTerms>,
    /// Yield tiers fixed at `init`.
    pub tiers: Seq<YieldTier>,
    /// The stored schema version.
    pub version: Option<u32>,
    /// One entry per distinct investor, in order of first deposit.
    pub positions: Seq<InvestorPosition>,
    /// Recorded when funding closes.
    pub snapshot: Option<FundingCloseSnapshot>,
}

/// The index of `investor`'s position, or `-1` when it has none.
pub open spec fn position_index(positions: Seq<InvestorPosition>, investor: Seq<char>) -> int {
    if exists|i: int| 0 <= i < positions.len() && #[trigger] positions[i].investor@ == investor {
        choose|i: int| 0 <= i < positions.len() && #[trigger] positions[i].investor@ == investor
    } else {
        -1
    }
}

/// No investor holds two positions.
pub open spec fn investors_distinct(positions: Seq<InvestorPosition>) -> bool {
    forall|i: int, j: int|
        0 <= i < j < positions.len() ==> #[trigger] positions[i].investor@
            != #[trigger] positions[j].investor@
}

/// Principal recorded for `investor`: that of its position, else `0`.
pub open spec fn contribution_of(positions: Seq<InvestorPosition>, investor: Seq<char>) -> i128 {
    let k = position_index(positions, investor);
    if k >= 0 {
        positions[k].principal
    } else {
        0
    }
}

/// The sum of all principal over a sequence of positions.
pub open spec fn sum_principal(positions: Seq<InvestorPosition>) -> int
    decreases positions.len(),
{
    if positions.len() == 0 {
        0
    } else {
        sum_principal(positions.drop_last()) + positions.last().principal
    }
}

/// Principal plus interest that the SME owes on the escrow, if it fits in `i128`.
pub open spec fn total_due(e: InvoiceEscrow) -> Option<i128> {
    principal_with_interest(e.amount, e.yield_bps)
}

/// What every reachable state satisfies.
pub open spec fn inv(m: EscrowModel) -> bool {
    match m.escrow {
        None => {
            &&& m.terms is None
            &&& m.tiers.len() == 0
            &&& m.version is None
            &&& m.positions.len() == 0
            &&& m.snapshot is None
        },
        Some(e) => {
            &&& m.terms is Some
            &&& m.version == Some(SCHEMA_VERSION)
            &&& e.version == SCHEMA_VERSION
            &&& e.amount > 0
            &&& e.funding_target == e.amount
            &&& locks_strictly_increasing(m.tiers)
            &&& tiers_at_least_base(m.tiers, e.yield_bps)
            &&& e.status == STATUS_OPEN || e.status == STATUS_FUNDED || e.status == STATUS_SETTLED
            &&& (e.status == STATUS_OPEN <==> e.funded_amount < e.funding_target)
            &&& e.funded_amount >= 0
            &&& e.settled_amount >= 0
            &&& (e.status == STATUS_OPEN ==> e.settled_amount == 0)
            &&& (e.settled_amount > 0 ==> total_due(e) is Some && e.settled_amount <= total_due(
                e,
            ).unwrap())
            &&& (e.status == STATUS_SETTLED ==> total_due(e) == Some(e.settled_amount))
            &&& (e.status == STATUS_FUNDED && e.settled_amount > 0 ==> e.settled_amount < total_due(
                e,
            ).unwrap())
            &&& (e.status == STATUS_OPEN <==> m.snapshot is None)
            &&& (m.snapshot matches Some(s) ==> s.total_principal == e.funded_amount
                && s.funding_target == e.funding_target)
            &&& investors_distinct(m.positions)
            &&& (forall|i: int| 0 <= i < m.positions.len() ==> #[trigger] m.positions[i].principal > 0)
            &&& (forall|i: int|
                0 <= i < m.positions.len() && #[trigger] m.positions[i].claimed ==> e.status
                    == STATUS_SETTLED)
            &&& sum_principal(m.positions) == e.funded_amount
            &&& m.positions.len() <= investor_cap(m.terms.unwrap())
        },
    }
}

/// The escrow record that `init` creates.
pub open spec fn initial_escrow(
    admin: String,
    invoice_id: String,
    sme_address: String,
    amount: i128,
    yield_bps: i64,
    maturity: u64,
) -> InvoiceEscrow {
    InvoiceEscrow {
        invoice_id,
        admin,
        sme_address,
        amount,
        funding_target: amount,
        funded_amount: 0,
        settled_amount: 0,
        yield_bps,
        maturity,
        status: STATUS_OPEN,
        version: SCHEMA_VERSION,
    }
}

/// `init`: create the escrow once, with a positive amount and a valid tier schedule.
pub open spec fn init_step(
    m: EscrowModel,
    escrow: InvoiceEscrow,
    terms: EscrowTerms,
    tiers: Seq<YieldTier>,
) -> Result<EscrowModel, EscrowError> {
    if m.escrow is Some {
        Err(EscrowError::AlreadyInitialized)
    } else if escrow.amount <= 0 {
        Err(EscrowError::EscrowAmountNotPositive)
    } else if tier_error(tiers, escrow.yield_bps) is Some {
        Err(tier_error(tiers, escrow.yield_bps).unwrap())
    } else {
        Ok(
            EscrowModel {
                escrow: Some(escrow),
                terms: Some(terms),
                tiers,
                version: Some(SCHEMA_VERSION),
                positions: Seq::empty(),
                snapshot: None,
            },
        )
    }
}

/// The position of an investor making a first deposit.
pub open spec fn new_position(
    investor: String,
    amount: i128,
    yield_bps: i64,
    claim_not_before: u64,
) -> InvestorPosition {
    InvestorPosition { investor, principal: amount, yield_bps, claim_not_before, claimed: false }
}

/// The state after a deposit that passed every check.
pub open spec fn deposited(
    m: EscrowModel,
    investor: String,
    amount: i128,
    lock_secs: Option<u64>,
    now: LedgerInfo,
) -> EscrowModel {
    let e = m.escrow.unwrap();
    let funded = (e.funded_amount + amount) as i128;
    let status = if funded >= e.funding_target {
        STATUS_FUNDED
    } else {
        STATUS_OPEN
    };
    let k = position_index(m.positions, investor@);
    let positions = if k >= 0 {
        let p = m.positions[k];
        m.positions.update(
            k,
            InvestorPosition { principal: (p.principal + amount) as i128, ..p },
        )
    } else {
        match lock_secs {
            Some(lock) => m.positions.push(
                new_position(
                    investor,
                    amount,
                    tier_yield(m.tiers, e.yield_bps, lock),
                    (now.timestamp + lock) as u64,
                ),
            ),
            None => m.positions.push(new_position(investor, amount, e.yield_bps, 0)),
        }
    };
    let snapshot = if status == STATUS_FUNDED {
        Some(
            FundingCloseSnapshot {
                total_principal: funded,
                funding_target: e.funding_target,
                closed_at_ledger_timestamp: now.timestamp,
                closed_at_ledger_sequence: now.sequence,
            },
        )
    } else {
        m.snapshot
    };
    EscrowModel {
        escrow: Some(InvoiceEscrow { funded_amount: funded, status, ..e }),
        positions,
        snapshot,
        ..m
    }
}

/// `fund` (`lock_secs` is `None`) and `fund_with_commitment` (`Some`): add
/// `amount` of principal for `investor` while the escrow is open.
pub open spec fn fund_step(
    m: EscrowModel,
    investor: String,
    amount: i128,
    lock_secs: Option<u64>,
    now: LedgerInfo,
) -> Result<EscrowModel, EscrowError> {
    match m.escrow {
        None => Err(EscrowError::NotInitialized),
        Some(e) => {
            let terms = m.terms.unwrap();
            let k = position_index(m.positions, investor@);
            if amount <= 0 {
                Err(EscrowError::FundingAmountNotPositive)
            } else if e.status != STATUS_OPEN {
                Err(EscrowError::NotOpenForFunding)
            } else if below_floor(terms, amount) {
                Err(EscrowError::BelowMinContribution)
            } else if lock_secs is Some && k >= 0 {
                Err(EscrowError::AdditionalPrincipalAfterTieredDeposit)
            } else if k < 0 && m.positions.len() >= investor_cap(terms) {
                Err(EscrowError::InvestorCapReached)
            } else if e.funded_amount + amount > i128::MAX {
                Err(EscrowError::ArithmeticOverflow)
            } else if lock_secs matches Some(lock) && now.timestamp + lock > u64::MAX {
                Err(EscrowError::ArithmeticOverflow)
            } else {
                Ok(deposited(m, investor, amount, lock_secs, now))
            }
        },
    }
}

/// `settle`: the SME repays `amount`, at most up to principal plus interest.
pub open spec fn settle_step(m: EscrowModel, amount: i128) -> Result<EscrowModel, EscrowError> {
    match m.escrow {
        None => Err(EscrowError::NotInitialized),
        Some(e) => {
            if e.status != STATUS_FUNDED {
                Err(EscrowError::NotFunded)
            } else if amount <= 0 {
                Err(EscrowError::SettlementAmountNotPositive)
            } else {
                match total_due(e) {
                    None => Err(EscrowError::ArithmeticOverflow),
                    Some(due) => {
                        let settled = e.settled_amount + amount;
                        if settled > i128::MAX {
                            Err(EscrowError::ArithmeticOverflow)
                        } else if settled > due {
                            Err(EscrowError::SettlementExceedsTotalDue)
                        } else {
                            let status = if settled == due {
                                STATUS_SETTLED
                            } else {
                                STATUS_FUNDED
                            };
                            Ok(
                                EscrowModel {
                                    escrow: Some(
                                        InvoiceEscrow {
                                            settled_amount: settled as i128,
                                            status,
                                            ..e
                                        },
                                    ),
                                    ..m
                                },
                            )
                        }
                    },
                }
            }
        },
    }
}

/// `claim`: once settled, an investor takes principal plus its yield, once,
/// and not before its committed lock ends. The payout comes with the new state.
pub open spec fn claim_step(m: EscrowModel, investor: Seq<char>, now: LedgerInfo) -> Result<
    (EscrowModel, i128),
    EscrowError,
> {
    match m.escrow {
        None => Err(EscrowError::NotInitialized),
        Some(e) => {
            let k = position_index(m.positions, investor);
            if e.status != STATUS_SETTLED {
                Err(EscrowError::NotSettled)
            } else if k < 0 || m.positions[k].principal <= 0 {
                Err(EscrowError::NoContribution)
            } else if m.positions[k].claimed {
                Err(EscrowError::AlreadyClaimed)
            } else if now.timestamp < m.positions[k].claim_not_before {
                Err(EscrowError::ClaimLocked)
            } else {
                let p = m.positions[k];
                match principal_with_interest(p.principal, p.yield_bps) {
                    None => Err(EscrowError::ArithmeticOverflow),
                    Some(payout) => Ok(
                        (
                            EscrowModel {
                                positions: m.positions.update(
                                    k,
                                    InvestorPosition { claimed: true, ..p },
                                ),
                                ..m
                            },
                            payout,
                        ),
                    ),
                }
            }
        },
    }
}

/// `update_maturity`: only while the escrow is open.
pub open spec fn update_maturity_step(m: EscrowModel, new_maturity: u64) -> Result<
    EscrowModel,
    EscrowError,
> {
    match m.escrow {
        None => Err(EscrowError::NotInitialized),
        Some(e) => {
            if e.status != STATUS_OPEN {
                Err(EscrowError::MaturityUpdateNotOpen)
            } else {
                Ok(EscrowModel { escrow: Some(InvoiceEscrow { maturity: new_maturity, ..e }), ..m })
            }
        },
    }
}

/// The stored schema version, `0` when none is stored.
pub open spec fn stored_version(m: EscrowModel) -> u32 {
    match m.version {
        Some(v) => v,
        None => 0,
    }
}

/// `migrate` is refused on every input: with a version mismatch, when already
/// current, and otherwise because no migration path exists.
pub open spec fn migrate_error(m: EscrowModel, from_version: u32) -> EscrowError {
    if stored_version(m) != from_version {
        EscrowError::VersionMismatch
    } else if from_version >= SCHEMA_VERSION {
        EscrowError::AlreadyCurrentVersion
    } else {
        EscrowError::NoMigrationPath
    }
}

/// `post` and `r` are what an operation with expected outcome `expected`
/// leaves: the expected state on success, the unchanged state on failure.
pub open spec fn outcome<T>(
    expected: Result<EscrowModel, EscrowError>,
    pre: EscrowModel,
    post: EscrowModel,
    r: Result<T, EscrowError>,
) -> bool {
    match expected {
        Ok(m) => r is Ok && post == m,
        Err(e) => r == Err::<T, EscrowError>(e) && post == pre,
    }
}

/// One call of the contract, with its arguments.
pub enum Action {
    Init {
        admin: String,
        invoice_id: String,
        sme_address: String,
        amount: i128,
        yield_bps: i64,
        maturity: u64,
        terms: EscrowTerms,
        tiers: Seq<YieldTier>,
    },
    Fund { investor: String, amount: i128, lock_secs: Option<u64>, now: LedgerInfo },
    Settle { amount: i128 },
    Claim { claimant: Seq<char>, now: LedgerInfo },
    UpdateMaturity { new_maturity: u64 },
    Migrate { from_version: u32 },
}

/// The state after one call, or the error it is refused with.
pub open spec fn step(m: EscrowModel, a: Action) -> Result<EscrowModel, EscrowError> {
    match a {
        Action::Init { admin, invoice_id, sme_address, amount, yield_bps, maturity, terms, tiers } =>
            init_step(
            m,
            initial_escrow(admin, invoice_id, sme_address, amount, yield_bps, maturity),
            terms,
            tiers,
        ),
        Action::Fund { investor, amount, lock_secs, now } => fund_step(m, investor, amount, lock_secs, now),
        Action::Settle { amount } => settle_step(m, amount),
        Action::Claim { claimant, now } => match claim_step(m, claimant, now) {
            Ok((m2, _)) => Ok(m2),
            Err(e) => Err(e),
        },
        Action::UpdateMaturity { new_maturity } => update_maturity_step(m, new_maturity),
        Action::Migrate { from_version } => Err(migrate_error(m, from_version)),
    }
}

} // verus!
