use vstd::prelude::*;

verus! {

/// Current storage schema version.
pub const SCHEMA_VERSION: u32 = 1;

/// Number of distinct investors an escrow accepts when no cap is configured.
pub const MAX_INVESTORS: u32 = 128;

/// Basis points in one whole (100%).
pub const BPS_DENOMINATOR: i128 = 10000;

/// Why an escrow operation was refused.
#[derive(Clone, Copy, Debug, PartialEq, Eq, Structural)]
pub enum EscrowError {
    /// `init` on an escrow that already exists.
    AlreadyInitialized,
    /// Any operation that needs the escrow before `init`.
    NotInitialized,
    /// `init` with an amount that is not positive.
    EscrowAmountNotPositive,
    /// Yield tiers whose `min_lock_secs` are not strictly increasing.
    TierLocksNotIncreasing,
    /// A yield tier paying less than the base yield.
    TierYieldBelowBase,
    /// Funding with an amount that is not positive.
    FundingAmountNotPositive,
    /// Funding an escrow that is no longer open.
    NotOpenForFunding,
    /// Funding below the configured minimum contribution.
    BelowMinContribution,
    /// A committed deposit from an investor who already holds principal.
    AdditionalPrincipalAfterTieredDeposit,
    /// A new investor once the distinct-investor cap is reached.
    InvestorCapReached,
    /// A sum or product that does not fit its integer type.
    ArithmeticOverflow,
    /// Settling an escrow that is not in the funded state.
    NotFunded,
    /// Settling with an amount that is not positive.
    SettlementAmountNotPositive,
    /// Settling more than principal plus interest.
    SettlementExceedsTotalDue,
    /// Changing the maturity once funding has closed.
    MaturityUpdateNotOpen,
    /// Claiming before the escrow is fully settled.
    NotSettled,
    /// Claiming without recorded principal.
    NoContribution,
    /// Claiming a second time.
    AlreadyClaimed,
    /// Claiming before the investor's committed lock has elapsed.
    ClaimLocked,
    /// `migrate` from a version other than the stored one.
    VersionMismatch,
    /// `migrate` from the current schema version.
    AlreadyCurrentVersion,
    /// `migrate` where no migration is implemented.
    NoMigrationPath,
}

/// The text of the message for each error.
pub open spec fn error_message(e: EscrowError) -> Seq<char> {
    match e {
        EscrowError::AlreadyInitialized => "Escrow already initialized"@,
        EscrowError::NotInitialized => "Escrow not initialized"@,
        EscrowError::EscrowAmountNotPositive => "Escrow amount must be positive"@,
        EscrowError::TierLocksNotIncreasing => "yield tiers must have strictly increasing min_lock_secs"@,
        EscrowError::TierYieldBelowBase => "tier yield_bps must be >= base yield_bps"@,
        EscrowError::FundingAmountNotPositive => "Funding amount must be positive"@,
        EscrowError::NotOpenForFunding => "Escrow not open for funding"@,
        EscrowError::BelowMinContribution => "funding amount below min_contribution floor"@,
        EscrowError::AdditionalPrincipalAfterTieredDeposit => "Additional principal after a tiered first deposit"@,
        EscrowError::InvestorCapReached => "unique investor cap reached"@,
        EscrowError::ArithmeticOverflow => "Arithmetic overflow"@,
        EscrowError::NotFunded => "Escrow must be funded before settlement"@,
        EscrowError::SettlementAmountNotPositive => "Settlement amount must be positive"@,
        EscrowError::SettlementExceedsTotalDue => "Settlement amount exceeds total due"@,
        EscrowError::MaturityUpdateNotOpen => "Maturity can only be updated in Open state"@,
        EscrowError::NotSettled => "Escrow must be fully settled to claim"@,
        EscrowError::NoContribution => "No contribution found to claim"@,
        EscrowError::AlreadyClaimed => "Already claimed"@,
        EscrowError::ClaimLocked => "Claim not allowed before committed lock ends"@,
        EscrowError::VersionMismatch => "from_version does not match stored version"@,
        EscrowError::AlreadyCurrentVersion => "Already at current schema version"@,
        EscrowError::NoMigrationPath => "No migration path"@,
    }
}

impl EscrowError {
    /// The message that the contract aborts with for this error.
    pub fn message(&self) -> (r: &'static str)
        ensures
            r@ == error_message(*self),
    {
        match self {
            EscrowError::AlreadyInitialized => "Escrow already initialized",
            EscrowError::NotInitialized => "Escrow not initialized",
            EscrowError::EscrowAmountNotPositive => "Escrow amount must be positive",
            EscrowError::TierLocksNotIncreasing => "yield tiers must have strictly increasing min_lock_secs",
            EscrowError::TierYieldBelowBase => "tier yield_bps must be >= base yield_bps",
            EscrowError::FundingAmountNotPositive => "Funding amount must be positive",
            EscrowError::NotOpenForFunding => "Escrow not open for funding",
            EscrowError::BelowMinContribution => "funding amount below min_contribution floor",
            EscrowError::AdditionalPrincipalAfterTieredDeposit => "Additional principal after a tiered first deposit",
            EscrowError::InvestorCapReached => "unique investor cap reached",
            EscrowError::ArithmeticOverflow => "Arithmetic overflow",
            EscrowError::NotFunded => "Escrow must be funded before settlement",
            EscrowError::SettlementAmountNotPositive => "Settlement amount must be positive",
            EscrowError::SettlementExceedsTotalDue => "Settlement amount exceeds total due",
            EscrowError::MaturityUpdateNotOpen => "Maturity can only be updated in Open state",
            EscrowError::NotSettled => "Escrow must be fully settled to claim",
            EscrowError::NoContribution => "No contribution found to claim",
            EscrowError::AlreadyClaimed => "Already claimed",
            EscrowError::ClaimLocked => "Claim not allowed before committed lock ends",
            EscrowError::VersionMismatch => "from_version does not match stored version",
            EscrowError::AlreadyCurrentVersion => "Already at current schema version",
            EscrowError::NoMigrationPath => "No migration path",
        }
    }
}

/// A yield tier: investors who commit to lock their principal for at least
/// `min_lock_secs` earn `yield_bps` instead of the base yield.
#[derive(Clone, Copy, Debug, PartialEq, Eq, Structural)]
pub struct YieldTier {
    pub min_lock_secs: u64,
    pub yield_bps: i64,
}

/// The ledger's clock at the time of a call.
#[derive(Clone, Copy, Debug, PartialEq, Eq, Structural)]
pub struct LedgerInfo {
    pub timestamp: u64,
    pub sequence: u32,
}

/// What was recorded at the moment funding closed.
#[derive(Clone, Copy, Debug, PartialEq, Eq, Structural)]
pub struct FundingCloseSnapshot {
    pub total_principal: i128,
    pub funding_target: i128,
    pub closed_at_ledger_timestamp: u64,
    pub closed_at_ledger_sequence: u32,
}

} // verus!
