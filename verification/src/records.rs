use vstd::prelude::*;
use crate::types::MAX_INVESTORS;

verus! {

/// Status of an escrow that accepts funding.
pub const STATUS_OPEN: u32 = 0;

/// Status of an escrow whose funding target was reached; awaiting settlement.
pub const STATUS_FUNDED: u32 = 1;

/// Status of an escrow the buyer has fully repaid; investors may claim.
pub const STATUS_SETTLED: u32 = 2;

/// Full state of an invoice escrow. Accounts are held by their string form.
#[derive(Debug)]
pub struct InvoiceEscrow {
    pub invoice_id: String,
    pub admin: String,
    pub sme_address: String,
    pub amount: i128,
    pub funding_target: i128,
    pub funded_amount: i128,
    pub settled_amount: i128,
    pub yield_bps: i64,
    pub maturity: u64,
    /// `0` open, `1` funded, `2` settled.
    pub status: u32,
    pub version: u32,
}

impl Clone for InvoiceEscrow {
    fn clone(&self) -> (r: Self)
        ensures
            r == *self,
    {
        InvoiceEscrow {
            invoice_id: self.invoice_id.clone(),
            admin: self.admin.clone(),
            sme_address: self.sme_address.clone(),
            amount: self.amount,
            funding_target: self.funding_target,
            funded_amount: self.funded_amount,
            settled_amount: self.settled_amount,
            yield_bps: self.yield_bps,
            maturity: self.maturity,
            status: self.status,
            version: self.version,
        }
    }
}

/// Settings fixed at initialization besides the escrow record itself.
#[derive(Debug)]
pub struct EscrowTerms {
    pub funding_token: String,
    pub registry: Option<String>,
    pub treasury: String,
    /// Smallest amount a single funding call may bring, if any.
    pub min_contribution: Option<i128>,
    /// Largest number of distinct investors, if set; else `MAX_INVESTORS`.
    pub max_unique_investors: Option<u32>,
}

/// The distinct-investor cap that a set of terms imposes.
pub open spec fn investor_cap(terms: EscrowTerms) -> u32 {
    match terms.max_unique_investors {
        Some(cap) => cap,
        None => MAX_INVESTORS,
    }
}

/// Whether `amount` falls below the minimum contribution of the terms.
pub open spec fn below_floor(terms: EscrowTerms, amount: i128) -> bool {
    match terms.min_contribution {
        Some(floor) => amount < floor,
        None => false,
    }
}

/// One investor's position in the escrow.
#[derive(Debug)]
pub struct InvestorPosition {
    pub investor: String,
    /// Principal contributed so far.
    pub principal: i128,
    /// Yield this investor earns, in basis points.
    pub yield_bps: i64,
    /// Ledger timestamp before which this investor may not claim.
    pub claim_not_before: u64,
    /// Whether this investor has claimed.
    pub claimed: bool,
}

impl Clone for InvestorPosition {
    fn clone(&self) -> (r: Self)
        ensures
            r == *self,
    {
        InvestorPosition {
            investor: self.investor.clone(),
            principal: self.principal,
            yield_bps: self.yield_bps,
            claim_not_before: self.claim_not_before,
            claimed: self.claimed,
        }
    }
}

} // verus!
