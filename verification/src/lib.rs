//! Invoice escrow for tokenized invoices: investors fund an invoice up to its
//! target, the SME settles principal plus yield, and investors claim their
//! principal plus yield once the escrow is fully settled.
//!
//! The crate holds the escrow's state machine and its arithmetic; every
//! transition is proved against a mathematical model (`model`), and the laws
//! that span transitions are proved in `laws`.

pub mod types;
pub mod arith;
pub mod records;
pub mod model;
pub mod laws;
pub mod persist;
pub mod escrow;

pub use crate::types::{
    EscrowError, FundingCloseSnapshot, LedgerInfo, YieldTier, BPS_DENOMINATOR, MAX_INVESTORS,
    SCHEMA_VERSION,
};
pub use crate::records::{
    EscrowTerms, InvestorPosition, InvoiceEscrow, STATUS_FUNDED, STATUS_OPEN, STATUS_SETTLED,
};
pub use crate::arith::{check_tiers, compute_interest, compute_principal_with_interest, select_tier_yield};
pub use crate::escrow::{init_with_floor, LiquifactEscrow};
pub use crate::persist::EscrowParts;
