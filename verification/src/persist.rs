use vstd::prelude::*;
use crate::types::{FundingCloseSnapshot, YieldTier, MAX_INVESTORS, SCHEMA_VERSION};
use crate::records::{
    EscrowTerms, InvestorPosition, InvoiceEscrow, STATUS_FUNDED, STATUS_OPEN, STATUS_SETTLED,
};
use crate::arith::{check_tiers, compute_principal_with_interest};
use crate::model::{investors_distinct, inv, sum_principal, total_due, EscrowModel};
use crate::laws::lemma_sum_prefix_le;

verus! {

/// The stored form of an escrow contract's state, field by field.
pub struct EscrowParts {
    pub escrow: Option<InvoiceEscrow>,
    pub terms: Option<EscrowTerms>,
    pub tiers: Vec<YieldTier>,
    pub version: Option<u32>,
    pub positions: Vec<InvestorPosition>,
    pub snapshot: Option<FundingCloseSnapshot>,
}

impl EscrowParts {
    /// The state these parts describe.
    pub open spec fn model(&self) -> EscrowModel {
        EscrowModel {
            escrow: self.escrow,
            terms: self.terms,
            tiers: self.tiers@,
            version: self.version,
            positions: self.positions@,
            snapshot: self.snapshot,
        }
    }
}

/// Whether no investor holds two positions.
pub fn positions_distinct(ps: &Vec<InvestorPosition>) -> (r: bool)
    ensures
        r == investors_distinct(ps@),
{
    let n = ps.len();
    let mut i: usize = 0;
    while i < n
        invariant
            n == ps@.len(),
            i <= n,
            forall|a: int, b: int|
                0 <= a < b < i ==> #[trigger] ps@[a].investor@ != #[trigger] ps@[b].investor@,
        decreases n - i,
    {
        let mut j: usize = 0;
        while j < i
            invariant
                n == ps@.len(),
                j <= i < n,
                forall|a: int| 0 <= a < j ==> #[trigger] ps@[a].investor@ != ps@[i as int].investor@,
            decreases i - j,
        {
            if ps[j].investor == ps[i].investor {
                assert(!investors_distinct(ps@)) by {
                    assert(ps@[j as int].investor@ == ps@[i as int].investor@);
                }
                return false;
            }
            j = j + 1;
        }
        i = i + 1;
    }
    true
}

/// Whether every position holds positive principal, and whether only a
/// settled escrow has claimed positions.
pub fn positions_well_formed(ps: &Vec<InvestorPosition>, settled: bool) -> (r: bool)
    ensures
        r == ((forall|i: int| 0 <= i < ps@.len() ==> #[trigger] ps@[i].principal > 0) && (forall|i: int|
            0 <= i < ps@.len() && #[trigger] ps@[i].claimed ==> settled)),
{
    let n = ps.len();
    let mut i: usize = 0;
    while i < n
        invariant
            n == ps@.len(),
            i <= n,
            forall|k: int| 0 <= k < i ==> #[trigger] ps@[k].principal > 0,
            forall|k: int| 0 <= k < i && #[trigger] ps@[k].claimed ==> settled,
        decreases n - i,
    {
        if ps[i].principal <= 0 {
            return false;
        }
        if ps[i].claimed && !settled {
            return false;
        }
        i = i + 1;
    }
    true
}

/// Whether the principal of the positions adds up to `funded`.
pub fn principal_sum_is(ps: &Vec<InvestorPosition>, funded: i128) -> (r: bool)
    requires
        forall|i: int| 0 <= i < ps@.len() ==> #[trigger] ps@[i].principal > 0,
    ensures
        r == (sum_principal(ps@) == funded),
{
    let n = ps.len();
    let mut acc: i128 = 0;
    let mut i: usize = 0;
    assert(ps@.take(0) =~= Seq::<InvestorPosition>::empty());
    while i < n
        invariant
            n == ps@.len(),
            i <= n,
            acc == sum_principal(ps@.take(i as int)),
            forall|k: int| 0 <= k < ps@.len() ==> #[trigger] ps@[k].principal > 0,
        decreases n - i,
    {
        assert(ps@.take(i + 1).drop_last() =~= ps@.take(i as int));
        match acc.checked_add(ps[i].principal) {
            None => {
                proof {
                    lemma_sum_prefix_le(ps@, i + 1);
                }
                return false;
            },
            Some(next) => {
                acc = next;
            },
        }
        i = i + 1;
    }
    assert(ps@.take(n as int) =~= ps@);
    acc == funded
}

/// Whether the parts describe a state that the escrow's operations can reach:
/// exactly the escrow invariant.
pub fn parts_valid(p: &EscrowParts) -> (r: bool)
    ensures
        r == inv(p.model()),
{
    match &p.escrow {
        None => {
            p.terms.is_none() && p.tiers.len() == 0 && p.version.is_none() && p.positions.len() == 0
                && p.snapshot.is_none()
        },
        Some(e) => {
            let cap = match &p.terms {
                None => {
                    return false;
                },
                Some(t) => match t.max_unique_investors {
                    Some(c) => c,
                    None => MAX_INVESTORS,
                },
            };
            match p.version {
                Some(v) => {
                    if v != SCHEMA_VERSION {
                        return false;
                    }
                },
                None => {
                    return false;
                },
            }
            if e.version != SCHEMA_VERSION || e.amount <= 0 || e.funding_target != e.amount {
                return false;
            }
            if check_tiers(&p.tiers, e.yield_bps).is_err() {
                return false;
            }
            if e.status != STATUS_OPEN && e.status != STATUS_FUNDED && e.status != STATUS_SETTLED {
                return false;
            }
            if (e.status == STATUS_OPEN) != (e.funded_amount < e.funding_target) {
                return false;
            }
            if e.funded_amount < 0 || e.settled_amount < 0 {
                return false;
            }
            if e.status == STATUS_OPEN && e.settled_amount != 0 {
                return false;
            }
            let due = compute_principal_with_interest(e.amount, e.yield_bps);
            assert(due == total_due(*e));
            if e.settled_amount > 0 {
                match due {
                    None => {
                        return false;
                    },
                    Some(d) => {
                        if e.settled_amount > d {
                            return false;
                        }
                        if e.status == STATUS_FUNDED && e.settled_amount >= d {
                            return false;
                        }
                    },
                }
            }
            if e.status == STATUS_SETTLED {
                match due {
                    None => {
                        return false;
                    },
                    Some(d) => {
                        if d != e.settled_amount {
                            return false;
                        }
                    },
                }
            }
            if (e.status == STATUS_OPEN) != p.snapshot.is_none() {
                return false;
            }
            match p.snapshot {
                Some(s) => {
                    if s.total_principal != e.funded_amount || s.funding_target != e.funding_target {
                        return false;
                    }
                },
                None => {},
            }
            if !positions_distinct(&p.positions) {
                return false;
            }
            if !positions_well_formed(&p.positions, e.status == STATUS_SETTLED) {
                return false;
            }
            if !principal_sum_is(&p.positions, e.funded_amount) {
                return false;
            }
            p.positions.len() <= cap as usize
        },
    }
}

} // verus!
