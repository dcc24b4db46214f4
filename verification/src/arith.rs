use vstd::prelude::*;
use crate::types::{EscrowError, YieldTier, BPS_DENOMINATOR};

verus! {

/// Integer division as Rust's `/` does it: the quotient rounded toward zero.
pub open spec fn div_toward_zero(x: int, d: int) -> int
    recommends
        d > 0,
{
    if x >= 0 {
        x / d
    } else {
        -((-x) / d)
    }
}

/// Interest on `principal` at `bps` basis points, `principal * bps / 10000`
/// rounded toward zero; `None` when the product does not fit in an `i128`.
pub open spec fn interest_of(principal: i128, bps: i64) -> Option<i128> {
    let product = principal * bps;
    if product < i128::MIN || product > i128::MAX {
        None
    } else {
        Some(div_toward_zero(product, BPS_DENOMINATOR as int) as i128)
    }
}

/// `principal` plus its interest at `bps`; `None` when either step overflows.
pub open spec fn principal_with_interest(principal: i128, bps: i64) -> Option<i128> {
    match interest_of(principal, bps) {
        None => None,
        Some(interest) => {
            let total = principal + interest;
            if total < i128::MIN || total > i128::MAX {
                None
            } else {
                Some(total as i128)
            }
        },
    }
}

/// Interest on `principal` at `bps` basis points, with checked arithmetic.
pub fn compute_interest(principal: i128, bps: i64) -> (r: Option<i128>)
    ensures
        r == interest_of(principal, bps),
{
    let wide_bps: i128 = bps as i128;
    match principal.checked_mul(wide_bps) {
        None => None,
        Some(product) => product.checked_div(BPS_DENOMINATOR),
    }
}

/// Principal plus interest at `bps` basis points, with checked arithmetic.
pub fn compute_principal_with_interest(principal: i128, bps: i64) -> (r: Option<i128>)
    ensures
        r == principal_with_interest(principal, bps),
{
    match compute_interest(principal, bps) {
        None => None,
        Some(interest) => principal.checked_add(interest),
    }
}

/// The yield earned by an investor who commits to a lock of `lock_secs`: that
/// of the last tier whose `min_lock_secs` the lock reaches, else `base`.
pub open spec fn tier_yield(tiers: Seq<YieldTier>, base: i64, lock_secs: u64) -> i64
    decreases tiers.len(),
{
    if tiers.len() == 0 {
        base
    } else if tiers.last().min_lock_secs <= lock_secs {
        tiers.last().yield_bps
    } else {
        tier_yield(tiers.drop_last(), base, lock_secs)
    }
}

/// The tiers' lock thresholds strictly increase.
pub open spec fn locks_strictly_increasing(tiers: Seq<YieldTier>) -> bool {
    forall|i: int, j: int|
        0 <= i < j < tiers.len() ==> #[trigger] tiers[i].min_lock_secs
            < #[trigger] tiers[j].min_lock_secs
}

/// No tier pays less than the base yield.
pub open spec fn tiers_at_least_base(tiers: Seq<YieldTier>, base: i64) -> bool {
    forall|i: int| 0 <= i < tiers.len() ==> #[trigger] tiers[i].yield_bps >= base
}

/// The error, if any, that a tier schedule is refused with.
pub open spec fn tier_error(tiers: Seq<YieldTier>, base: i64) -> Option<EscrowError> {
    if !locks_strictly_increasing(tiers) {
        Some(EscrowError::TierLocksNotIncreasing)
    } else if !tiers_at_least_base(tiers, base) {
        Some(EscrowError::TierYieldBelowBase)
    } else {
        None
    }
}

/// Picks the yield for a committed lock of `lock_secs`.
pub fn select_tier_yield(tiers: &Vec<YieldTier>, base: i64, lock_secs: u64) -> (r: i64)
    ensures
        r == tier_yield(tiers@, base, lock_secs),
{
    let n = tiers.len();
    let mut chosen: i64 = base;
    let mut i: usize = 0;
    while i < n
        invariant
            n == tiers@.len(),
            i <= n,
            chosen == tier_yield(tiers@.take(i as int), base, lock_secs),
        decreases n - i,
    {
        let tier = tiers[i];
        assert(tiers@.take(i + 1).drop_last() =~= tiers@.take(i as int));
        assert(tiers@.take(i + 1).last() == tier);
        if tier.min_lock_secs <= lock_secs {
            chosen = tier.yield_bps;
        }
        i = i + 1;
    }
    assert(tiers@.take(n as int) =~= tiers@);
    chosen
}

/// Checks a tier schedule against the base yield.
pub fn check_tiers(tiers: &Vec<YieldTier>, base: i64) -> (r: Result<(), EscrowError>)
    ensures
        r == (match tier_error(tiers@, base) {
            None => Ok(()),
            Some(e) => Err(e),
        }),
{
    let n = tiers.len();
    let mut i: usize = 1;
    while i < n
        invariant
            n == tiers@.len(),
            1 <= i,
            n == 0 || (i <= n && locks_strictly_increasing(tiers@.take(i as int))),
        decreases n - i,
    {
        let prev = tiers[i - 1];
        let cur = tiers[i];
        if cur.min_lock_secs <= prev.min_lock_secs {
            assert(!locks_strictly_increasing(tiers@)) by {
                let a: int = i - 1;
                let b: int = i as int;
                assert(tiers@[a].min_lock_secs >= tiers@[b].min_lock_secs);
            }
            return Err(EscrowError::TierLocksNotIncreasing);
        }
        assert(locks_strictly_increasing(tiers@.take(i + 1))) by {
            let t = tiers@.take(i + 1);
            assert forall|a: int, b: int| 0 <= a < b < t.len() implies #[trigger] t[a].min_lock_secs
                < #[trigger] t[b].min_lock_secs by {
                if b < i {
                    assert(tiers@.take(i as int)[a] == t[a]);
                    assert(tiers@.take(i as int)[b] == t[b]);
                } else if a < i - 1 {
                    assert(tiers@.take(i as int)[a] == t[a]);
                    assert(tiers@.take(i as int)[i - 1] == t[i - 1]);
                }
            }
        }
        i = i + 1;
    }
    assert(locks_strictly_increasing(tiers@)) by {
        if n > 0 {
            assert(tiers@.take(n as int) =~= tiers@);
        }
    }
    let mut k: usize = 0;
    while k < n
        invariant
            n == tiers@.len(),
            k <= n,
            locks_strictly_increasing(tiers@),
            forall|j: int| 0 <= j < k ==> #[trigger] tiers@[j].yield_bps >= base,
        decreases n - k,
    {
        if tiers[k].yield_bps < base {
            return Err(EscrowError::TierYieldBelowBase);
        }
        k = k + 1;
    }
    Ok(())
}

} // verus!
