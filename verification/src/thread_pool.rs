//! Choosing a worker of a thread pool: each worker has a flag that is set
//! while it is idle, and a task goes to the first idle worker whose flag
//! the caller manages to clear (other threads may clear or set flags at the
//! same time). The workers themselves and their channels are the caller's.
use vstd::prelude::*;
use std::sync::Arc;
use std::sync::atomic::{AtomicBool, Ordering};

verus! {

/// What one attempt to claim worker `idx` gives, from the result of the
/// compare-and-exchange from idle (`true`) to busy (`false`) on its flag:
/// the worker when the flag was idle and is now switched, nothing otherwise.
pub fn claim_result(idx: usize, exchange: Result<bool, bool>) -> (claimed: Option<usize>)
    ensures
        claimed == (if exchange == Ok::<bool, bool>(true) {
            Some(idx)
        } else {
            None
        }),
{
    match exchange {
        Ok(true) => Some(idx),
        _ => None,
    }
}

/// One attempt to claim the worker whose flag is `flag`: the
/// compare-and-exchange from idle (`true`) to busy (`false`), with
/// acquire-release ordering on success and acquire on failure, returned
/// `outcome`.
pub open spec fn claim_attempt(flag: &AtomicBool, outcome: Result<bool, bool>) -> bool {
    call_ensures(
        AtomicBool::compare_exchange,
        (flag, true, false, Ordering::AcqRel, Ordering::Acquire),
        outcome,
    )
}

/// An attempt to claim the worker whose flag is `flag` was made and did not
/// switch the flag.
pub open spec fn claim_refused(flag: &AtomicBool) -> bool {
    exists|outcome: Result<bool, bool>|
        outcome != Ok::<bool, bool>(true) && #[trigger] claim_attempt(flag, outcome)
}

/// The attempt on flag `i` of `flags` switched it from idle to busy.
pub open spec fn claimed_at(flags: Seq<Arc<AtomicBool>>, i: usize) -> bool {
    claim_attempt(&*flags[i as int], Ok(true))
}

/// The attempts on the flags of `flags` before index `k` switched none.
pub open spec fn refused_below(flags: Seq<Arc<AtomicBool>>, k: usize) -> bool {
    forall|j: int| 0 <= j < k ==> #[trigger] claim_refused(&*flags[j])
}

proof fn lemma_claimed(flags: Seq<Arc<AtomicBool>>, k: usize, flag: &AtomicBool)
    requires
        k < flags.len(),
        *flag == *flags[k as int],
        claim_attempt(flag, Ok(true)),
    ensures
        claimed_at(flags, k),
{
}

proof fn lemma_refused_next(
    flags: Seq<Arc<AtomicBool>>,
    k: usize,
    flag: &AtomicBool,
    outcome: Result<bool, bool>,
)
    requires
        k < flags.len(),
        refused_below(flags, k),
        *flag == *flags[k as int],
        claim_attempt(flag, outcome),
        outcome != Ok::<bool, bool>(true),
    ensures
        refused_below(flags, (k + 1) as usize),
{
    assert(claim_refused(&*flags[k as int]));
}

/// Claims an idle worker: goes through the flags in order, tries once to
/// switch each from idle (`true`) to busy (`false`), and returns the index
/// of the first one it switched, or `None` if it switched none. Which flags
/// are idle depends on the other threads, so the contract states the
/// attempts: `Some(i)` means the attempt on flag `i` switched it and each
/// earlier attempt did not; `None` means that no attempt did, and with no
/// workers there is `None`.
pub fn get_available(is_ready: &Vec<Arc<AtomicBool>>) -> (idx: Option<usize>)
    ensures
        match idx {
            Some(i) => i < is_ready.len() && claimed_at(is_ready@, i) && refused_below(is_ready@, i),
            None => refused_below(is_ready@, is_ready.len()),
        },
        is_ready.len() == 0 ==> idx is None,
{
    let n = is_ready.len();
    let mut idx: usize = 0;
    while idx < n
        invariant
            n == is_ready.len(),
            0 <= idx <= n,
            refused_below(is_ready@, idx),
        decreases n - idx,
    {
        let flag: &AtomicBool = &is_ready[idx];
        let claimed = flag.compare_exchange(true, false, Ordering::AcqRel, Ordering::Acquire);
        match claim_result(idx, claimed) {
            Some(i) => {
                proof {
                    lemma_claimed(is_ready@, idx, flag);
                }
                return Some(i);
            },
            None => {
                proof {
                    lemma_refused_next(is_ready@, idx, flag, claimed);
                }
            },
        }
        idx = idx + 1;
    }
    None
}

} // verus!
