//! Retention sweeps over the cache directory.
//!
//! A sweep never touches the reserved `demo` subtree. Under
//! [`CleanupMethod::MaxStorage`] it deletes the oldest non-demo files until the
//! bytes still reclaimable fit the limit; under [`CleanupMethod::MaxAge`] it
//! deletes every non-demo file older than the threshold. The planning half is
//! pure and lives here: [`plan_sweep`] receives the enumerated files and
//! returns the indices to delete, oldest first. Enumerating the directory and
//! removing the planned files is I/O and stays with the caller, which treats
//! individual deletion failures as loggable and never fatal.

use vstd::prelude::*;

verus! {

broadcast use vstd::seq_lib::lemma_seq_contains_after_push;

/// How the cache is cleaned after a generation populated it.
#[derive(Clone, Copy, Debug, PartialEq, Eq, Structural)]
pub enum CleanupMethod {
    /// Delete oldest non-demo files while they exceed this storage size (in bytes).
    MaxStorage(u64),
    /// Delete non-demo files whose age (in seconds) exceeds this bound.
    MaxAge(u64),
    /// No cleanup.
    Disabled,
}

/// A sweep failure that signals a programming error, not a recoverable state.
#[derive(Clone, Copy, Debug, PartialEq, Eq, Structural)]
pub enum SweepError {
    /// The cache directory was measured smaller than its own demo subtree.
    InternalAssertion,
}

impl SweepError {
    /// The kind a sweep failure is reported under: always the bug signal,
    /// never a user error.
    pub fn kind(&self) -> (k: crate::flow::FailureKind)
        ensures
            k == crate::flow::FailureKind::InternalAssertion,
    {
        crate::flow::FailureKind::InternalAssertion
    }
}

/// One file of the cache directory, as a sweep sees it: its size in bytes,
/// its last-modified time in seconds, and whether it sits under the reserved
/// demo subtree.
#[derive(Clone, Copy, Debug, PartialEq, Eq, Structural)]
pub struct CacheFile {
    pub size: u64,
    pub mtime: u64,
    pub demo: bool,
}

/// Select the retention policy from the startup configuration: a maximum
/// cache size in GB, a maximum age in days, or neither. Only one bound is
/// ever in force: when both are configured, the size bound takes precedence
/// and the age bound is never evaluated.
pub fn cleanup_method_from_config(cache_size_gb: Option<u32>, cache_age_days: Option<u32>) -> (m:
    CleanupMethod)
    ensures
        m == match cache_size_gb {
            Option::Some(gb) => CleanupMethod::MaxStorage(((gb as int) * 1_000_000_000) as u64),
            Option::None => match cache_age_days {
                Option::Some(days) => CleanupMethod::MaxAge(((days as int) * 86_400) as u64),
                Option::None => CleanupMethod::Disabled,
            },
        },
{
    match cache_size_gb {
        Option::Some(gb) => CleanupMethod::MaxStorage((gb as u64) * 1_000_000_000),
        Option::None => match cache_age_days {
            Option::Some(days) => CleanupMethod::MaxAge((days as u64) * 86_400),
            Option::None => CleanupMethod::Disabled,
        },
    }
}

/// Bytes held by the first `n` files that are not under the demo subtree.
pub open spec fn reclaimable_at(files: Seq<CacheFile>, n: int) -> int
    decreases n,
{
    if n <= 0 {
        0
    } else {
        reclaimable_at(files, n - 1) + if !files[n - 1].demo {
            files[n - 1].size as int
        } else {
            0
        }
    }
}

/// Bytes held by the files that are not under the demo subtree: the only
/// space a sweep may reclaim.
pub open spec fn reclaimable_size(files: Seq<CacheFile>) -> int {
    reclaimable_at(files, files.len() as int)
}

/// Bytes held by the files a plan names, in plan order.
pub open spec fn planned_bytes(files: Seq<CacheFile>, plan: Seq<usize>) -> int
    decreases plan.len(),
{
    if plan.len() == 0 {
        0
    } else {
        planned_bytes(files, plan.drop_last()) + files[plan.last() as int].size as int
    }
}

/// Bytes held by the first `n` non-demo files that the plan does not name:
/// what would still be reclaimable after the planned deletions.
pub open spec fn remaining_at(files: Seq<CacheFile>, plan: Seq<usize>, n: int) -> int
    decreases n,
{
    if n <= 0 {
        0
    } else {
        remaining_at(files, plan, n - 1) + if !files[n - 1].demo && !plan.contains(
            (n - 1) as usize,
        ) {
            files[n - 1].size as int
        } else {
            0
        }
    }
}

/// Bytes still reclaimable once the planned files are gone.
pub open spec fn remaining_size(files: Seq<CacheFile>, plan: Seq<usize>) -> int {
    remaining_at(files, plan, files.len() as int)
}

proof fn lemma_reclaimable_bound(files: Seq<CacheFile>, n: int)
    requires
        0 <= n,
    ensures
        0 <= reclaimable_at(files, n) <= n * (u64::MAX as int),
    decreases n,
{
    if n > 0 {
        lemma_reclaimable_bound(files, n - 1);
        assert((n - 1) * (u64::MAX as int) + (u64::MAX as int) == n * (u64::MAX as int))
            by (nonlinear_arith);
    }
}

proof fn lemma_remaining_nonneg(files: Seq<CacheFile>, plan: Seq<usize>, n: int)
    ensures
        0 <= remaining_at(files, plan, n),
    decreases n,
{
    if n > 0 {
        lemma_remaining_nonneg(files, plan, n - 1);
    }
}

proof fn lemma_remaining_empty(files: Seq<CacheFile>, n: int)
    ensures
        remaining_at(files, Seq::<usize>::empty(), n) == reclaimable_at(files, n),
    decreases n,
{
    if n > 0 {
        lemma_remaining_empty(files, n - 1);
    }
}

proof fn lemma_remaining_insert(files: Seq<CacheFile>, plan: Seq<usize>, j: usize, n: int)
    requires
        !plan.contains(j),
        n <= usize::MAX as int + 1,
    ensures
        remaining_at(files, plan.push(j), n) == remaining_at(files, plan, n) - if (j as int) < n
            && !files[j as int].demo {
            files[j as int].size as int
        } else {
            0
        },
    decreases n,
{
    if n > 0 {
        lemma_remaining_insert(files, plan, j, n - 1);
    }
}

/// How many of the first `n` slots are still unmarked.
spec fn untaken_count(taken: Seq<bool>, n: int) -> int
    decreases n,
{
    if n <= 0 {
        0
    } else {
        untaken_count(taken, n - 1) + if !taken[n - 1] {
            1int
        } else {
            0int
        }
    }
}

proof fn lemma_untaken_nonneg(taken: Seq<bool>, n: int)
    ensures
        0 <= untaken_count(taken, n),
    decreases n,
{
    if n > 0 {
        lemma_untaken_nonneg(taken, n - 1);
    }
}

proof fn lemma_untaken_update(taken: Seq<bool>, j: usize, n: int)
    requires
        (j as int) < taken.len(),
        !taken[j as int],
        n <= taken.len(),
    ensures
        untaken_count(taken.update(j as int, true), n) == untaken_count(taken, n) - if (j as int)
            < n {
            1int
        } else {
            0int
        },
    decreases n,
{
    if n > 0 {
        lemma_untaken_update(taken, j, n - 1);
    }
}

/// The space a size-bound sweep may reclaim, from the measured size of the
/// whole cache directory and of its demo subtree.
///
/// The demo subtree is part of the cache directory, so its size can never
/// exceed the total; a measurement that claims otherwise is a programming
/// error and is reported as such instead of being treated as reclaimable
/// space.
pub fn reclaimable_from_totals(total_size: u64, demo_size: u64) -> (r: Result<u64, SweepError>)
    ensures
        (r is Ok) == (demo_size <= total_size),
        r matches Ok(n) ==> n == total_size - demo_size,
        r matches Err(e) ==> e == SweepError::InternalAssertion,
{
    if demo_size <= total_size {
        Ok(total_size - demo_size)
    } else {
        Err(SweepError::InternalAssertion)
    }
}

/// Decide which cache files a sweep deletes.
///
/// Given every file under the cache directory and the retention policy, the
/// plan lists the indices of the files to delete. No demo file is ever
/// planned. Under `MaxStorage` the plan takes the oldest non-demo files, one
/// by one, until the reclaimable bytes left fit the limit, and stops as soon
/// as they do; if even deleting every non-demo file cannot reach the limit,
/// the plan is that best effort. Under `MaxAge` the plan is exactly the
/// non-demo files strictly older than the threshold at time `now` (both in
/// seconds). Under `Disabled` the plan is empty.
pub fn plan_sweep(files: &Vec<CacheFile>, method: CleanupMethod, now: u64) -> (plan: Vec<usize>)
    ensures
        plan@.no_duplicates(),
        forall|k: int|
            #![trigger plan@[k]]
            0 <= k < plan@.len() ==> (plan@[k] as int) < files@.len()
                && !files@[plan@[k] as int].demo,
        match method {
            CleanupMethod::Disabled => plan@.len() == 0,
            CleanupMethod::MaxAge(age) => forall|j: int|
                #![trigger files@[j]]
                0 <= j < files@.len() ==> (plan@.contains(j as usize) <==> (!files@[j].demo
                    && files@[j].mtime + age < now)),
            CleanupMethod::MaxStorage(limit) => {
                &&& (reclaimable_size(files@) <= limit ==> plan@.len() == 0)
                &&& (reclaimable_size(files@) > limit ==> {
                    &&& (planned_bytes(files@, plan@) >= reclaimable_size(files@) - limit
                        || (forall|j: int|
                        #![trigger files@[j]]
                        0 <= j < files@.len() && !files@[j].demo ==> plan@.contains(j as usize)))
                    &&& remaining_size(files@, plan@) == reclaimable_size(files@) - planned_bytes(
                        files@,
                        plan@,
                    )
                    &&& (plan@.len() > 0 ==> planned_bytes(files@, plan@.drop_last())
                        < reclaimable_size(files@) - limit)
                    &&& (forall|a: int, b: int|
                        #![trigger plan@[a], plan@[b]]
                        0 <= a < b < plan@.len() ==> files@[plan@[a] as int].mtime
                            <= files@[plan@[b] as int].mtime)
                    &&& (forall|k: int, j: int|
                        #![trigger plan@[k], files@[j]]
                        0 <= k < plan@.len() && 0 <= j < files@.len() && !files@[j].demo
                            && !plan@.contains(j as usize) ==> files@[plan@[k] as int].mtime
                            <= files@[j].mtime)
                })
            },
        },
{
    let ghost fseq = files@;
    let n: usize = files.len();
    let mut plan: Vec<usize> = Vec::new();
    match method {
        CleanupMethod::Disabled => {},
        CleanupMethod::MaxAge(age) => {
            let mut j: usize = 0;
            while j < n
                invariant
                    fseq == files@,
                    n == fseq.len(),
                    j <= n,
                    plan@.no_duplicates(),
                    forall|k: int|
                        #![trigger plan@[k]]
                        0 <= k < plan@.len() ==> (plan@[k] as int) < j && !fseq[plan@[k] as int].demo,
                    forall|i0: int|
                        #![trigger fseq[i0]]
                        0 <= i0 < j ==> (plan@.contains(i0 as usize) <==> (!fseq[i0].demo
                            && fseq[i0].mtime + age < now)),
                decreases n - j,
            {
                if !files[j].demo && (files[j].mtime as u128) + (age as u128) < (now as u128) {
                    plan.push(j);
                }
                j += 1;
            }
        },
        CleanupMethod::MaxStorage(limit) => {
            let mut total: u128 = 0;
            let mut i: usize = 0;
            while i < n
                invariant
                    fseq == files@,
                    n == fseq.len(),
                    i <= n,
                    total == reclaimable_at(fseq, i as int),
                decreases n - i,
            {
                if !files[i].demo {
                    proof {
                        lemma_reclaimable_bound(fseq, i as int);
                        assert((i as int) * (u64::MAX as int) + (u64::MAX as int) == (i as int + 1)
                            * (u64::MAX as int)) by (nonlinear_arith);
                        assert((i as int + 1) * (u64::MAX as int) < u128::MAX as int)
                            by (nonlinear_arith)
                            requires
                                0 <= i as int + 1 <= u64::MAX as int,
                        ;
                    }
                    total = total + (files[i].size as u128);
                }
                i += 1;
            }
            if total > limit as u128 {
                let to_free: u128 = total - (limit as u128);
                let mut taken: Vec<bool> = vec![false; n];
                let mut freed: u128 = 0;
                proof {
                    lemma_remaining_empty(fseq, n as int);
                }
                while freed < to_free
                    invariant
                        fseq == files@,
                        n == fseq.len(),
                        taken@.len() == n,
                        total == reclaimable_size(fseq),
                        (limit as u128) < total,
                        to_free == total - (limit as u128),
                        plan@.no_duplicates(),
                        forall|k: int|
                            #![trigger plan@[k]]
                            0 <= k < plan@.len() ==> (plan@[k] as int) < n
                                && !fseq[plan@[k] as int].demo,
                        forall|j: int|
                            #![trigger taken@[j]]
                            0 <= j < n ==> (taken@[j] <==> plan@.contains(j as usize)),
                        freed == planned_bytes(fseq, plan@),
                        remaining_size(fseq, plan@) == total - freed,
                        plan@.len() > 0 ==> planned_bytes(fseq, plan@.drop_last()) < to_free,
                        forall|a: int, b: int|
                            #![trigger plan@[a], plan@[b]]
                            0 <= a < b < plan@.len() ==> fseq[plan@[a] as int].mtime
                                <= fseq[plan@[b] as int].mtime,
                        forall|k: int, j: int|
                            #![trigger plan@[k], taken@[j]]
                            0 <= k < plan@.len() && 0 <= j < n && !fseq[j].demo && !taken@[j]
                                ==> fseq[plan@[k] as int].mtime <= fseq[j].mtime,
                    ensures
                        freed >= to_free || (forall|j: int|
                            #![trigger fseq[j]]
                            0 <= j < n && !fseq[j].demo ==> plan@.contains(j as usize)),
                    decreases untaken_count(taken@, n as int),
                {
                    let mut best: usize = n;
                    let mut j: usize = 0;
                    while j < n
                        invariant
                            fseq == files@,
                            n == fseq.len(),
                            taken@.len() == n,
                            j <= n,
                            best <= n,
                            best < n ==> !fseq[best as int].demo && !taken@[best as int],
                            best < n ==> forall|k: int|
                                #![trigger fseq[k]]
                                0 <= k < j && !fseq[k].demo && !taken@[k] ==> fseq[best as int].mtime
                                    <= fseq[k].mtime,
                            best == n ==> forall|k: int|
                                #![trigger fseq[k]]
                                0 <= k < j ==> fseq[k].demo || taken@[k],
                        decreases n - j,
                    {
                        if !files[j].demo && !taken[j] {
                            if best == n || files[j].mtime < files[best].mtime {
                                best = j;
                            }
                        }
                        j += 1;
                    }
                    if best == n {
                        break ;
                    }
                    let ghost old_plan = plan@;
                    let ghost old_taken = taken@;
                    proof {
                        lemma_remaining_nonneg(fseq, old_plan, n as int);
                        lemma_reclaimable_bound(fseq, n as int);
                        assert((n as int) * (u64::MAX as int) + (u64::MAX as int) < u128::MAX as int)
                            by (nonlinear_arith)
                            requires
                                0 <= n as int <= u64::MAX as int,
                        ;
                        lemma_remaining_insert(fseq, old_plan, best, n as int);
                        lemma_untaken_update(old_taken, best, n as int);
                        lemma_untaken_nonneg(old_taken.update(best as int, true), n as int);
                    }
                    taken[best] = true;
                    freed = freed + (files[best].size as u128);
                    plan.push(best);
                    proof {
                        assert(plan@.drop_last() =~= old_plan);
                    }
                }
                proof {
                    assert forall|k: int, j: int|
                        0 <= k < plan@.len() && 0 <= j < fseq.len() && !fseq[j].demo
                            && !plan@.contains(j as usize) implies fseq[plan@[k] as int].mtime
                        <= fseq[j].mtime by {
                        assert(!taken@[j]);
                    }
                }
            }
        },
    }
    plan
}

/// Law: a `MaxAge` sweep deletes exactly the non-demo files strictly older
/// than the threshold — afterwards every such file is gone, and every
/// younger file and every demo file remains.
pub proof fn lemma_max_age_outcome(files: Seq<CacheFile>, plan: Seq<usize>, age: u64, now: u64)
    requires
        forall|j: int|
            #![trigger files[j]]
            0 <= j < files.len() ==> (plan.contains(j as usize) <==> (!files[j].demo
                && files[j].mtime + age < now)),
    ensures
        forall|j: int|
            #![trigger files[j]]
            0 <= j < files.len() && !files[j].demo && files[j].mtime + age < now ==> plan.contains(
                j as usize,
            ),
        forall|j: int|
            #![trigger files[j]]
            0 <= j < files.len() && (files[j].demo || files[j].mtime + age >= now)
                ==> !plan.contains(j as usize),
{
}

/// Law: a `MaxStorage` sweep that deletes the planned files leaves the
/// reclaimable bytes at or under the limit, unless the plan already named
/// every non-demo file (the best-effort exhaustion case); demo files are
/// untouched either way, since no plan ever names one.
pub proof fn lemma_max_storage_outcome(files: Seq<CacheFile>, plan: Seq<usize>, limit: u64)
    requires
        reclaimable_size(files) > limit,
        planned_bytes(files, plan) >= reclaimable_size(files) - limit || (forall|j: int|
            #![trigger files[j]]
            0 <= j < files.len() && !files[j].demo ==> plan.contains(j as usize)),
        remaining_size(files, plan) == reclaimable_size(files) - planned_bytes(files, plan),
    ensures
        remaining_size(files, plan) <= limit || (forall|j: int|
            #![trigger files[j]]
            0 <= j < files.len() && !files[j].demo ==> plan.contains(j as usize)),
{
}

} // verus!
