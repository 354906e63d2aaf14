use feed2podcast::cache::{
    cleanup_method_from_config, plan_sweep, reclaimable_from_totals, CacheFile, CleanupMethod,
    SweepError,
};

fn file(size: u64, mtime: u64, demo: bool) -> CacheFile {
    CacheFile { size, mtime, demo }
}

#[test]
fn max_storage_zero_limit_deletes_the_one_file() {
    // One 100-byte non-demo file, an empty demo subtree, a limit of zero:
    // the sweep deletes the file and frees at least what had to go.
    let files = vec![file(100, 7, false)];
    let plan = plan_sweep(&files, CleanupMethod::MaxStorage(0), 1_000);
    assert_eq!(plan, vec![0]);
}

#[test]
fn max_storage_deletes_oldest_first_until_limit() {
    let files = vec![
        file(40, 10, false),
        file(40, 5, false),
        file(40, 20, false),
    ];
    // reclaimable = 120, limit = 50, to free = 70: the two oldest go.
    let plan = plan_sweep(&files, CleanupMethod::MaxStorage(50), 1_000);
    assert_eq!(plan, vec![1, 0]);
}

#[test]
fn max_storage_within_limit_is_a_no_op() {
    let files = vec![file(10, 1, false), file(10, 2, false)];
    let plan = plan_sweep(&files, CleanupMethod::MaxStorage(20), 1_000);
    assert!(plan.is_empty());
}

#[test]
fn max_storage_never_touches_demo_files() {
    let files = vec![
        file(1_000, 1, true),
        file(30, 50, false),
        file(1_000, 2, true),
        file(30, 40, false),
    ];
    // reclaimable = 60 (demo bytes do not count), limit = 0: every non-demo
    // file goes, oldest first; the demo files stay although they are oldest.
    let plan = plan_sweep(&files, CleanupMethod::MaxStorage(0), 1_000);
    assert_eq!(plan, vec![3, 1]);
}

#[test]
fn max_storage_exhaustion_is_best_effort() {
    // Even deleting everything non-demo cannot reach the limit's worth of
    // freed bytes; the plan still names every non-demo file and no demo one.
    let files = vec![file(5, 1, false), file(900, 2, true), file(5, 3, false)];
    let plan = plan_sweep(&files, CleanupMethod::MaxStorage(0), 1_000);
    assert_eq!(plan, vec![0, 2]);
}

#[test]
fn max_age_deletes_old_keeps_young_and_demo() {
    let files = vec![
        file(10, 100, false),
        file(10, 900, false),
        file(10, 100, true),
    ];
    // now = 1000, age bound = 500 seconds: only the old non-demo file goes.
    let plan = plan_sweep(&files, CleanupMethod::MaxAge(500), 1_000);
    assert_eq!(plan, vec![0]);
}

#[test]
fn max_age_boundary_is_strict() {
    // Exactly at the bound is kept: only strictly older files go.
    let files = vec![file(10, 500, false), file(10, 499, false)];
    let plan = plan_sweep(&files, CleanupMethod::MaxAge(500), 1_000);
    assert_eq!(plan, vec![1]);
}

#[test]
fn disabled_cleanup_plans_nothing() {
    let files = vec![file(10, 1, false)];
    let plan = plan_sweep(&files, CleanupMethod::Disabled, 1_000);
    assert!(plan.is_empty());
}

#[test]
fn size_bound_takes_precedence_over_age_bound() {
    assert_eq!(
        cleanup_method_from_config(Some(2), Some(7)),
        CleanupMethod::MaxStorage(2_000_000_000)
    );
    assert_eq!(
        cleanup_method_from_config(None, Some(7)),
        CleanupMethod::MaxAge(7 * 86_400)
    );
    assert_eq!(
        cleanup_method_from_config(None, None),
        CleanupMethod::Disabled
    );
}

#[test]
fn reclaimable_subtracts_demo_size() {
    assert_eq!(reclaimable_from_totals(300, 100), Ok(200));
    assert_eq!(reclaimable_from_totals(100, 100), Ok(0));
}

#[test]
fn reclaimable_rejects_demo_larger_than_total() {
    assert_eq!(
        reclaimable_from_totals(100, 101),
        Err(SweepError::InternalAssertion)
    );
    assert_eq!(
        SweepError::InternalAssertion.kind(),
        feed2podcast::flow::FailureKind::InternalAssertion
    );
}
