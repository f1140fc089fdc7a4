use safe_operations::Repository;
use safe_operations::SafetyGate;

#[test]
fn open_starts_protected_with_given_data() {
    let repo = Repository::open("repoB", "/y", 50);
    assert_eq!(repo.name, "repoB");
    assert_eq!(repo.path, "/y");
    assert_eq!(repo.total_commits, 50);
    // The only operations this handle has are the safe ones; the
    // destructive set does not exist on a protected handle, so attempting
    // one is a compile-time error, not a runtime rejection.
    assert_eq!(repo.status(), "repoB: 50 commits, protected");
}

#[test]
fn round_trip_preserves_data() {
    let mut gate = SafetyGate::new();
    let repo = Repository::open("repoA", "/x", 100);
    let consent = gate.request_consent("lower protection on repoA");
    let unprotected = repo.remove_protection(&consent);
    assert_eq!(unprotected.name, "repoA");
    assert_eq!(unprotected.path, "/x");
    assert_eq!(unprotected.total_commits, 100);
    // Restoring protection needs no consent at all.
    let restored = unprotected.restore_protection();
    assert_eq!(restored.name, "repoA");
    assert_eq!(restored.path, "/x");
    assert_eq!(restored.total_commits, 100);
    assert_eq!(restored.status(), "repoA: 100 commits, protected");
}

#[test]
fn force_push_is_non_consuming() {
    let mut gate = SafetyGate::new();
    let repo = Repository::open("repoA", "/x", 100);
    let consent = gate.request_consent("lower protection on repoA");
    let unprotected = repo.remove_protection(&consent);
    // Two sequential force-pushes on the same handle, each with its own
    // freshly minted token, both succeed.
    let first = gate.request_consent("force-push repoA");
    assert_eq!(
        unprotected.force_push(&first),
        "[repoA] force-pushed to origin/main"
    );
    let second = gate.request_consent("force-push repoA again");
    assert_eq!(
        unprotected.force_push(&second),
        "[repoA] force-pushed to origin/main"
    );
    // The handle remains usable afterward.
    let restored = unprotected.restore_protection();
    assert_eq!(restored.total_commits, 100);
}

#[test]
fn end_to_end_lower_push_restore() {
    let mut gate = SafetyGate::new();
    let repo = Repository::open("repoA", "/x", 100);
    let lower = gate.request_consent("lower protection on repoA");
    let unprotected = repo.remove_protection(&lower);
    let push = gate.request_consent("force-push repoA");
    unprotected.force_push(&push);
    let restored = unprotected.restore_protection();
    assert_eq!(gate.audit_trail().len(), 2);
    assert_eq!(restored.total_commits, 100);
    assert_eq!(restored.status(), "repoA: 100 commits, protected");
}

#[test]
fn filter_repo_consumes_and_carries_the_count() {
    let mut gate = SafetyGate::new();
    let repo = Repository::open("old-history", "/h", 549);
    let lower = gate.request_consent("lower protection on old-history");
    let unprotected = repo.remove_protection(&lower);
    let rewrite = gate.request_consent("rewrite history of old-history");
    let filtered = unprotected.filter_repo("strip trailers", &rewrite);
    // The handle is gone; only the byproduct remains, carrying the prior
    // commit count as its rewritten count.
    assert_eq!(filtered.name, "old-history");
    assert_eq!(filtered.path, "/h");
    assert_eq!(filtered.rewritten_commits, 549);
    assert_eq!(
        filtered.summary(),
        "[old-history] history rewritten: 549 commits now have new SHAs. Original history is unreachable."
    );
}

#[test]
fn reset_hard_consumes_and_summarizes() {
    let mut gate = SafetyGate::new();
    let repo = Repository::open("scratch", "/s", 7);
    let lower = gate.request_consent("lower protection on scratch");
    let unprotected = repo.remove_protection(&lower);
    let reset = gate.request_consent("hard reset scratch");
    let result = unprotected.reset_hard(&reset);
    assert_eq!(result.name, "scratch");
    assert_eq!(result.path, "/s");
    assert_eq!(
        result.summary(),
        "[scratch] reset to HEAD. All uncommitted work is permanently lost."
    );
}
