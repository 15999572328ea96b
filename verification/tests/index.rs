use portus_runtime::index::{
    cleanup_eligible, reconcile_source, validate_relation, validate_source_status, Freshness,
    HealthState, IndexRow, ObservationInput, SourceStatus,
};

fn row(handle: u64, source: &str, generation: &str, identity: &str) -> IndexRow {
    IndexRow {
        handle,
        source_id: source.to_string(),
        generation: generation.to_string(),
        native_identity: identity.to_string(),
        freshness: Freshness::Live,
    }
}

fn status(generation: &str, health: HealthState) -> SourceStatus {
    SourceStatus { source_id: "proc".to_string(), generation: generation.to_string(), health }
}

fn input(identity: &str) -> ObservationInput {
    ObservationInput { native_identity: identity.to_string(), freshness: Freshness::Live }
}

#[test]
fn exact_source_generation_identity_preserves_handle_but_reuse_does_not() {
    let rows = vec![row(1, "proc", "boot:1", "pid:10"), row(2, "x11", "g", "xid:1")];
    let (rows, next) = reconcile_source(&rows, &status("boot:1", HealthState::Healthy), &vec![input("pid:10")], 3);
    assert_eq!(next, 3);
    assert_eq!(rows.len(), 2);
    assert_eq!(rows[0].handle, 1);
    let (rows, next) = reconcile_source(&rows, &status("boot:2", HealthState::Healthy), &vec![input("pid:10")], next);
    assert_eq!(rows[0].freshness, Freshness::Historical);
    assert_eq!(next, 4);
    assert_eq!(rows.len(), 3);
    assert_eq!(rows[2].handle, 3);
    assert_eq!(rows[1].freshness, Freshness::Live);
}

#[test]
fn degraded_and_unavailable_sources_do_not_invent_disappearance() {
    let rows = vec![row(1, "proc", "boot:1", "pid:10"), row(2, "proc", "boot:1", "pid:11")];
    let (after, _) = reconcile_source(&rows, &status("boot:1", HealthState::Degraded), &vec![input("pid:10")], 3);
    assert_eq!(after[0].freshness, Freshness::Live);
    assert_eq!(after[1].freshness, Freshness::Stale);
    let (after, _) = reconcile_source(&rows, &status("boot:1", HealthState::Unavailable), &vec![], 3);
    assert!(after.iter().all(|r| r.freshness == Freshness::Unavailable));
    let (after, _) = reconcile_source(&rows, &status("boot:1", HealthState::Healthy), &vec![input("pid:10")], 3);
    assert_eq!(after[1].freshness, Freshness::Historical);
}

#[test]
fn index_records_are_validated_and_cleanup_is_bounded() {
    assert!(validate_source_status("proc", "boot:1", "ready"));
    assert!(!validate_source_status("", "boot:1", "ready"));
    assert!(validate_relation("a", "b", "owns", "pid_parent"));
    assert!(!validate_relation("a", "b", "", "pid_parent"));
    assert!(cleanup_eligible(Freshness::Historical, 5, 10));
    assert!(!cleanup_eligible(Freshness::Live, 5, 10));
    assert!(!cleanup_eligible(Freshness::Historical, 15, 10));
}
