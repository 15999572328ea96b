use portus_runtime::artifact::{
    any_hold_active, check_artifact_visible, cleanup_decision, reconcile_provider_artifact, check_holder_ref, cleanup_eligibility,
    locator_from_columns, parse_artifact_type, parse_availability, parse_cleanup_authority,
    parse_confidentiality, parse_integrity, parse_retention, size_from_column,
    ArtifactAvailabilityState, ArtifactCleanupAuthority, ArtifactCleanupEligibility,
    ArtifactConfidentiality, ArtifactIntegrityKind, ArtifactLocatorKind, ArtifactRetentionKind,
    ArtifactType, CleanupAction, CleanupRefusal, FileContentCheck, StoredLocator, StoredRowProblem,
};
use portus_runtime::ids::Principal;

#[test]
fn private_shared_and_public_visibility() {
    let owner = Principal::new(1000, 1000);
    let friend = Principal::new(1001, 1001);
    let stranger = Principal::new(1002, 1002);
    let root = Principal::new(0, 0);
    assert!(check_artifact_visible(owner, ArtifactConfidentiality::Private, &vec![], owner));
    assert!(!check_artifact_visible(owner, ArtifactConfidentiality::Private, &vec![friend], friend));
    assert!(check_artifact_visible(owner, ArtifactConfidentiality::Private, &vec![], root));
    assert!(check_artifact_visible(owner, ArtifactConfidentiality::Shared, &vec![friend], friend));
    assert!(!check_artifact_visible(owner, ArtifactConfidentiality::Shared, &vec![friend], stranger));
    assert!(check_artifact_visible(owner, ArtifactConfidentiality::Public, &vec![], stranger));
}

#[test]
fn retention_holds_and_active_task_relationships_block_cleanup() {
    let e = |authority, retention, expires, held, active| {
        cleanup_eligibility(authority, retention, expires, ArtifactAvailabilityState::Available, held, active, 100)
    };
    assert_eq!(e(ArtifactCleanupAuthority::Nobody, ArtifactRetentionKind::Temporary, None, false, false), ArtifactCleanupEligibility::NoCleanupAuthority);
    assert_eq!(e(ArtifactCleanupAuthority::Task, ArtifactRetentionKind::Retained, None, false, false), ArtifactCleanupEligibility::Retained);
    assert_eq!(e(ArtifactCleanupAuthority::Task, ArtifactRetentionKind::Until, Some(200), false, false), ArtifactCleanupEligibility::NotExpired);
    assert_eq!(e(ArtifactCleanupAuthority::Task, ArtifactRetentionKind::Until, Some(50), true, false), ArtifactCleanupEligibility::Held);
    assert_eq!(e(ArtifactCleanupAuthority::Task, ArtifactRetentionKind::Temporary, None, false, true), ArtifactCleanupEligibility::ActiveTaskRelationship);
    assert_eq!(e(ArtifactCleanupAuthority::Portus, ArtifactRetentionKind::Temporary, None, false, false), ArtifactCleanupEligibility::Eligible);
    assert_eq!(
        cleanup_eligibility(ArtifactCleanupAuthority::Task, ArtifactRetentionKind::Temporary, None, ArtifactAvailabilityState::Missing, false, false, 100),
        ArtifactCleanupEligibility::ContentNotAvailable
    );
    assert!(any_hold_active(&vec![Some(50), None], 100));
    assert!(any_hold_active(&vec![Some(150)], 100));
    assert!(!any_hold_active(&vec![Some(50)], 100));
    assert!(check_holder_ref("task:1"));
    assert!(!check_holder_ref(""));
}

#[test]
fn stored_enumerations_read_back_by_their_names() {
    assert_eq!(parse_artifact_type("diagnostic_bundle"), Some(ArtifactType::DiagnosticBundle));
    assert_eq!(parse_artifact_type("screenshot"), Some(ArtifactType::Screenshot));
    assert_eq!(parse_artifact_type("File"), None);
    assert_eq!(parse_confidentiality("shared"), Some(ArtifactConfidentiality::Shared));
    assert_eq!(parse_confidentiality(""), None);
    assert_eq!(parse_retention("until"), Some(ArtifactRetentionKind::Until));
    assert_eq!(parse_retention("forever"), None);
    assert_eq!(parse_availability("removed"), Some(ArtifactAvailabilityState::Removed));
    assert_eq!(parse_availability("gone"), None);
    assert_eq!(parse_integrity("provider_authoritative"), Some(ArtifactIntegrityKind::ProviderAuthoritative));
    assert_eq!(parse_integrity("not_applicable"), Some(ArtifactIntegrityKind::NotApplicable));
    assert_eq!(parse_integrity("ok"), None);
    assert_eq!(parse_cleanup_authority("none"), Some(ArtifactCleanupAuthority::Nobody));
    assert_eq!(parse_cleanup_authority("provider"), Some(ArtifactCleanupAuthority::Provider));
    assert_eq!(parse_cleanup_authority("anyone"), None);
}

#[test]
fn stored_locators_need_their_columns() {
    let s = |v: &str| Some(v.to_string());
    match locator_from_columns("filesystem", s("/tmp/a.txt"), None, None, None, None) {
        Ok(StoredLocator::Filesystem { path }) => assert_eq!(path, "/tmp/a.txt"),
        other => panic!("unexpected {:?}", other),
    }
    assert!(matches!(
        locator_from_columns("filesystem", None, None, None, None, None),
        Err(StoredRowProblem::MissingPath)
    ));
    assert!(matches!(
        locator_from_columns("provider_resource", None, None, s("t"), s("i"), None),
        Err(StoredRowProblem::MissingProviderId)
    ));
    assert!(matches!(
        locator_from_columns("provider_resource", None, s("p"), None, s("i"), None),
        Err(StoredRowProblem::MissingResourceType)
    ));
    assert!(matches!(
        locator_from_columns("provider_resource", None, s("p"), s("t"), None, None),
        Err(StoredRowProblem::MissingResourceId)
    ));
    match locator_from_columns("provider_resource", None, s("p"), s("t"), s("i"), s("")) {
        Ok(StoredLocator::ProviderResource { provider_id, resource_type, resource_id, generation }) => {
            assert_eq!(provider_id, "p");
            assert_eq!(resource_type, "t");
            assert_eq!(resource_id, "i");
            assert_eq!(generation, None);
        }
        other => panic!("unexpected {:?}", other),
    }
    match locator_from_columns("provider_resource", None, s("p"), s("t"), s("i"), s("g7")) {
        Ok(StoredLocator::ProviderResource { generation, .. }) => assert_eq!(generation, s("g7")),
        other => panic!("unexpected {:?}", other),
    }
    assert!(matches!(
        locator_from_columns("url", s("/x"), None, None, None, None),
        Err(StoredRowProblem::UnknownLocatorKind)
    ));
    assert_eq!(size_from_column(Some(42)), Some(42));
    assert_eq!(size_from_column(Some(-1)), None);
    assert_eq!(size_from_column(None), None);
}

#[test]
fn provider_artifact_reconciliation_follows_the_reported_resource() {
    let kept = ArtifactIntegrityKind::ProviderAuthoritative;
    let live = ArtifactAvailabilityState::Available;
    assert_eq!(
        reconcile_provider_artifact(live, kept, Some("available")),
        Some((ArtifactAvailabilityState::Available, kept))
    );
    assert_eq!(
        reconcile_provider_artifact(live, kept, Some("unavailable")),
        Some((ArtifactAvailabilityState::Unavailable, kept))
    );
    assert_eq!(
        reconcile_provider_artifact(live, kept, Some("stale")),
        Some((ArtifactAvailabilityState::Missing, kept))
    );
    assert_eq!(
        reconcile_provider_artifact(live, kept, Some("removed")),
        Some((ArtifactAvailabilityState::Missing, kept))
    );
    assert_eq!(
        reconcile_provider_artifact(live, kept, None),
        Some((ArtifactAvailabilityState::Missing, kept))
    );
    assert_eq!(
        reconcile_provider_artifact(live, kept, Some("degraded")),
        Some((ArtifactAvailabilityState::Unavailable, kept))
    );
    assert_eq!(reconcile_provider_artifact(ArtifactAvailabilityState::Removed, kept, Some("available")), None);
}

#[test]
fn cleanup_needs_the_owner_or_root_an_eligible_artifact_and_the_registered_file() {
    let owner = Principal { uid: 1000, gid: 1000 };
    let other = Principal { uid: 1001, gid: 1001 };
    let root = Principal { uid: 0, gid: 0 };
    let eligible = ArtifactCleanupEligibility::Eligible;
    let file = ArtifactLocatorKind::Filesystem;
    let same = FileContentCheck::Matches;
    assert_eq!(cleanup_decision(owner, owner, eligible, file, same), Ok(CleanupAction::DeleteContent));
    assert_eq!(cleanup_decision(root, owner, eligible, file, same), Ok(CleanupAction::DeleteContent));
    assert_eq!(
        cleanup_decision(owner, owner, eligible, file, FileContentCheck::Missing),
        Ok(CleanupAction::RecordRemoval)
    );
    assert_eq!(
        cleanup_decision(owner, owner, eligible, file, FileContentCheck::Differs),
        Err(CleanupRefusal::ExpectedTargetMismatch)
    );
    assert_eq!(cleanup_decision(other, owner, eligible, file, same), Err(CleanupRefusal::NotOwner));
    assert_eq!(
        cleanup_decision(owner, owner, ArtifactCleanupEligibility::Retained, file, same),
        Err(CleanupRefusal::Blocked(ArtifactCleanupEligibility::Retained))
    );
    assert_eq!(
        cleanup_decision(owner, owner, eligible, ArtifactLocatorKind::ProviderResource, same),
        Err(CleanupRefusal::Unsupported)
    );
}
