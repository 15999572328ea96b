use portus_runtime::ids::Principal;
use portus_runtime::provider_refs::{reconcile_resource_refs, ResourceAvailability, StoredResourceRef};
use portus_runtime::provider::{
    check_capability_updates, check_resource_set, missing_manifests, owner_from_columns,
    truncate_page, validate_provider_runtime_status, validate_runtime_reason, validate_scope_owner,
    version_summary, ProviderCapabilityRuntimeSpec, ProviderProblem, ProviderResourceRef,
    ProviderResourceRuntimeSpec, ProviderRuntimeStatusSpec, check_resource_view_count,
};

fn status(reason: Option<&str>, caps: Vec<ProviderCapabilityRuntimeSpec>) -> ProviderRuntimeStatusSpec {
    ProviderRuntimeStatusSpec {
        compatibility_state: "compatible".to_string(),
        health_state: "healthy".to_string(),
        health_reason: reason.map(|r| r.to_string()),
        capabilities: caps,
    }
}

fn cap(id: &str, availability: &str) -> ProviderCapabilityRuntimeSpec {
    ProviderCapabilityRuntimeSpec {
        capability_id: id.to_string(),
        availability_state: availability.to_string(),
        reason_code: None,
    }
}

#[test]
fn runtime_status_rejects_secret_like_reason() {
    let s = status(Some("token=do-not-store"), vec![]);
    assert_eq!(validate_provider_runtime_status(&s), Err(ProviderProblem::ReasonSecretLike));
    assert_eq!(validate_provider_runtime_status(&status(Some("ready"), vec![])), Ok(()));
}

#[test]
fn runtime_status_values_are_closed_sets() {
    let mut s = status(None, vec![]);
    s.compatibility_state = "maybe".to_string();
    assert_eq!(validate_provider_runtime_status(&s), Err(ProviderProblem::CompatibilityState));
    let mut s = status(None, vec![]);
    s.health_state = "fine".to_string();
    assert_eq!(validate_provider_runtime_status(&s), Err(ProviderProblem::HealthState));
    let s = status(None, vec![cap("fixture.control", "sometimes")]);
    assert_eq!(validate_provider_runtime_status(&s), Err(ProviderProblem::CapabilityAvailability));
    let s = status(None, vec![cap("", "available")]);
    assert_eq!(validate_provider_runtime_status(&s), Err(ProviderProblem::CapabilityId));
    assert_eq!(validate_runtime_reason(Some("")), Err(ProviderProblem::ReasonInvalid));
    assert_eq!(validate_runtime_reason(Some("a\nb")), Err(ProviderProblem::ReasonInvalid));
    assert_eq!(validate_runtime_reason(None), Ok(()));
}

#[test]
fn runtime_status_rejects_undeclared_or_repeated_capability() {
    let caps = vec![cap("fixture.control", "available"), cap("fixture.undeclared", "available")];
    assert_eq!(
        check_capability_updates(&caps, &vec![true, false]),
        Err(ProviderProblem::UndeclaredCapability)
    );
    let caps = vec![cap("a", "available"), cap("a", "degraded")];
    assert_eq!(check_capability_updates(&caps, &vec![true, true]), Err(ProviderProblem::RepeatedCapability));
    let caps = vec![cap("a", "available"), cap("b", "degraded")];
    assert_eq!(check_capability_updates(&caps, &vec![true, true]), Ok(()));
}

#[test]
fn scope_and_owner_must_agree() {
    let owner = Principal::new(1000, 1000);
    assert_eq!(validate_scope_owner("system", None), Ok(()));
    assert_eq!(validate_scope_owner("system", Some(owner)), Err(ProviderProblem::SystemProviderWithOwner));
    assert_eq!(validate_scope_owner("user", None), Err(ProviderProblem::UserProviderWithoutOwner));
    assert_eq!(validate_scope_owner("user", Some(owner)), Ok(()));
    assert_eq!(validate_scope_owner("global", None), Err(ProviderProblem::UnknownScope));
}

fn resource(provider: &str, kind: &str, id: &str, generation: Option<&str>, availability: &str) -> ProviderResourceRuntimeSpec {
    ProviderResourceRuntimeSpec {
        reference: ProviderResourceRef {
            provider_registration_id: provider.to_string(),
            resource_type: kind.to_string(),
            resource_id: id.to_string(),
            generation: generation.map(|g| g.to_string()),
        },
        availability_state: availability.to_string(),
    }
}

#[test]
fn resource_sets_are_scoped_and_identities_unique() {
    let ok = vec![
        resource("p1", "fixture-session", "session-a", Some("generation-a"), "available"),
        resource("p1", "fixture-session", "session-a", Some("generation-b"), "unavailable"),
    ];
    assert_eq!(check_resource_set("p1", "fixture-session", &ok), Ok(()));
    let dup = vec![
        resource("p1", "fixture-session", "session-a", None, "available"),
        resource("p1", "fixture-session", "session-a", Some(""), "available"),
    ];
    assert_eq!(check_resource_set("p1", "fixture-session", &dup), Err(ProviderProblem::DuplicateResource));
    let foreign = vec![resource("p2", "fixture-session", "s", None, "available")];
    assert_eq!(check_resource_set("p1", "fixture-session", &foreign), Err(ProviderProblem::ResourceOutOfScope));
    let stale = vec![resource("p1", "fixture-session", "s", None, "stale")];
    assert_eq!(check_resource_set("p1", "fixture-session", &stale), Err(ProviderProblem::ResourceOutOfScope));
    assert_eq!(check_resource_set("p1", "", &ok), Err(ProviderProblem::ResourceType));
}

#[test]
fn version_summary_is_none_single_or_mixed() {
    assert_eq!(version_summary(&vec![]), "none");
    assert_eq!(version_summary(&vec![1]), "1");
    assert_eq!(version_summary(&vec![12, 12, 12]), "12");
    assert_eq!(version_summary(&vec![1, 2]), "mixed");
    assert_eq!(version_summary(&vec![4_000_000_000]), "4000000000");
}

#[test]
fn registry_listing_helpers() {
    assert_eq!(owner_from_columns(Some(1), Some(2)), Ok(Some(Principal::new(1, 2))));
    assert_eq!(owner_from_columns(None, None), Ok(None));
    assert_eq!(owner_from_columns(Some(1), None), Err(ProviderProblem::InconsistentOwner));
    assert_eq!(check_resource_view_count(1025), Err(ProviderProblem::TooManyResources));
    assert_eq!(check_resource_view_count(1024), Ok(()));
    let active = vec!["a.toml".to_string(), "b.toml".to_string(), "c.toml".to_string()];
    let seen = vec!["b.toml".to_string()];
    assert_eq!(missing_manifests(&active, &seen), vec![0, 2]);
    let mut items = vec![1, 2, 3];
    assert!(truncate_page(&mut items, 2));
    assert_eq!(items, vec![1, 2]);
    assert!(!truncate_page(&mut items, 2));
}

fn availability_of(rows: &[StoredResourceRef], id: &str, generation: &str) -> Option<ResourceAvailability> {
    rows.iter()
        .find(|r| r.resource_id == id && r.generation == generation)
        .map(|r| r.availability)
}

#[test]
fn resource_reconcile_stales_disappeared_generation_without_rebinding() {
    let owner = Principal::new(1000, 1000);
    let first = resource("provider_fixture", "fixture-session", "session-a", Some("generation-a"), "available");
    let rows = reconcile_resource_refs(&Vec::new(), "provider_fixture", "fixture-session", Some(owner), &vec![first])
        .unwrap();
    assert_eq!(availability_of(&rows, "session-a", "generation-a"), Some(ResourceAvailability::Available));

    let replacement = resource("provider_fixture", "fixture-session", "session-a", Some("generation-b"), "available");
    let rows = reconcile_resource_refs(&rows, "provider_fixture", "fixture-session", Some(owner), &vec![replacement])
        .unwrap();
    assert_eq!(availability_of(&rows, "session-a", "generation-a"), Some(ResourceAvailability::Stale));
    assert_eq!(availability_of(&rows, "session-a", "generation-b"), Some(ResourceAvailability::Available));
    assert_eq!(rows.len(), 2);
}

#[test]
fn resource_reconcile_leaves_other_scopes_and_removed_rows_alone() {
    let me = Principal::new(1000, 1000);
    let other = Principal::new(1001, 1001);
    let stored = vec![
        StoredResourceRef {
            provider_id: "p1".to_string(),
            owner: Some(other),
            resource_type: "fixture-session".to_string(),
            resource_id: "theirs".to_string(),
            generation: String::new(),
            availability: ResourceAvailability::Available,
        },
        StoredResourceRef {
            provider_id: "p1".to_string(),
            owner: Some(me),
            resource_type: "fixture-session".to_string(),
            resource_id: "gone".to_string(),
            generation: String::new(),
            availability: ResourceAvailability::Removed,
        },
        StoredResourceRef {
            provider_id: "p1".to_string(),
            owner: Some(me),
            resource_type: "fixture-session".to_string(),
            resource_id: "mine".to_string(),
            generation: String::new(),
            availability: ResourceAvailability::Available,
        },
    ];
    let report = vec![resource("p1", "fixture-session", "fresh", None, "unavailable")];
    let rows = reconcile_resource_refs(&stored, "p1", "fixture-session", Some(me), &report).unwrap();
    assert_eq!(rows.len(), 4);
    assert_eq!(rows[0].availability, ResourceAvailability::Available);
    assert_eq!(rows[1].availability, ResourceAvailability::Removed);
    assert_eq!(rows[2].availability, ResourceAvailability::Stale);
    assert_eq!(rows[3].resource_id, "fresh");
    assert_eq!(rows[3].generation, "");
    assert_eq!(rows[3].availability, ResourceAvailability::Unavailable);
    assert_eq!(rows[3].owner, Some(me));

    let refused = reconcile_resource_refs(
        &stored,
        "p1",
        "fixture-session",
        Some(me),
        &vec![resource("p2", "fixture-session", "x", None, "available")],
    );
    assert!(matches!(refused, Err(ProviderProblem::ResourceOutOfScope)));
}
