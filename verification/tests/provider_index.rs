use portus_runtime::runtime::SubsystemReason;
use portus_runtime::ids::Principal;
use portus_runtime::index::{Freshness, HealthState};
use portus_runtime::provider_index::{
    freshness_of_availability, provider_index_batch, BatchCapability, BatchRegistration,
    BatchResource, MetadataSource, ProviderRelationKind,
};
use portus_runtime::visual::{IndexResourceType, IndexSourceKind};

fn registration(id: &str, scope: &str, visible: bool, caps: &[&str]) -> BatchRegistration {
    BatchRegistration {
        provider_id: id.to_string(),
        provider_type: "fixture".to_string(),
        display_label: "Fixture".to_string(),
        scope: scope.to_string(),
        health_state: "healthy".to_string(),
        compatibility_state: "compatible".to_string(),
        detail_visible: visible,
        capabilities: caps
            .iter()
            .map(|c| BatchCapability {
                capability_id: c.to_string(),
                contract_version: 1,
                availability_state: "available".to_string(),
            })
            .collect(),
    }
}

#[test]
fn provider_resources_enter_index_as_opaque_refs_with_relations() {
    let regs = vec![
        registration("p1", "system", true, &["fixture.control", "fixture.view"]),
        registration("p2", "user", true, &["x"]),
        registration("p3", "system", false, &["y"]),
    ];
    let resources = vec![
        BatchResource {
            encoded_reference: "{\"id\":\"s1\"}".to_string(),
            provider_id: "p1".to_string(),
            provider_scope: "system".to_string(),
            owner: Some(Principal::new(1000, 1000)),
            availability_state: "stale".to_string(),
            updated_at_ms: 42,
        },
        BatchResource {
            encoded_reference: "{\"id\":\"s2\"}".to_string(),
            provider_id: "p2".to_string(),
            provider_scope: "user".to_string(),
            owner: None,
            availability_state: "available".to_string(),
            updated_at_ms: 43,
        },
    ];
    let batch = provider_index_batch(HealthState::Healthy, SubsystemReason::Ready, &regs, &resources, 100);
    assert_eq!(batch.status.source_id, "providers");
    assert_eq!(batch.status.source_kind, IndexSourceKind::Providers);
    assert_eq!(batch.status.owner, None);
    assert_eq!(batch.status.source_generation, "provider-registry-v1");
    assert_eq!(batch.status.health, HealthState::Healthy);
    assert_eq!(batch.status.reason, SubsystemReason::Ready);
    assert_eq!(batch.status.last_attempt_at_ms, 100);
    assert_eq!(batch.status.last_success_at_ms, Some(100));
    let ids: Vec<&str> = batch.observations.iter().map(|o| o.native_identity.as_str()).collect();
    assert_eq!(
        ids,
        vec![
            "p1",
            "provider-capability:p1:fixture.control",
            "provider-capability:p1:fixture.view",
            "provider-resource:{\"id\":\"s1\"}",
        ]
    );
    assert_eq!(batch.observations[0].resource_type, IndexResourceType::ProviderRegistration);
    assert_eq!(batch.observations[2].metadata, MetadataSource::Capability(0, 1));
    let res = &batch.observations[3];
    assert_eq!(res.freshness, Freshness::Stale);
    assert_eq!(res.owner, Some(Principal::new(1000, 1000)));
    assert_eq!(res.observed_at_ms, 42);
    assert_eq!(res.metadata, MetadataSource::Resource(0));
    assert_eq!(batch.relations.len(), 3);
    assert_eq!(batch.relations[0].kind, ProviderRelationKind::ProviderCapability);
    assert_eq!(batch.relations[2].from_ref, "p1");
    assert_eq!(batch.relations[2].kind, ProviderRelationKind::ProviderResource);
}

#[test]
fn unavailable_registry_has_no_last_success() {
    let batch = provider_index_batch(HealthState::Unavailable, SubsystemReason::ReconciliationFailed, &vec![], &vec![], 5);
    assert_eq!(batch.status.health, HealthState::Unavailable);
    assert_eq!(batch.status.reason, SubsystemReason::ReconciliationFailed);
    assert_eq!(batch.status.last_attempt_at_ms, 5);
    assert_eq!(batch.status.last_success_at_ms, None);
    assert!(batch.observations.is_empty());
    assert_eq!(freshness_of_availability("available"), Freshness::Recent);
    assert_eq!(freshness_of_availability("unavailable"), Freshness::Unavailable);
    assert_eq!(freshness_of_availability("removed"), Freshness::Historical);
}
