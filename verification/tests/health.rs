use portus_runtime::health::{
    assemble_catalogue, catalogue_degraded, degraded_components, find_component,
    health_catalogue, health_changed, parse_health_state, parse_index_health_state, parse_provider_health,
    parse_recovery_disposition, runtime_health_observation, runtime_health_observations, simple_health_observation,
    state_health_observation, validate_observation, validate_recovery_attempt,
    HealthComponentType, HealthInputs, HealthObservation, HealthProblem, HealthReasonCode,
    IndexHealthState, IndexSourceHealth, ProviderHealthEntry, RecoveryDisposition, SafeDetail,
};
use portus_runtime::ids::Principal;
use portus_runtime::index::HealthState;
use portus_runtime::migration::DatabaseReadiness;
use portus_runtime::runtime::RuntimeReadiness;

fn obs(component_ref: &str, owner: Option<Principal>, health: HealthState) -> HealthObservation {
    simple_health_observation(
        component_ref,
        owner,
        HealthComponentType::Storage,
        health,
        HealthReasonCode::Ready,
        RecoveryDisposition::Observe,
        5,
    )
}

fn refs(v: &[HealthObservation]) -> Vec<&str> {
    v.iter().map(|o| o.component_ref.as_str()).collect()
}

#[test]
fn simple_observation_summarises_its_state() {
    let o = obs("disk:/", None, HealthState::Healthy);
    assert_eq!(o.summary, "disk:/ health is healthy");
    assert_eq!(o.source, "portusd-health");
    assert_eq!(o.last_healthy_at_ms, Some(5));
    let d = obs("disk:/", None, HealthState::Degraded);
    assert_eq!(d.summary, "disk:/ health is degraded");
    assert_eq!(d.last_healthy_at_ms, None);
    assert!(d.safe_details.is_empty());
}

#[test]
fn runtime_and_state_observations_follow_readiness() {
    let r = runtime_health_observation(RuntimeReadiness::Stopping, 9);
    assert_eq!(r.component_ref, "runtime:portusd");
    assert_eq!(r.health_state, HealthState::Unavailable);
    assert_eq!(r.reason_code, HealthReasonCode::Stopping);
    let s = state_health_observation(DatabaseReadiness::IntegrityFailure, 9);
    assert_eq!(s.reason_code, HealthReasonCode::StateIntegrityFailed);
    assert_eq!(s.recovery_disposition, RecoveryDisposition::AdministratorRequired);
}

#[test]
fn catalogue_is_sorted_deduplicated_and_principal_filtered() {
    let me = Principal::new(1000, 1000);
    let other = Principal::new(1001, 1001);
    let items = vec![
        obs("zeta", None, HealthState::Healthy),
        obs("alpha", Some(other), HealthState::Healthy),
        obs("mid", Some(me), HealthState::Degraded),
        obs("alpha", None, HealthState::Degraded),
        obs("mid", None, HealthState::Healthy),
    ];
    let seen = assemble_catalogue(&items, me);
    assert_eq!(refs(&seen), vec!["alpha", "mid", "zeta"]);
    // the first visible observation of each reference is kept
    assert_eq!(seen[0].health_state, HealthState::Degraded);
    assert_eq!(seen[1].owner, Some(me));
    let root = assemble_catalogue(&items, Principal::new(0, 0));
    assert_eq!(root[0].owner, Some(other));
}

fn inputs() -> HealthInputs {
    HealthInputs {
        readiness: RuntimeReadiness::Ready,
        database: DatabaseReadiness::Ready,
        provider_registry: HealthState::Healthy,
        policy: HealthState::Degraded,
        index: IndexHealthState::Initializing,
        index_sources: vec![IndexSourceHealth {
            source_id: "x11".to_string(),
            owner: Some(Principal::new(1000, 1000)),
            health: HealthState::Unavailable,
            source_generation: "boot:1".to_string(),
            last_success_at_ms: Some(3),
        }],
        providers: vec![ProviderHealthEntry {
            provider_id: "prov-1".to_string(),
            owner: None,
            health_state: "weird".to_string(),
        }],
        task_ready: true,
        audit_failures: 12,
    }
}

#[test]
fn health_rpcs_catalogue_covers_every_subsystem() {
    let me = Principal::new(1000, 1000);
    let probes = vec![obs("storage:/var", None, HealthState::Healthy)];
    let c = health_catalogue(&inputs(), &probes, me, 77);
    assert_eq!(
        refs(&c),
        vec![
            "audit:portusd",
            "index-source:x11:uid1000",
            "index:system",
            "policy:system",
            "prov-1",
            "provider-registry:system",
            "runtime:portusd",
            "state:portus.db",
            "storage:/var",
            "task-runtime:portusd",
        ]
    );
    let audit = &c[0];
    assert_eq!(audit.health_state, HealthState::Degraded);
    assert_eq!(audit.reason_code, HealthReasonCode::AuditWriteFailed);
    assert_eq!(audit.safe_details.len(), 1);
    assert_eq!(audit.safe_details[0].key, "write_failures");
    assert_eq!(audit.safe_details[0].value, "12");
    let source = &c[1];
    assert_eq!(source.source_generation.as_deref(), Some("boot:1"));
    assert_eq!(source.last_healthy_at_ms, Some(3));
    assert_eq!(source.reason_code, HealthReasonCode::SourceDisconnected);
    assert_eq!(c[2].health_state, HealthState::Unknown);
    assert_eq!(c[2].reason_code, HealthReasonCode::ReconciliationRequired);
    assert_eq!(c[3].recovery_disposition, RecoveryDisposition::AdministratorRequired);
    assert_eq!(c[4].health_state, HealthState::Unknown);
    // another principal does not see the caller's own index source
    let other = health_catalogue(&inputs(), &probes, Principal::new(1001, 1001), 77);
    assert_eq!(other.len(), 9);
    assert!(catalogue_degraded(&c));
    assert_eq!(find_component(&c, "policy:system"), Some(3));
    assert_eq!(find_component(&c, "nothing"), None);
    let degraded = degraded_components(c);
    assert_eq!(
        refs(&degraded),
        vec!["audit:portusd", "index-source:x11:uid1000", "policy:system"]
    );
}

#[test]
fn provider_health_text_is_read_strictly() {
    assert_eq!(parse_provider_health("healthy"), HealthState::Healthy);
    assert_eq!(parse_provider_health("Healthy"), HealthState::Unknown);
    assert_eq!(parse_health_state("unknown"), Some(HealthState::Unknown));
    assert_eq!(parse_health_state("ok"), None);
    assert_eq!(
        parse_recovery_disposition("administrator_required"),
        Some(RecoveryDisposition::AdministratorRequired)
    );
    assert_eq!(parse_recovery_disposition("reboot"), None);
}

#[test]
fn stored_observations_are_bounded_and_secret_free() {
    let mut o = obs("disk:/", None, HealthState::Healthy);
    assert_eq!(validate_observation(&o), Ok(()));
    o.summary = "token=abc".to_string();
    assert_eq!(validate_observation(&o), Err(HealthProblem::SecretText));
    let mut o = obs("disk:/", None, HealthState::Healthy);
    o.source_generation = Some("gen\n".to_string());
    assert_eq!(validate_observation(&o), Err(HealthProblem::SourceGeneration));
    let mut o = obs("disk:/", None, HealthState::Healthy);
    o.safe_details = (0..17)
        .map(|i| SafeDetail { key: format!("k{i}"), value: "v".to_string() })
        .collect();
    assert_eq!(validate_observation(&o), Err(HealthProblem::TooManyDetails));
    let mut o = obs("disk:/", None, HealthState::Healthy);
    o.safe_details = vec![SafeDetail { key: "api_key".to_string(), value: "v".to_string() }];
    assert_eq!(validate_observation(&o), Err(HealthProblem::SecretDetail));
    let o = obs(" ", None, HealthState::Healthy);
    assert_eq!(validate_observation(&o), Err(HealthProblem::ComponentRef));
    let mut o = obs("disk:/", None, HealthState::Healthy);
    o.safe_details = vec![SafeDetail { key: "free".to_string(), value: "12".to_string() }];
    assert_eq!(validate_observation(&o), Ok(()));
    // Each {"kN":"v…"} member with a 256-byte value takes 263 bytes.
    o.safe_details = (0..7)
        .map(|i| SafeDetail { key: format!("k{i}"), value: "v".repeat(256) })
        .collect();
    assert_eq!(validate_observation(&o), Ok(()));
    o.safe_details.push(SafeDetail { key: "k7".to_string(), value: "v".repeat(256) });
    assert_eq!(validate_observation(&o), Err(HealthProblem::DetailsTooLarge));
}

#[test]
fn recovery_attempts_are_numbered_from_one() {
    let r = "index:system".to_string();
    assert_eq!(validate_recovery_attempt(&r, 0, &None), Err(HealthProblem::AttemptNumber));
    assert_eq!(validate_recovery_attempt(&r, 1, &None), Ok(()));
    assert_eq!(
        validate_recovery_attempt(&r, 1, &Some("password=x".to_string())),
        Err(HealthProblem::SecretRecoverySummary)
    );
}

#[test]
fn only_real_changes_become_significant_events() {
    let a = obs("disk:/", None, HealthState::Healthy);
    let b = obs("disk:/", None, HealthState::Healthy);
    let c = obs("disk:/", None, HealthState::Degraded);
    assert!(health_changed(None, &a));
    assert!(!health_changed(Some(&a), &b));
    assert!(health_changed(Some(&a), &c));
}

#[test]
fn index_state_reads_back_by_name() {
    assert_eq!(parse_index_health_state("initializing"), Some(IndexHealthState::Initializing));
    assert_eq!(parse_index_health_state("rebuilding"), Some(IndexHealthState::Rebuilding));
    assert_eq!(parse_index_health_state("healthy"), Some(IndexHealthState::Healthy));
    assert_eq!(parse_index_health_state("Healthy"), None);
}

#[test]
fn a_failing_provider_changes_only_its_own_observation() {
    let mut healthy = inputs();
    healthy.providers.push(ProviderHealthEntry {
        provider_id: "prov-2".to_string(),
        owner: None,
        health_state: "healthy".to_string(),
    });
    let mut failing = inputs();
    failing.providers.push(ProviderHealthEntry {
        provider_id: "prov-2".to_string(),
        owner: None,
        health_state: "unavailable".to_string(),
    });
    let a = runtime_health_observations(&healthy, 10);
    let b = runtime_health_observations(&failing, 10);
    assert_eq!(a.len(), b.len());
    let position = 5 + healthy.index_sources.len() + 1;
    for k in 0..a.len() {
        if k == position {
            assert_eq!(a[k].health_state, HealthState::Healthy);
            assert_eq!(b[k].health_state, HealthState::Unavailable);
            assert_eq!(b[k].component_ref, "prov-2");
        } else {
            assert_eq!(a[k].component_ref, b[k].component_ref);
            assert_eq!(a[k].health_state, b[k].health_state);
            assert_eq!(a[k].reason_code, b[k].reason_code);
        }
    }
    assert_eq!(a[0].component_ref, "runtime:portusd");
    assert_eq!(b[0].health_state, HealthState::Healthy);
}
