use portus_runtime::artifact::{ArtifactAvailabilityState, ArtifactCleanupEligibility};
use portus_runtime::ids::Principal;
use portus_runtime::index::{Freshness, HealthState};
use portus_runtime::runtime::{
    artifact_availability_from_provider, audit_target, audited_domain, authorize_index_rebuild,
    caller_sees_degraded_index, cleanup_precheck, dispatch_outcome, parse_index_domain,
    policy_check_outcome, policy_status_after_load, readiness_wire, recovery_supported,
    refresh_error_code, refresh_outcome, refresh_plan, registry_status_after_reconcile, request_problem_code,
    rescan_domain, task_error, validate_capability_cursor, validate_capability_id,
    validate_config, validate_limit, validate_optional_filter, validate_resource_ref,
    validate_topology, AuditDomain, AuditOutcome, AuditTargetKind, CleanupRefusal,
    ConfigProblem, ConnectionCount, ConnectionPermit, IndexRescanDomain, RefreshProblem,
    RequestProblem, RuntimeMethod, RuntimeReadiness, SemanticErrorCode, SubsystemReason,
    TaskFailure,
};
use portus_runtime::task::{TaskError, TaskState};
use portus_runtime::visual::{IndexResourceType, PolicyEffect};

#[test]
fn every_method_name_is_recognised_and_unknown_ones_are_unsupported() {
    assert_eq!(RuntimeMethod::parse("runtime.ping"), Some(RuntimeMethod::Ping));
    assert_eq!(RuntimeMethod::parse("capability.provider.show"), Some(RuntimeMethod::CapabilityProviderShow));
    assert_eq!(RuntimeMethod::parse("task.cancel"), Some(RuntimeMethod::TaskCancel));
    assert_eq!(RuntimeMethod::parse("task.create"), None);
    assert_eq!(RuntimeMethod::parse("task.events.follow"), None);
}

#[test]
fn readiness_is_stored_as_a_byte() {
    assert_eq!(RuntimeReadiness::from_u8(1), RuntimeReadiness::Ready);
    assert_eq!(RuntimeReadiness::from_u8(2), RuntimeReadiness::Stopping);
    assert_eq!(RuntimeReadiness::from_u8(9), RuntimeReadiness::Starting);
    for r in [RuntimeReadiness::Starting, RuntimeReadiness::Ready, RuntimeReadiness::Stopping] {
        assert_eq!(RuntimeReadiness::from_u8(r.code()), r);
    }
    assert_eq!(readiness_wire(RuntimeReadiness::Stopping), "stopping");
    assert_eq!(RuntimeReadiness::Ready.health_state(), HealthState::Healthy);
    assert_eq!(RuntimeReadiness::Starting.health_state(), HealthState::Unavailable);
}

#[test]
fn request_bounds_are_enforced() {
    assert_eq!(validate_limit(0), Err(RequestProblem::LimitOutOfRange));
    assert_eq!(validate_limit(200), Ok(()));
    assert_eq!(validate_limit(201), Err(RequestProblem::LimitOutOfRange));
    assert_eq!(validate_optional_filter(&None, 8), Ok(()));
    assert_eq!(validate_optional_filter(&Some(String::new()), 8), Err(RequestProblem::FilterInvalid));
    assert_eq!(validate_optional_filter(&Some("x".repeat(9)), 8), Err(RequestProblem::FilterInvalid));
    assert_eq!(validate_resource_ref(""), Err(RequestProblem::ResourceRefInvalid));
    assert_eq!(validate_resource_ref(&"r".repeat(1024)), Ok(()));
    assert_eq!(validate_topology(7, 10), Err(RequestProblem::TopologyDepthOutOfRange));
    assert_eq!(validate_topology(6, 0), Err(RequestProblem::LimitOutOfRange));
    assert_eq!(validate_capability_id(&"c".repeat(97)), Err(RequestProblem::CapabilityIdInvalid));
    assert_eq!(
        validate_capability_cursor(&Some("c".repeat(97))),
        Err(RequestProblem::CapabilityCursorInvalid)
    );
    assert_eq!(request_problem_code(RequestProblem::RootOnly), SemanticErrorCode::PermissionDenied);
    assert_eq!(request_problem_code(RequestProblem::FilterInvalid), SemanticErrorCode::InvalidRequest);
}

#[test]
fn index_domains_and_rebuild_authority() {
    assert_eq!(parse_index_domain("services"), Ok(IndexRescanDomain::Services));
    assert_eq!(parse_index_domain("Services"), Err(RequestProblem::UnknownIndexDomain));
    assert_eq!(rescan_domain("all"), Err(RequestProblem::NamedDomainRequired));
    assert_eq!(rescan_domain("runtime"), Ok(IndexRescanDomain::Runtime));
    assert_eq!(authorize_index_rebuild(Principal::new(1000, 1000)), Err(RequestProblem::RootOnly));
    assert_eq!(authorize_index_rebuild(Principal::new(0, 0)), Ok(()));
}

#[test]
fn refresh_targets_the_observing_domain() {
    assert_eq!(refresh_plan(None), Err(RefreshProblem::NotVisible));
    assert_eq!(
        refresh_plan(Some((IndexResourceType::Window, Freshness::Historical))),
        Err(RefreshProblem::Historical)
    );
    assert_eq!(
        refresh_plan(Some((IndexResourceType::OpenRcService, Freshness::Recent))),
        Ok(IndexRescanDomain::Services)
    );
    assert_eq!(
        refresh_plan(Some((IndexResourceType::RegisteredCapability, Freshness::Stale))),
        Ok(IndexRescanDomain::Providers)
    );
    assert_eq!(refresh_outcome(None), Err(RefreshProblem::GoneAfterRefresh));
    assert_eq!(refresh_outcome(Some(Freshness::Historical)), Err(RefreshProblem::ChangedDuringRefresh));
    assert_eq!(refresh_outcome(Some(Freshness::Live)), Ok(()));
    assert_eq!(refresh_error_code(RefreshProblem::NotVisible), SemanticErrorCode::NotFound);
    assert_eq!(refresh_error_code(RefreshProblem::Historical), SemanticErrorCode::StaleResource);
    assert_eq!(refresh_error_code(RefreshProblem::GoneAfterRefresh), SemanticErrorCode::StaleResource);
}

#[test]
fn caller_source_degradation_is_reported_on_a_healthy_index() {
    assert!(caller_sees_degraded_index(true, &vec![HealthState::Healthy, HealthState::Unknown]));
    assert!(!caller_sees_degraded_index(true, &vec![HealthState::Healthy]));
    assert!(!caller_sees_degraded_index(false, &vec![HealthState::Degraded]));
}

#[test]
fn dispatch_auditing_follows_the_error_code() {
    assert_eq!(audited_domain(Some(RuntimeMethod::TaskCancel)), Some(AuditDomain::Task));
    assert_eq!(audited_domain(Some(RuntimeMethod::IndexRebuild)), Some(AuditDomain::Index));
    assert_eq!(audited_domain(Some(RuntimeMethod::TaskList)), None);
    assert_eq!(dispatch_outcome(None), AuditOutcome::Succeeded);
    assert_eq!(dispatch_outcome(Some(SemanticErrorCode::PermissionDenied)), AuditOutcome::Denied);
    assert_eq!(dispatch_outcome(Some(SemanticErrorCode::Conflict)), AuditOutcome::Failed);
    assert_eq!(policy_check_outcome(PolicyEffect::Prompt), AuditOutcome::ApprovalRequired);
    assert_eq!(audit_target(Some(RuntimeMethod::ArtifactShow)), Some(AuditTargetKind::ArtifactId));
    assert_eq!(audit_target(Some(RuntimeMethod::IndexRebuild)), Some(AuditTargetKind::DerivedIndex));
}

#[test]
fn task_failures_map_to_semantic_codes() {
    assert_eq!(task_error(TaskFailure::Refused(TaskError::NotFound)), SemanticErrorCode::NotFound);
    assert_eq!(
        task_error(TaskFailure::Refused(TaskError::PreconditionFailed {
            expected: TaskState::Running,
            found: TaskState::Waiting
        })),
        SemanticErrorCode::PreconditionFailed
    );
    assert_eq!(
        task_error(TaskFailure::Refused(TaskError::InvalidTransition {
            from: TaskState::Failed,
            to: TaskState::Running
        })),
        SemanticErrorCode::Conflict
    );
    assert_eq!(task_error(TaskFailure::Refused(TaskError::BackendDetached)), SemanticErrorCode::Unsupported);
    assert_eq!(task_error(TaskFailure::Unreachable), SemanticErrorCode::Unavailable);
}

#[test]
fn subsystem_status_transitions() {
    assert_eq!(policy_status_after_load(false, false), (HealthState::Degraded, SubsystemReason::LoadFailed));
    assert_eq!(policy_status_after_load(true, true), (HealthState::Healthy, SubsystemReason::Ready));
    assert_eq!(policy_status_after_load(true, false), (HealthState::Unavailable, SubsystemReason::LockPoisoned));
    assert_eq!(registry_status_after_reconcile(Some(3), 9), (HealthState::Healthy, SubsystemReason::Ready, 3));
    assert_eq!(
        registry_status_after_reconcile(None, 9),
        (HealthState::Degraded, SubsystemReason::ReconciliationFailed, 9)
    );
    assert!(recovery_supported("index:system"));
    assert!(!recovery_supported("runtime:portusd"));
}

#[test]
fn artifact_rules_at_the_runtime_boundary() {
    assert_eq!(artifact_availability_from_provider(Some("available")), ArtifactAvailabilityState::Available);
    assert_eq!(artifact_availability_from_provider(Some("removed")), ArtifactAvailabilityState::Missing);
    assert_eq!(artifact_availability_from_provider(Some("odd")), ArtifactAvailabilityState::Unavailable);
    assert_eq!(artifact_availability_from_provider(None), ArtifactAvailabilityState::Missing);
    let owner = Principal::new(1000, 1000);
    assert_eq!(
        cleanup_precheck(None, owner, ArtifactCleanupEligibility::Eligible, true),
        Err(CleanupRefusal::NotVisible)
    );
    assert_eq!(
        cleanup_precheck(Some(owner), Principal::new(1001, 1001), ArtifactCleanupEligibility::Eligible, true),
        Err(CleanupRefusal::NotOwner)
    );
    assert_eq!(
        cleanup_precheck(Some(owner), Principal::new(0, 0), ArtifactCleanupEligibility::Held, true),
        Err(CleanupRefusal::Blocked(ArtifactCleanupEligibility::Held))
    );
    assert_eq!(
        cleanup_precheck(Some(owner), owner, ArtifactCleanupEligibility::Eligible, false),
        Err(CleanupRefusal::UnsupportedLocator)
    );
    assert_eq!(cleanup_precheck(Some(owner), owner, ArtifactCleanupEligibility::Eligible, true), Ok(()));
}

#[test]
fn configuration_and_connection_limits() {
    assert_eq!(validate_config(0, 1, true), Err(ConfigProblem::ZeroFrameLimit));
    assert_eq!(validate_config(1, 0, true), Err(ConfigProblem::ZeroConnectionLimit));
    assert_eq!(validate_config(1, 1, false), Err(ConfigProblem::RuntimeDirectoryMissing));
    assert_eq!(validate_config(1, 1, true), Ok(()));
    let mut count = ConnectionCount::new();
    let first = ConnectionPermit::acquire(&mut count, 2).unwrap();
    let second = ConnectionPermit::acquire(&mut count, 2).unwrap();
    assert!(ConnectionPermit::acquire(&mut count, 2).is_none());
    assert_eq!(count.active(), 2);
    first.release(&mut count);
    assert_eq!(count.active(), 1);
    let third = ConnectionPermit::acquire(&mut count, 2).unwrap();
    third.release(&mut count);
    second.release(&mut count);
    assert_eq!(count.active(), 0);
}
