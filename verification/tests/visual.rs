use portus_runtime::artifact::{
    ArtifactCleanupAuthority, ArtifactConfidentiality, ArtifactIntegrityKind, ArtifactRetentionKind,
    ArtifactType,
};
use portus_runtime::ids::Principal;
use portus_runtime::index::Freshness;
use portus_runtime::visual::{
    expectation_from_index, screenshot_registration, visual_action_registry, ActionProblem,
    CaptureRetention, ControlPathKind, ScreenshotCapture,
    FallbackJustification, GraphicalTargetExpectation, GraphicalTargetKind, IndexObservation,
    IndexResourceType, IndexSourceKind, KeyboardAction, PointerAction, PointerButton,
    PolicyEffect, PolicyEnforcementClass, ScreenSensitivity, TargetGeometry,
    ValidatedGraphicalTarget, VisualBackendFailure, VisualError, VisualOperationKind,
};
use portus_runtime::visual_flow::{visual_audit_record, VisualAction, VisualController, VisualEvent};
use portus_runtime::runtime::{AuditDomain, AuditOutcome};

fn window_observation(principal: Principal) -> IndexObservation {
    IndexObservation {
        resource_type: IndexResourceType::Window,
        source_kind: IndexSourceKind::X11,
        source_generation: "boot:i3:42:100".to_string(),
        authoritative_ref: Some("window:boot:i3:42:100:99".to_string()),
        owner: Some(principal),
        freshness: Freshness::Recent,
        control_paths: vec![ControlPathKind::ProcessWindow, ControlPathKind::VisualFallback],
    }
}

#[test]
fn index_window_becomes_generation_scoped_visual_target() {
    let principal = Principal::new(1000, 1000);
    let observation = window_observation(principal);
    let target = expectation_from_index(&observation, principal).unwrap();
    assert_eq!(target.kind, GraphicalTargetKind::Window);
    assert_eq!(target.target_ref, "window:boot:i3:42:100:99");
    assert_eq!(target.source_generation, "boot:i3:42:100");
    assert!(target.observed_control_paths.contains(&ControlPathKind::VisualFallback));
}

#[test]
fn stale_or_cross_principal_index_observation_cannot_become_target() {
    let principal = Principal::new(1000, 1000);
    let mut observation = window_observation(principal);
    observation.freshness = Freshness::Stale;
    assert!(matches!(
        expectation_from_index(&observation, principal),
        Err(VisualError::StaleTarget)
    ));

    let observation = window_observation(principal);
    assert!(matches!(
        expectation_from_index(&observation, Principal::new(1001, 1001)),
        Err(VisualError::InvalidTarget(_))
    ));
}

#[test]
fn non_graphical_index_resource_is_not_promoted_to_visual_target() {
    let principal = Principal::new(1000, 1000);
    let mut observation = window_observation(principal);
    observation.resource_type = IndexResourceType::Process;
    observation.source_kind = IndexSourceKind::Proc;
    assert!(matches!(
        expectation_from_index(&observation, principal),
        Err(VisualError::InvalidTarget(_))
    ));
}

/// A scripted backend, policy and audit sink that answers the controller's
/// actions and counts what reached the backend.
struct Harness {
    effect: PolicyEffect,
    targets: Vec<ValidatedGraphicalTarget>,
    revalidate_failure: Option<VisualBackendFailure>,
    audit_fails: bool,
    focus_calls: usize,
    perform_calls: usize,
    audit_records: Vec<&'static str>,
}

impl Harness {
    fn new(effect: PolicyEffect, targets: Vec<ValidatedGraphicalTarget>) -> Self {
        Harness {
            effect,
            targets,
            revalidate_failure: None,
            audit_fails: false,
            focus_calls: 0,
            perform_calls: 0,
            audit_records: Vec::new(),
        }
    }

    fn run(
        &mut self,
        expected: &GraphicalTargetExpectation,
        start: (VisualController, VisualAction),
    ) -> Result<(), VisualError> {
        let (mut flow, mut action) = start;
        loop {
            let event = match action {
                VisualAction::Finish(result) => return result,
                VisualAction::EvaluatePolicy => VisualEvent::Policy(Ok(self.effect)),
                VisualAction::RecordPolicyStop { approval_required } => {
                    self.audit_records.push(if approval_required { "approval_required" } else { "denied" });
                    VisualEvent::Recorded(!self.audit_fails)
                }
                VisualAction::RecordFailure => {
                    self.audit_records.push("failed");
                    VisualEvent::Recorded(!self.audit_fails)
                }
                VisualAction::RecordSuccess => {
                    self.audit_records.push("succeeded");
                    VisualEvent::Recorded(!self.audit_fails)
                }
                VisualAction::Revalidate => {
                    if let Some(reason) = self.revalidate_failure {
                        VisualEvent::Revalidated(Err(reason))
                    } else if self.targets.is_empty() {
                        VisualEvent::Revalidated(Err(VisualBackendFailure::TargetUnavailable))
                    } else {
                        VisualEvent::Revalidated(Ok(self.targets.remove(0)))
                    }
                }
                VisualAction::Focus => {
                    self.focus_calls += 1;
                    VisualEvent::Focused(Ok(()))
                }
                VisualAction::Perform => {
                    self.perform_calls += 1;
                    VisualEvent::Performed(Ok(()))
                }
                VisualAction::CheckCapture => VisualEvent::CaptureChecked(Ok(())),
            };
            action = flow.step(expected, event);
        }
    }
}

fn normal_window(focused: bool) -> ValidatedGraphicalTarget {
    ValidatedGraphicalTarget {
        kind: GraphicalTargetKind::Window,
        target_ref: "window:g1:42".to_string(),
        source_generation: "g1".to_string(),
        geometry: Some(TargetGeometry { x: 100, y: 100, width: 800, height: 600 }),
        focused,
        sensitivity: ScreenSensitivity::Normal,
    }
}

fn target() -> GraphicalTargetExpectation {
    GraphicalTargetExpectation {
        kind: GraphicalTargetKind::Window,
        target_ref: "window:g1:42".to_string(),
        source_generation: "g1".to_string(),
        observed_control_paths: vec![ControlPathKind::VisualFallback],
    }
}

fn click(x: u32, y: u32) -> PointerAction {
    PointerAction::ClickAt { x, y, button: PointerButton::Left }
}

#[test]
fn policy_registry_is_action_scoped_and_non_root_equivalent() {
    let registry = visual_action_registry(1);
    assert_eq!(registry.actions.len(), 3);
    for action in registry.actions {
        assert!(!action.resource_required);
        assert!(action.resource_kind.is_none());
        assert!(!action.root_equivalent);
        assert_eq!(action.class, PolicyEnforcementClass::UserNative);
    }
}

#[test]
fn registry_lists_the_actions_in_order_under_the_policy_version() {
    let registry = visual_action_registry(7);
    assert_eq!(registry.policy_version, 7);
    assert_eq!(registry.actions[0].id, VisualOperationKind::Capture.action_id());
    assert_eq!(registry.actions[0].label, "Capture graphical screenshot");
    assert_eq!(registry.actions[2].id, "visual.keyboard");
    assert_eq!(registry.actions[2].label, "Use graphical keyboard fallback");
}

#[test]
fn a_kept_screenshot_becomes_a_private_temporary_task_artifact() {
    let me = Principal::new(1000, 1000);
    let capture = ScreenshotCapture { path: "/tmp/shot.png".to_string(), media_type: "image/png".to_string() };
    let task = "task_1".to_string();
    let digest = "a".repeat(64);
    assert!(screenshot_registration(me, &capture, CaptureRetention::Ephemeral, &task, &digest, 32).is_none());
    let r = screenshot_registration(me, &capture, CaptureRetention::TemporaryArtifact, &task, &digest, 32)
        .unwrap();
    assert_eq!(r.owner, me);
    assert_eq!(r.path, "/tmp/shot.png");
    assert_eq!(r.artifact_type, ArtifactType::Screenshot);
    assert_eq!(r.confidentiality, ArtifactConfidentiality::Private);
    assert_eq!(r.retention, ArtifactRetentionKind::Temporary);
    assert_eq!(r.media_type.as_deref(), Some("image/png"));
    assert_eq!(r.source_task_id, "task_1");
    assert_eq!(r.cleanup_authority, ArtifactCleanupAuthority::Task);
    assert_eq!(r.cleanup_ref.as_deref(), Some("task_1"));
    assert_eq!(r.safe_display_name.as_deref(), Some("visual fallback screenshot"));
    assert_eq!(r.integrity_kind, ArtifactIntegrityKind::Verified);
    assert_eq!(r.sha256, digest);
    assert_eq!(r.size_bytes, 32);
}

#[test]
fn reject_and_prompt_have_no_visual_side_effect() {
    for (effect, expected_prompt) in [(PolicyEffect::Reject, false), (PolicyEffect::Prompt, true)] {
        let mut harness = Harness::new(effect, vec![]);
        let expected = target();
        let start = VisualController::pointer(
            &expected,
            &vec![],
            FallbackJustification::NoStructuredRoute,
            click(10, 10),
        );
        let result = harness.run(&expected, start);
        assert!(
            matches!(result, Err(VisualError::ApprovalRequired) if expected_prompt)
                || matches!(result, Err(VisualError::PermissionDenied) if !expected_prompt)
        );
        assert_eq!(harness.perform_calls, 0);
        assert_eq!(harness.focus_calls, 0);
    }
}

#[test]
fn unfailed_structured_route_prevents_fallback_but_failed_route_allows_it() {
    let expected = target();
    let mut harness = Harness::new(PolicyEffect::Allow, vec![]);
    let start = VisualController::pointer(
        &expected,
        &vec![ControlPathKind::RegisteredProvider],
        FallbackJustification::NoStructuredRoute,
        click(10, 10),
    );
    assert!(matches!(harness.run(&expected, start), Err(VisualError::StructuredControlPreferred)));
    assert_eq!(harness.perform_calls, 0);

    let mut harness = Harness::new(PolicyEffect::Allow, vec![normal_window(true)]);
    let start = VisualController::pointer(
        &expected,
        &vec![ControlPathKind::RegisteredProvider],
        FallbackJustification::StructuredRouteFailed,
        click(10, 10),
    );
    harness.run(&expected, start).unwrap();
    assert_eq!(harness.perform_calls, 1);
}

#[test]
fn unavailable_graphical_source_is_explicit_and_has_no_side_effect() {
    let expected = target();
    let mut harness = Harness::new(PolicyEffect::Allow, vec![]);
    harness.revalidate_failure = Some(VisualBackendFailure::SourceUnavailable);
    let start = VisualController::pointer(
        &expected,
        &vec![],
        FallbackJustification::NoStructuredRoute,
        click(10, 10),
    );
    assert!(matches!(
        harness.run(&expected, start),
        Err(VisualError::Backend(VisualBackendFailure::SourceUnavailable))
    ));
    assert_eq!(harness.perform_calls, 0);
    assert_eq!(harness.focus_calls, 0);
    assert_eq!(harness.audit_records, vec!["failed"]);
}

#[test]
fn changed_generation_fails_before_input() {
    let mut changed = normal_window(true);
    changed.source_generation = "g2".to_string();
    changed.target_ref = "window:g2:42".to_string();
    let expected = target();
    let mut harness = Harness::new(PolicyEffect::Allow, vec![changed]);
    let action = KeyboardAction::Text("hello".to_string());
    let start = VisualController::keyboard(
        &expected,
        &vec![],
        FallbackJustification::NoStructuredRoute,
        &action,
    );
    assert!(matches!(harness.run(&expected, start), Err(VisualError::StaleTarget)));
    assert_eq!(harness.perform_calls, 0);
}

#[test]
fn unfocused_target_is_focused_then_revalidated_before_keyboard() {
    let expected = target();
    let mut harness = Harness::new(PolicyEffect::Allow, vec![normal_window(false), normal_window(true)]);
    let action = KeyboardAction::KeyChord(vec!["ctrl".to_string(), "l".to_string()]);
    let start = VisualController::keyboard(
        &expected,
        &vec![],
        FallbackJustification::NoStructuredRoute,
        &action,
    );
    harness.run(&expected, start).unwrap();
    assert_eq!(harness.focus_calls, 1);
    assert_eq!(harness.perform_calls, 1);
}

#[test]
fn sensitive_or_unknown_screen_blocks_automated_visual_action() {
    for sensitivity in [ScreenSensitivity::Sensitive, ScreenSensitivity::Unknown] {
        let mut current = normal_window(true);
        current.sensitivity = sensitivity;
        let expected = target();
        let mut harness = Harness::new(PolicyEffect::Allow, vec![current]);
        let start = VisualController::pointer(
            &expected,
            &vec![],
            FallbackJustification::NoStructuredRoute,
            click(10, 10),
        );
        assert!(matches!(harness.run(&expected, start), Err(VisualError::SensitiveTarget)));
        assert_eq!(harness.perform_calls, 0);
    }
}

#[test]
fn pointer_coordinates_are_target_relative_and_bounded() {
    let expected = target();
    let mut harness = Harness::new(PolicyEffect::Allow, vec![normal_window(true)]);
    let start = VisualController::pointer(
        &expected,
        &vec![],
        FallbackJustification::NoStructuredRoute,
        click(900, 10),
    );
    assert!(matches!(harness.run(&expected, start), Err(VisualError::InvalidAction(_))));
    assert_eq!(harness.perform_calls, 0);
}

#[test]
fn successful_actions_are_audited_without_input_payload() {
    let expected = target();
    let mut harness = Harness::new(PolicyEffect::Allow, vec![normal_window(true)]);
    let action = KeyboardAction::Text("highly private text".to_string());
    let start = VisualController::keyboard(
        &expected,
        &vec![],
        FallbackJustification::NoStructuredRoute,
        &action,
    );
    harness.run(&expected, start).unwrap();
    assert_eq!(harness.audit_records, vec!["succeeded"]);
}

#[test]
fn audit_failure_after_input_is_explicitly_non_retry_safe() {
    let expected = target();
    let mut harness = Harness::new(PolicyEffect::Allow, vec![normal_window(true)]);
    harness.audit_fails = true;
    let start = VisualController::pointer(
        &expected,
        &vec![],
        FallbackJustification::NoStructuredRoute,
        click(10, 10),
    );
    assert!(matches!(harness.run(&expected, start), Err(VisualError::AuditAfterSideEffect)));
    assert_eq!(harness.perform_calls, 1);
}

#[test]
fn capture_needs_no_focus_and_a_failed_file_check_is_reported() {
    let expected = target();
    let mut harness = Harness::new(PolicyEffect::Allow, vec![normal_window(false)]);
    let start = VisualController::capture(&expected, &vec![], FallbackJustification::NoStructuredRoute);
    harness.run(&expected, start).unwrap();
    assert_eq!(harness.focus_calls, 0);
    assert_eq!(harness.perform_calls, 1);

    let (mut flow, mut action) =
        VisualController::capture(&expected, &vec![], FallbackJustification::NoStructuredRoute);
    let mut targets = vec![normal_window(false)];
    loop {
        let event = match action {
            VisualAction::EvaluatePolicy => VisualEvent::Policy(Ok(PolicyEffect::Allow)),
            VisualAction::Revalidate => VisualEvent::Revalidated(Ok(targets.remove(0))),
            VisualAction::Perform => VisualEvent::Performed(Ok(())),
            VisualAction::CheckCapture => {
                VisualEvent::CaptureChecked(Err(VisualError::InvalidAction(ActionProblem::MediaType)))
            }
            VisualAction::Finish(result) => {
                assert_eq!(result, Err(VisualError::InvalidAction(ActionProblem::MediaType)));
                break;
            }
            other => panic!("unexpected action {:?}", other),
        };
        action = flow.step(&expected, event);
    }
}

#[test]
fn a_window_target_is_required_for_input() {
    let mut expected = target();
    expected.kind = GraphicalTargetKind::Display;
    let (_, action) = VisualController::pointer(
        &expected,
        &vec![],
        FallbackJustification::NoStructuredRoute,
        click(1, 1),
    );
    assert!(matches!(action, VisualAction::Finish(Err(VisualError::InvalidTarget(_)))));
}

#[test]
fn visual_audit_records_name_the_outcome_and_reason() {
    let principal = Principal { uid: 1000, gid: 1000 };
    let target = String::from("window:boot:i3:42:100:99");
    let task = String::from("task_1");
    let record = |action| visual_audit_record(action, principal, VisualOperationKind::Pointer, &target, &task, 77);
    let prompt = record(VisualAction::RecordPolicyStop { approval_required: true }).unwrap();
    assert_eq!(prompt.outcome, AuditOutcome::ApprovalRequired);
    assert_eq!(prompt.reason_code, "policy_prompt");
    assert_eq!(prompt.action_id, "visual.pointer");
    assert_eq!(prompt.domain, AuditDomain::Visual);
    assert_eq!(prompt.principal, principal);
    assert_eq!(prompt.target_ref, target);
    assert_eq!(prompt.task_id, task);
    assert_eq!(prompt.occurred_at_ms, 77);
    let reject = record(VisualAction::RecordPolicyStop { approval_required: false }).unwrap();
    assert_eq!((reject.outcome, reject.reason_code), (AuditOutcome::Denied, "policy_reject"));
    let failed = record(VisualAction::RecordFailure).unwrap();
    assert_eq!((failed.outcome, failed.reason_code), (AuditOutcome::Failed, "operation_failed"));
    let done = record(VisualAction::RecordSuccess).unwrap();
    assert_eq!((done.outcome, done.reason_code), (AuditOutcome::Succeeded, "completed"));
    assert!(record(VisualAction::Focus).is_none());
}
