use portus_runtime::engine::{
    cancel_precheck, cancel_steps, completion_step, launch_steps, restart_steps, step_record, StepContext, association_relationship, association_steps,
    validate_association, validate_managed_spec, RelationshipMode, RelationshipStatus,
    RelationshipSummary, Step, StopObservation, TaskResultKind,
};
use portus_runtime::task::{can_transition, SpecProblem, TaskError, TaskState};

fn managed(status: RelationshipStatus, cancellable: bool) -> RelationshipSummary {
    RelationshipSummary { mode: RelationshipMode::Managed, status, cancellation_supported: cancellable }
}

#[test]
fn cancel_precondition_fails_without_claiming_the_task() {
    let rels = vec![managed(RelationshipStatus::Running, true)];
    assert_eq!(
        cancel_precheck(TaskState::Running, Some(TaskState::Waiting), &rels),
        Err(TaskError::PreconditionFailed { expected: TaskState::Waiting, found: TaskState::Running })
    );
    assert_eq!(cancel_precheck(TaskState::Succeeded, None, &rels), Err(TaskError::TerminalTask));
    let associated = vec![RelationshipSummary {
        mode: RelationshipMode::Associated,
        status: RelationshipStatus::Running,
        cancellation_supported: true,
    }];
    assert_eq!(
        cancel_precheck(TaskState::Running, None, &associated),
        Err(TaskError::NoCancellableBackend)
    );
    assert_eq!(cancel_precheck(TaskState::Running, Some(TaskState::Running), &rels), Ok(()));
}

fn chain_is_legal(steps: &[Step]) -> bool {
    steps.iter().all(|s| can_transition(s.from, s.to))
        && steps.windows(2).all(|w| w[0].to == w[1].from)
}

#[test]
fn managed_process_can_be_cancelled_only_after_confirmed_stop() {
    let confirmed = cancel_steps(TaskState::Running, StopObservation::Confirmed);
    assert_eq!(confirmed.len(), 2);
    assert_eq!(confirmed[1].to, TaskState::Cancelled);
    assert_eq!(confirmed[1].result, Some(TaskResultKind::Cancelled));
    let exited = cancel_steps(TaskState::Running, StopObservation::ExitedFirst { success: true });
    assert_eq!(exited.last().unwrap().to, TaskState::Succeeded);
    let unknown = cancel_steps(TaskState::Waiting, StopObservation::Unknown);
    assert_eq!(unknown.last().unwrap().to, TaskState::Interrupted);
    for steps in [confirmed, exited, unknown] {
        assert!(chain_is_legal(&steps));
        assert!(steps.last().unwrap().to.is_terminal());
    }
}

#[test]
fn completion_and_restart_steps() {
    assert_eq!(
        completion_step(TaskState::Running, Some(0)),
        Some(Step { from: TaskState::Running, to: TaskState::Succeeded, result: Some(TaskResultKind::Success) })
    );
    assert_eq!(completion_step(TaskState::Running, None).unwrap().to, TaskState::Failed);
    assert_eq!(completion_step(TaskState::Cancelling, Some(0)).unwrap().to, TaskState::Cancelled);
    assert_eq!(completion_step(TaskState::Failed, Some(0)), None);
    let restart = restart_steps(TaskState::Running);
    assert_eq!(restart.len(), 2);
    assert_eq!(restart[0].to, TaskState::Reconciling);
    assert_eq!(restart[1].to, TaskState::Interrupted);
    assert!(restart_steps(TaskState::Queued).is_empty());
    assert_eq!(restart_steps(TaskState::Reconciling).len(), 1);
}

#[test]
fn unsafe_launch_failure_is_not_automatically_retried() {
    let failed = launch_steps(false);
    assert_eq!(failed.len(), 2);
    assert_eq!(failed[1].to, TaskState::Failed);
    let ok = launch_steps(true);
    assert_eq!(ok[1].to, TaskState::Running);
    assert!(chain_is_legal(&failed) && chain_is_legal(&ok));
}

#[test]
fn execution_specs_are_validated() {
    assert_eq!(
        validate_managed_spec("", "proc", &vec![]),
        Err(TaskError::InvalidSpec(SpecProblem::EmptyProgram))
    );
    assert_eq!(validate_managed_spec("/bin/sleep", "proc", &vec!["1"]), Ok(()));
    assert_eq!(
        validate_association(" ", "gen"),
        Err(TaskError::InvalidSpec(SpecProblem::EmptyAssociation))
    );
    assert_eq!(validate_association("pid:1", "boot:1"), Ok(()));
}

#[test]
fn each_step_records_the_reason_of_its_flow() {
    let r = step_record(StepContext::Launch, TaskState::Starting);
    assert_eq!(r.reason, "launching_managed_backend");
    assert_eq!(r.event_kind, "task.starting");
    assert_eq!(r.result_summary, None);
    let r = step_record(StepContext::LaunchNotRecorded, TaskState::Failed);
    assert_eq!(r.reason, "managed_relationship_persist_failed");
    let r = step_record(StepContext::Completion, TaskState::Succeeded);
    assert_eq!(r.event_kind, "task.succeeded");
    assert_eq!(r.result_summary, Some("managed backend completed successfully"));
    let r = step_record(StepContext::Cancellation(StopObservation::Unknown), TaskState::Reconciling);
    assert_eq!(r.reason, "cancellation_state_unknown");
    let r = step_record(StepContext::Cancellation(StopObservation::ExitedFirst { success: false }), TaskState::Reconciling);
    assert_eq!(r.reason, "cancellation_not_applied_backend_already_exited");
    let r = step_record(StepContext::Cancellation(StopObservation::ExitedFirst { success: false }), TaskState::Failed);
    assert_eq!(r.event_summary, "backend completion won the cancellation race");
    let r = step_record(StepContext::Restart, TaskState::Interrupted);
    assert_eq!(r.reason, "backend_state_unverifiable");
    assert_eq!(r.event_kind, "task.interrupted");
}

#[test]
fn an_association_runs_without_claiming_management() {
    let steps = association_steps();
    assert_eq!(steps.len(), 2);
    assert_eq!((steps[0].from, steps[0].to), (TaskState::Created, TaskState::Starting));
    assert_eq!((steps[1].from, steps[1].to), (TaskState::Starting, TaskState::Running));
    let rel = association_relationship();
    assert_eq!(rel.mode, RelationshipMode::Associated);
    assert!(!rel.cancellation_supported);
    assert_eq!(cancel_precheck(TaskState::Running, None, &vec![rel]), Err(TaskError::NoCancellableBackend));
    let r = step_record(StepContext::Association, TaskState::Running);
    assert_eq!(r.reason, "associated_backend_observed");
    assert_eq!(r.event_summary, "associated backend is recorded as running");
}
