//! The visual controller as a state machine. The caller performs each action
//! (consult policy, record audit, revalidate, focus, capture or inject input)
//! and hands back what happened; the machine decides what comes next. Input is
//! injected only into the expected target, revalidated in the same source
//! generation, on a normal screen, focused, and with in-bounds coordinates.
use vstd::prelude::*;
use crate::ids::Principal;
use crate::runtime::{AuditDomain, AuditOutcome};
use crate::visual::{
    action_name,
    common_problem, keyboard_problem, pointer_problem, same_target, check_same_target,
    validate_common, validate_keyboard, validate_pointer, ActionProblem, ControlPathKind,
    FallbackJustification, GraphicalTargetExpectation, GraphicalTargetKind, KeyboardAction,
    PointerAction, PolicyEffect, ScreenSensitivity, TargetProblem, ValidatedGraphicalTarget,
    VisualBackendFailure, VisualError, VisualOperationKind,
};

verus! {

#[derive(Clone, Copy, Debug, PartialEq, Eq, Structural)]
pub enum VisualPhase {
    AwaitPolicy,
    AwaitRevalidation { refocused: bool },
    AwaitFocus,
    AwaitPerform,
    AwaitCaptureCheck,
    AwaitStopRecord { error: VisualError },
    AwaitFailureRecord { error: VisualError, after_side_effect: bool },
    AwaitSuccessRecord,
    Done,
}

/// What the caller must do next.
#[derive(Clone, Copy, Debug)]
pub enum VisualAction {
    /// Evaluate the operation's policy action for the principal.
    EvaluatePolicy,
    /// Audit that policy stopped the operation.
    RecordPolicyStop { approval_required: bool },
    /// Ask the backend to revalidate the expected target.
    Revalidate,
    /// Ask the backend to focus the current target.
    Focus,
    /// Capture, point or type into the current target.
    Perform,
    /// Check the captured file and prepare its artifact registration.
    CheckCapture,
    /// Audit that the operation failed.
    RecordFailure,
    /// Audit that the operation succeeded.
    RecordSuccess,
    /// The operation is over with this outcome.
    Finish(Result<(), VisualError>),
}

/// What happened when the caller performed the last action.
pub enum VisualEvent {
    Policy(Result<PolicyEffect, ()>),
    Revalidated(Result<ValidatedGraphicalTarget, VisualBackendFailure>),
    Focused(Result<(), VisualBackendFailure>),
    Performed(Result<(), VisualBackendFailure>),
    CaptureChecked(Result<(), VisualError>),
    /// Whether the audit record was written.
    Recorded(bool),
}

pub struct VisualController {
    pub op: VisualOperationKind,
    pub pointer: Option<PointerAction>,
    pub phase: VisualPhase,
    pub policy_allowed: bool,
    pub current: Option<ValidatedGraphicalTarget>,
}

/// The event the caller owes in each phase.
pub open spec fn event_fits(phase: VisualPhase, e: VisualEvent) -> bool {
    match phase {
        VisualPhase::AwaitPolicy => e is Policy,
        VisualPhase::AwaitRevalidation { .. } => e is Revalidated,
        VisualPhase::AwaitFocus => e is Focused,
        VisualPhase::AwaitPerform => e is Performed,
        VisualPhase::AwaitCaptureCheck => e is CaptureChecked,
        VisualPhase::AwaitStopRecord { .. } => e is Recorded,
        VisualPhase::AwaitFailureRecord { .. } => e is Recorded,
        VisualPhase::AwaitSuccessRecord => e is Recorded,
        VisualPhase::Done => false,
    }
}

/// The conditions under which input may reach the target.
pub open spec fn ready_to_perform(f: VisualController, expected: GraphicalTargetExpectation) -> bool {
    &&& f.policy_allowed
    &&& f.current is Some
    &&& same_target(expected, f.current->0)
    &&& f.current->0.sensitivity is Normal
    &&& (!(f.op is Capture) ==> f.current->0.focused)
    &&& (f.op is Pointer ==> f.pointer is Some && pointer_problem(
        f.pointer->0,
        f.current->0.geometry,
    ) is None)
}

/// The flow's invariant.
pub open spec fn flow_wf(f: VisualController, expected: GraphicalTargetExpectation) -> bool {
    &&& (f.op is Pointer ==> f.pointer is Some)
    &&& (f.phase is AwaitPerform ==> ready_to_perform(f, expected))
    &&& ((f.phase is AwaitRevalidation || f.phase is AwaitFocus || f.phase is AwaitCaptureCheck
        || f.phase is AwaitSuccessRecord) ==> f.policy_allowed)
    &&& (f.phase is AwaitFocus ==> f.current is Some && !(f.op is Capture))
    &&& (f.phase is AwaitCaptureCheck ==> f.op is Capture)
}

pub open spec fn finish(f: VisualController, r: Result<(), VisualError>) -> (VisualController, VisualAction) {
    (VisualController { phase: VisualPhase::Done, ..f }, VisualAction::Finish(r))
}

pub open spec fn record_failure(f: VisualController, e: VisualError, side: bool) -> (VisualController, VisualAction) {
    (
        VisualController {
            phase: VisualPhase::AwaitFailureRecord { error: e, after_side_effect: side },
            ..f
        },
        VisualAction::RecordFailure,
    )
}

/// What a revalidated target leads to.
pub open spec fn after_revalidation(
    f: VisualController,
    expected: GraphicalTargetExpectation,
    refocused: bool,
    t: ValidatedGraphicalTarget,
) -> (VisualController, VisualAction) {
    let g = VisualController { current: Some(t), ..f };
    if !same_target(expected, t) {
        record_failure(g, VisualError::StaleTarget, false)
    } else if !(t.sensitivity is Normal) {
        finish(g, Err(VisualError::SensitiveTarget))
    } else if refocused && !t.focused {
        finish(g, Err(VisualError::TargetNotFocused))
    } else if f.op is Pointer && pointer_problem(f.pointer->0, t.geometry) is Some {
        finish(g, Err(pointer_problem(f.pointer->0, t.geometry)->0))
    } else if !(f.op is Capture) && !t.focused {
        (VisualController { phase: VisualPhase::AwaitFocus, ..g }, VisualAction::Focus)
    } else {
        (VisualController { phase: VisualPhase::AwaitPerform, ..g }, VisualAction::Perform)
    }
}

/// The transition relation of the flow.
pub open spec fn step_spec(f: VisualController, expected: GraphicalTargetExpectation, e: VisualEvent) -> (
    VisualController,
    VisualAction,
) {
    match (f.phase, e) {
        (VisualPhase::AwaitPolicy, VisualEvent::Policy(Err(_))) => finish(
            f,
            Err(VisualError::PolicyFailed),
        ),
        (VisualPhase::AwaitPolicy, VisualEvent::Policy(Ok(PolicyEffect::Allow))) => (
            VisualController {
                phase: VisualPhase::AwaitRevalidation { refocused: false },
                policy_allowed: true,
                ..f
            },
            VisualAction::Revalidate,
        ),
        (VisualPhase::AwaitPolicy, VisualEvent::Policy(Ok(PolicyEffect::Prompt))) => (
            VisualController {
                phase: VisualPhase::AwaitStopRecord { error: VisualError::ApprovalRequired },
                ..f
            },
            VisualAction::RecordPolicyStop { approval_required: true },
        ),
        (VisualPhase::AwaitPolicy, VisualEvent::Policy(Ok(PolicyEffect::Reject))) => (
            VisualController {
                phase: VisualPhase::AwaitStopRecord { error: VisualError::PermissionDenied },
                ..f
            },
            VisualAction::RecordPolicyStop { approval_required: false },
        ),
        (VisualPhase::AwaitStopRecord { error }, VisualEvent::Recorded(ok)) => finish(
            f,
            Err(
                if ok {
                    error
                } else {
                    VisualError::AuditFailed
                },
            ),
        ),
        (
            VisualPhase::AwaitRevalidation { refocused },
            VisualEvent::Revalidated(Err(failure)),
        ) => record_failure(f, VisualError::Backend(failure), false),
        (VisualPhase::AwaitRevalidation { refocused }, VisualEvent::Revalidated(Ok(t))) => {
            after_revalidation(f, expected, refocused, t)
        },
        (VisualPhase::AwaitFocus, VisualEvent::Focused(Err(failure))) => record_failure(
            f,
            VisualError::Backend(failure),
            true,
        ),
        (VisualPhase::AwaitFocus, VisualEvent::Focused(Ok(()))) => (
            VisualController { phase: VisualPhase::AwaitRevalidation { refocused: true }, ..f },
            VisualAction::Revalidate,
        ),
        (VisualPhase::AwaitPerform, VisualEvent::Performed(Err(failure))) => record_failure(
            f,
            VisualError::Backend(failure),
            true,
        ),
        (VisualPhase::AwaitPerform, VisualEvent::Performed(Ok(()))) => if f.op is Capture {
            (VisualController { phase: VisualPhase::AwaitCaptureCheck, ..f }, VisualAction::CheckCapture)
        } else {
            (VisualController { phase: VisualPhase::AwaitSuccessRecord, ..f }, VisualAction::RecordSuccess)
        },
        (VisualPhase::AwaitCaptureCheck, VisualEvent::CaptureChecked(Err(err))) => finish(f, Err(err)),
        (VisualPhase::AwaitCaptureCheck, VisualEvent::CaptureChecked(Ok(()))) => (
            VisualController { phase: VisualPhase::AwaitSuccessRecord, ..f },
            VisualAction::RecordSuccess,
        ),
        (VisualPhase::AwaitFailureRecord { error, after_side_effect }, VisualEvent::Recorded(ok)) => {
            finish(
                f,
                Err(
                    if ok {
                        error
                    } else if after_side_effect {
                        VisualError::AuditAfterSideEffect
                    } else {
                        VisualError::AuditFailed
                    },
                ),
            )
        },
        (VisualPhase::AwaitSuccessRecord, VisualEvent::Recorded(ok)) => finish(
            f,
            if ok {
                Ok(())
            } else {
                Err(VisualError::AuditAfterSideEffect)
            },
        ),
        _ => (f, VisualAction::Finish(Err(VisualError::PolicyFailed))),
    }
}

/// The first check a request fails before policy is consulted.
pub open spec fn start_problem(
    op: VisualOperationKind,
    expected: GraphicalTargetExpectation,
    available: Seq<ControlPathKind>,
    justification: FallbackJustification,
    keyboard: Option<KeyboardAction>,
) -> Option<VisualError> {
    if !(op is Capture) && !(expected.kind is Window) {
        Some(VisualError::InvalidTarget(TargetProblem::NotAWindow))
    } else if op is Keyboard && keyboard is Some && keyboard_problem(keyboard->0) is Some {
        Some(VisualError::InvalidAction(keyboard_problem(keyboard->0)->0))
    } else {
        common_problem(expected, available, justification)
    }
}

impl VisualController {
    /// Starts an operation: checks the request and, if it passes, asks for the
    /// policy decision. `pointer` is the pointer action of a pointer request,
    /// `keyboard` the keyboard action of a keyboard request.
    pub fn start(
        op: VisualOperationKind,
        expected: &GraphicalTargetExpectation,
        available: &Vec<ControlPathKind>,
        justification: FallbackJustification,
        pointer: Option<PointerAction>,
        keyboard: Option<&KeyboardAction>,
    ) -> (r: (VisualController, VisualAction))
        requires
            op is Pointer ==> pointer is Some,
            op is Keyboard ==> keyboard is Some,
        ensures
            flow_wf(r.0, *expected),
            r.0.op == op,
            r.0.pointer == pointer,
            !r.0.policy_allowed,
            r.0.current is None,
            match start_problem(op, *expected, available@, justification, match keyboard {
                Some(k) => Some(*k),
                None => None,
            }) {
                Some(e) => r.0.phase == VisualPhase::Done && r.1 == VisualAction::Finish(Err(e)),
                None => r.0.phase == VisualPhase::AwaitPolicy && r.1 == VisualAction::EvaluatePolicy,
            },
    {
        let f = VisualController { op, pointer, phase: VisualPhase::AwaitPolicy, policy_allowed: false, current: None };
        if op != VisualOperationKind::Capture && expected.kind != GraphicalTargetKind::Window {
            return (
                VisualController { phase: VisualPhase::Done, ..f },
                VisualAction::Finish(Err(VisualError::InvalidTarget(TargetProblem::NotAWindow))),
            );
        }
        if op == VisualOperationKind::Keyboard {
            if let Some(k) = keyboard {
                if let Err(e) = validate_keyboard(k) {
                    return (VisualController { phase: VisualPhase::Done, ..f }, VisualAction::Finish(Err(e)));
                }
            }
        }
        if let Err(e) = validate_common(expected, available, justification) {
            return (VisualController { phase: VisualPhase::Done, ..f }, VisualAction::Finish(Err(e)));
        }
        (f, VisualAction::EvaluatePolicy)
    }

    /// Starts a screenshot capture of the expected target.
    pub fn capture(
        expected: &GraphicalTargetExpectation,
        available: &Vec<ControlPathKind>,
        justification: FallbackJustification,
    ) -> (r: (VisualController, VisualAction))
        ensures
            flow_wf(r.0, *expected),
            r.0.op is Capture,
            r.0.current is None,
            match start_problem(VisualOperationKind::Capture, *expected, available@, justification, None) {
                Some(e) => r.0.phase == VisualPhase::Done && r.1 == VisualAction::Finish(Err(e)),
                None => r.0.phase == VisualPhase::AwaitPolicy && r.1 == VisualAction::EvaluatePolicy,
            },
    {
        VisualController::start(VisualOperationKind::Capture, expected, available, justification, None, None)
    }

    /// Starts a pointer action on the expected window.
    pub fn pointer(
        expected: &GraphicalTargetExpectation,
        available: &Vec<ControlPathKind>,
        justification: FallbackJustification,
        action: PointerAction,
    ) -> (r: (VisualController, VisualAction))
        ensures
            flow_wf(r.0, *expected),
            r.0.op is Pointer,
            r.0.pointer == Some(action),
            r.0.current is None,
            match start_problem(VisualOperationKind::Pointer, *expected, available@, justification, None) {
                Some(e) => r.0.phase == VisualPhase::Done && r.1 == VisualAction::Finish(Err(e)),
                None => r.0.phase == VisualPhase::AwaitPolicy && r.1 == VisualAction::EvaluatePolicy,
            },
    {
        VisualController::start(
            VisualOperationKind::Pointer,
            expected,
            available,
            justification,
            Some(action),
            None,
        )
    }

    /// Starts a keyboard action on the expected window.
    pub fn keyboard(
        expected: &GraphicalTargetExpectation,
        available: &Vec<ControlPathKind>,
        justification: FallbackJustification,
        action: &KeyboardAction,
    ) -> (r: (VisualController, VisualAction))
        ensures
            flow_wf(r.0, *expected),
            r.0.op is Keyboard,
            r.0.current is None,
            match start_problem(VisualOperationKind::Keyboard, *expected, available@, justification, Some(*action)) {
                Some(e) => r.0.phase == VisualPhase::Done && r.1 == VisualAction::Finish(Err(e)),
                None => r.0.phase == VisualPhase::AwaitPolicy && r.1 == VisualAction::EvaluatePolicy,
            },
    {
        VisualController::start(
            VisualOperationKind::Keyboard,
            expected,
            available,
            justification,
            None,
            Some(action),
        )
    }

    /// Advances the flow with the outcome of the last action.
    pub fn step(&mut self, expected: &GraphicalTargetExpectation, event: VisualEvent) -> (r: VisualAction)
        requires
            flow_wf(*old(self), *expected),
            event_fits(old(self).phase, event),
        ensures
            (*final(self), r) == step_spec(*old(self), *expected, event),
            flow_wf(*final(self), *expected),
    {
        let phase = self.phase;
        match event {
            VisualEvent::Policy(decision) => match decision {
                Err(()) => {
                    self.phase = VisualPhase::Done;
                    VisualAction::Finish(Err(VisualError::PolicyFailed))
                },
                Ok(PolicyEffect::Allow) => {
                    self.phase = VisualPhase::AwaitRevalidation { refocused: false };
                    self.policy_allowed = true;
                    VisualAction::Revalidate
                },
                Ok(PolicyEffect::Prompt) => {
                    self.phase = VisualPhase::AwaitStopRecord { error: VisualError::ApprovalRequired };
                    VisualAction::RecordPolicyStop { approval_required: true }
                },
                Ok(PolicyEffect::Reject) => {
                    self.phase = VisualPhase::AwaitStopRecord { error: VisualError::PermissionDenied };
                    VisualAction::RecordPolicyStop { approval_required: false }
                },
            },
            VisualEvent::Recorded(ok) => {
                self.phase = VisualPhase::Done;
                match phase {
                    VisualPhase::AwaitStopRecord { error } => VisualAction::Finish(
                        Err(
                            if ok {
                                error
                            } else {
                                VisualError::AuditFailed
                            },
                        ),
                    ),
                    VisualPhase::AwaitFailureRecord { error, after_side_effect } => VisualAction::Finish(
                        Err(
                            if ok {
                                error
                            } else if after_side_effect {
                                VisualError::AuditAfterSideEffect
                            } else {
                                VisualError::AuditFailed
                            },
                        ),
                    ),
                    _ => VisualAction::Finish(
                        if ok {
                            Ok(())
                        } else {
                            Err(VisualError::AuditAfterSideEffect)
                        },
                    ),
                }
            },
            VisualEvent::Revalidated(outcome) => {
                let refocused = match phase {
                    VisualPhase::AwaitRevalidation { refocused } => refocused,
                    _ => false,
                };
                match outcome {
                    Err(failure) => {
                        self.phase = VisualPhase::AwaitFailureRecord {
                            error: VisualError::Backend(failure),
                            after_side_effect: false,
                        };
                        VisualAction::RecordFailure
                    },
                    Ok(t) => {
                        let same = check_same_target(expected, &t);
                        let normal = t.sensitivity == ScreenSensitivity::Normal;
                        let focused = t.focused;
                        let pointer_check = match (self.op, self.pointer) {
                            (VisualOperationKind::Pointer, Some(p)) => validate_pointer(p, t.geometry),
                            _ => Ok(()),
                        };
                        self.current = Some(t);
                        if !same {
                            self.phase = VisualPhase::AwaitFailureRecord {
                                error: VisualError::StaleTarget,
                                after_side_effect: false,
                            };
                            VisualAction::RecordFailure
                        } else if !normal {
                            self.phase = VisualPhase::Done;
                            VisualAction::Finish(Err(VisualError::SensitiveTarget))
                        } else if refocused && !focused {
                            self.phase = VisualPhase::Done;
                            VisualAction::Finish(Err(VisualError::TargetNotFocused))
                        } else if let Err(e) = pointer_check {
                            self.phase = VisualPhase::Done;
                            VisualAction::Finish(Err(e))
                        } else if self.op != VisualOperationKind::Capture && !focused {
                            self.phase = VisualPhase::AwaitFocus;
                            VisualAction::Focus
                        } else {
                            self.phase = VisualPhase::AwaitPerform;
                            VisualAction::Perform
                        }
                    },
                }
            },
            VisualEvent::Focused(outcome) => match outcome {
                Err(failure) => {
                    self.phase = VisualPhase::AwaitFailureRecord {
                        error: VisualError::Backend(failure),
                        after_side_effect: true,
                    };
                    VisualAction::RecordFailure
                },
                Ok(()) => {
                    self.phase = VisualPhase::AwaitRevalidation { refocused: true };
                    VisualAction::Revalidate
                },
            },
            VisualEvent::Performed(outcome) => match outcome {
                Err(failure) => {
                    self.phase = VisualPhase::AwaitFailureRecord {
                        error: VisualError::Backend(failure),
                        after_side_effect: true,
                    };
                    VisualAction::RecordFailure
                },
                Ok(()) => if self.op == VisualOperationKind::Capture {
                    self.phase = VisualPhase::AwaitCaptureCheck;
                    VisualAction::CheckCapture
                } else {
                    self.phase = VisualPhase::AwaitSuccessRecord;
                    VisualAction::RecordSuccess
                },
            },
            VisualEvent::CaptureChecked(outcome) => match outcome {
                Err(e) => {
                    self.phase = VisualPhase::Done;
                    VisualAction::Finish(Err(e))
                },
                Ok(()) => {
                    self.phase = VisualPhase::AwaitSuccessRecord;
                    VisualAction::RecordSuccess
                },
            },
        }
    }
}

/// Law: the flow asks for input to be injected only when policy allowed the
/// operation and the freshly revalidated target is the expected one in the
/// same source generation, on a normal screen, focused (for input), and the
/// pointer coordinates lie inside it.
pub proof fn law_input_only_into_verified_target(
    f: VisualController,
    expected: GraphicalTargetExpectation,
    e: VisualEvent,
)
    requires
        flow_wf(f, expected),
        event_fits(f.phase, e),
        step_spec(f, expected, e).1 == VisualAction::Perform,
    ensures
        ready_to_perform(step_spec(f, expected, e).0, expected),
{
}

/// Law: an operation ends successfully only after the backend performed it
/// (and, for a capture, the captured file passed its checks) and the success
/// was audited.
pub proof fn law_success_only_after_audited_effect(
    f: VisualController,
    expected: GraphicalTargetExpectation,
    e: VisualEvent,
)
    requires
        flow_wf(f, expected),
        event_fits(f.phase, e),
        step_spec(f, expected, e).1 == VisualAction::Finish(Ok(())),
    ensures
        f.phase is AwaitSuccessRecord,
        e == VisualEvent::Recorded(true),
        f.policy_allowed,
{
}

/// Law: a refusal by policy never reaches the backend: the next action only
/// records the stop, and the flow then ends with the refusal (or the audit
/// failure).
pub proof fn law_policy_refusal_has_no_side_effect(
    f: VisualController,
    expected: GraphicalTargetExpectation,
    effect: PolicyEffect,
    ok: bool,
)
    requires
        f.phase is AwaitPolicy,
        !(effect is Allow),
    ensures
        step_spec(f, expected, VisualEvent::Policy(Ok(effect))).1 is RecordPolicyStop,
        ({
            let g = step_spec(f, expected, VisualEvent::Policy(Ok(effect))).0;
            step_spec(g, expected, VisualEvent::Recorded(ok)).1 == VisualAction::Finish(
                Err(
                    if !ok {
                        VisualError::AuditFailed
                    } else if effect is Prompt {
                        VisualError::ApprovalRequired
                    } else {
                        VisualError::PermissionDenied
                    },
                ),
            )
        }),
{
}

/// The audit record a recording action writes: who acted, on which
/// operation's policy action, with which outcome and reason, about which
/// target and task.
pub struct VisualAuditRecord {
    pub principal: Principal,
    pub domain: AuditDomain,
    pub action_id: &'static str,
    pub outcome: AuditOutcome,
    pub reason_code: &'static str,
    pub target_ref: String,
    pub task_id: String,
    pub occurred_at_ms: i64,
}

/// The outcome and reason a recording action writes: a policy prompt asks
/// for approval, a policy rejection is a denial, then failure and success.
pub open spec fn visual_audit_terms(action: VisualAction) -> Option<(AuditOutcome, Seq<char>)> {
    match action {
        VisualAction::RecordPolicyStop { approval_required } => if approval_required {
            Some((AuditOutcome::ApprovalRequired, "policy_prompt"@))
        } else {
            Some((AuditOutcome::Denied, "policy_reject"@))
        },
        VisualAction::RecordFailure => Some((AuditOutcome::Failed, "operation_failed"@)),
        VisualAction::RecordSuccess => Some((AuditOutcome::Succeeded, "completed"@)),
        _ => None,
    }
}

/// The record to write for `action`, or `None` when the action records
/// nothing. `target_ref` is the target the recorded step concerned.
pub fn visual_audit_record(
    action: VisualAction,
    principal: Principal,
    op: VisualOperationKind,
    target_ref: &String,
    task_id: &String,
    now_ms: i64,
) -> (r: Option<VisualAuditRecord>)
    ensures
        r is Some <==> visual_audit_terms(action) is Some,
        r is Some ==> {
            let rec = r->0;
            let terms = visual_audit_terms(action)->0;
            &&& rec.principal == principal
            &&& rec.domain == AuditDomain::Visual
            &&& rec.action_id@ == action_name(op)
            &&& rec.outcome == terms.0
            &&& rec.reason_code@ == terms.1
            &&& rec.target_ref@ == target_ref@
            &&& rec.task_id@ == task_id@
            &&& rec.occurred_at_ms == now_ms
        },
{
    let (outcome, reason_code): (AuditOutcome, &'static str) = match action {
        VisualAction::RecordPolicyStop { approval_required } => if approval_required {
            (AuditOutcome::ApprovalRequired, "policy_prompt")
        } else {
            (AuditOutcome::Denied, "policy_reject")
        },
        VisualAction::RecordFailure => (AuditOutcome::Failed, "operation_failed"),
        VisualAction::RecordSuccess => (AuditOutcome::Succeeded, "completed"),
        _ => {
            return None;
        },
    };
    Some(
        VisualAuditRecord {
            principal,
            domain: AuditDomain::Visual,
            action_id: op.action_id(),
            outcome,
            reason_code,
            target_ref: target_ref.clone(),
            task_id: task_id.clone(),
            occurred_at_ms: now_ms,
        },
    )
}

} // verus!
