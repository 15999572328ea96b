//! Decisions of the task engine: what a backend exit, a cancellation request or
//! a runtime restart does to a task's lifecycle. The engine performs the process
//! and storage work; these functions say which transitions it makes.
use vstd::prelude::*;
use vstd::string::StringSliceAdditionalSpecFns;
use crate::task::{
    is_terminal_state, transition_allowed, SpecProblem, TaskError, TaskState,
};
use crate::text::{blank, is_blank};

verus! {

pub const MAX_MANAGED_ARGUMENTS: usize = 128;
pub const MAX_MANAGED_ARGUMENT_BYTES: usize = 4096;
pub const MAX_MANAGED_TOTAL_ARGUMENT_BYTES: usize = 65536;

#[derive(Clone, Copy, Debug, PartialEq, Eq, Structural)]
pub enum RelationshipMode {
    Managed,
    Associated,
}

#[derive(Clone, Copy, Debug, PartialEq, Eq, Structural)]
pub enum RelationshipStatus {
    Running,
    Stopped,
    Lost,
}

#[derive(Clone, Copy, Debug, PartialEq, Eq, Structural)]
pub enum TaskResultKind {
    Success,
    Failure,
    Cancelled,
    Interrupted,
}

/// What cancellation needs to know of one execution relationship.
#[derive(Clone, Copy, Debug, PartialEq, Eq, Structural)]
pub struct RelationshipSummary {
    pub mode: RelationshipMode,
    pub status: RelationshipStatus,
    pub cancellation_supported: bool,
}

/// One lifecycle transition the engine makes, with the result it records.
#[derive(Clone, Copy, Debug, PartialEq, Eq, Structural)]
pub struct Step {
    pub from: TaskState,
    pub to: TaskState,
    pub result: Option<TaskResultKind>,
}

pub open spec fn step(from: TaskState, to: TaskState, result: Option<TaskResultKind>) -> Step {
    Step { from, to, result }
}

/// `steps` is a contiguous run of allowed transitions starting at `start`.
pub open spec fn legal_chain(steps: Seq<Step>, start: TaskState) -> bool {
    &&& steps.len() > 0
    &&& steps[0].from == start
    &&& forall|i: int| 0 <= i < steps.len() ==> transition_allowed(#[trigger] steps[i].from, steps[i].to)
    &&& forall|i: int| 0 <= i < steps.len() - 1 ==> #[trigger] steps[i].to == steps[i + 1].from
}

pub open spec fn is_cancellable(r: RelationshipSummary) -> bool {
    r.mode is Managed && r.cancellation_supported && r.status is Running
}

pub open spec fn has_cancellable(rels: Seq<RelationshipSummary>) -> bool {
    exists|i: int| 0 <= i < rels.len() && is_cancellable(#[trigger] rels[i])
}

/// The refusal a cancellation request meets, if any.
pub open spec fn cancel_refusal(
    current: TaskState,
    expected: Option<TaskState>,
    rels: Seq<RelationshipSummary>,
) -> Option<TaskError> {
    if expected is Some && expected->0 != current {
        Some(TaskError::PreconditionFailed { expected: expected->0, found: current })
    } else if is_terminal_state(current) {
        Some(TaskError::TerminalTask)
    } else if !has_cancellable(rels) {
        Some(TaskError::NoCancellableBackend)
    } else {
        None
    }
}

/// Checks a cancellation request against the task's state, the caller's
/// expected state and its execution relationships.
pub fn cancel_precheck(
    current: TaskState,
    expected: Option<TaskState>,
    rels: &Vec<RelationshipSummary>,
) -> (r: Result<(), TaskError>)
    ensures
        match cancel_refusal(current, expected, rels@) {
            Some(e) => r == Err::<(), TaskError>(e),
            None => r is Ok,
        },
{
    if let Some(e) = expected {
        if e != current {
            return Err(TaskError::PreconditionFailed { expected: e, found: current });
        }
    }
    if current.is_terminal() {
        return Err(TaskError::TerminalTask);
    }
    let mut i: usize = 0;
    while i < rels.len()
        invariant
            i <= rels@.len(),
            !is_terminal_state(current),
            expected is Some ==> expected->0 == current,
            forall|j: int| 0 <= j < i ==> !is_cancellable(#[trigger] rels@[j]),
        decreases rels@.len() - i,
    {
        let r = rels[i];
        if r.mode == RelationshipMode::Managed && r.cancellation_supported && r.status
            == RelationshipStatus::Running {
            assert(is_cancellable(rels@[i as int]));
            return Ok(());
        }
        i = i + 1;
    }
    Err(TaskError::NoCancellableBackend)
}

/// How the stop request to a managed backend ended.
#[derive(Clone, Copy, Debug, PartialEq, Eq, Structural)]
pub enum StopObservation {
    /// The kill was delivered and the exit was collected.
    Confirmed,
    /// The kill failed because the backend had already exited with this outcome.
    ExitedFirst { success: bool },
    /// The backend's exit could not be collected.
    Unknown,
}

pub open spec fn cancel_steps_spec(prior: TaskState, obs: StopObservation) -> Seq<Step> {
    let request = step(prior, TaskState::Cancelling, None);
    match obs {
        StopObservation::Confirmed => seq![
            request,
            step(TaskState::Cancelling, TaskState::Cancelled, Some(TaskResultKind::Cancelled)),
        ],
        StopObservation::ExitedFirst { success } => seq![
            request,
            step(TaskState::Cancelling, TaskState::Reconciling, None),
            if success {
                step(TaskState::Reconciling, TaskState::Succeeded, Some(TaskResultKind::Success))
            } else {
                step(TaskState::Reconciling, TaskState::Failed, Some(TaskResultKind::Failure))
            },
        ],
        StopObservation::Unknown => seq![
            request,
            step(TaskState::Cancelling, TaskState::Reconciling, None),
            step(
                TaskState::Reconciling,
                TaskState::Interrupted,
                Some(TaskResultKind::Interrupted),
            ),
        ],
    }
}

/// The transitions a cancellation makes: the request, then whatever the stop
/// observation shows.
pub fn cancel_steps(prior: TaskState, obs: StopObservation) -> (r: Vec<Step>)
    ensures
        r@ == cancel_steps_spec(prior, obs),
{
    let request = Step { from: prior, to: TaskState::Cancelling, result: None };
    let mut v: Vec<Step> = Vec::new();
    v.push(request);
    match obs {
        StopObservation::Confirmed => {
            v.push(
                Step {
                    from: TaskState::Cancelling,
                    to: TaskState::Cancelled,
                    result: Some(TaskResultKind::Cancelled),
                },
            );
        },
        StopObservation::ExitedFirst { success } => {
            v.push(Step { from: TaskState::Cancelling, to: TaskState::Reconciling, result: None });
            if success {
                v.push(
                    Step {
                        from: TaskState::Reconciling,
                        to: TaskState::Succeeded,
                        result: Some(TaskResultKind::Success),
                    },
                );
            } else {
                v.push(
                    Step {
                        from: TaskState::Reconciling,
                        to: TaskState::Failed,
                        result: Some(TaskResultKind::Failure),
                    },
                );
            }
        },
        StopObservation::Unknown => {
            v.push(Step { from: TaskState::Cancelling, to: TaskState::Reconciling, result: None });
            v.push(
                Step {
                    from: TaskState::Reconciling,
                    to: TaskState::Interrupted,
                    result: Some(TaskResultKind::Interrupted),
                },
            );
        },
    }
    assert(v@ =~= cancel_steps_spec(prior, obs));
    v
}

/// Law: once a cancellation request is accepted for a live task that is not
/// already cancelling, every outcome drives it along allowed transitions to a
/// terminal state.
pub proof fn law_cancellation_always_terminates(prior: TaskState, obs: StopObservation)
    requires
        !is_terminal_state(prior),
        !(prior is Cancelling),
    ensures
        legal_chain(cancel_steps_spec(prior, obs), prior),
        is_terminal_state(cancel_steps_spec(prior, obs).last().to),
{
    let s = cancel_steps_spec(prior, obs);
    assert forall|i: int| 0 <= i < s.len() implies transition_allowed(#[trigger] s[i].from, s[i].to) by {
    }
}

/// The transition a backend exit produces, if the task is still live.
pub open spec fn completion_step_spec(current: TaskState, exit_code: Option<i32>) -> Option<Step> {
    if is_terminal_state(current) {
        None
    } else if current is Cancelling {
        Some(step(current, TaskState::Cancelled, Some(TaskResultKind::Cancelled)))
    } else if exit_code == Some(0i32) {
        Some(step(current, TaskState::Succeeded, Some(TaskResultKind::Success)))
    } else {
        Some(step(current, TaskState::Failed, Some(TaskResultKind::Failure)))
    }
}

pub fn completion_step(current: TaskState, exit_code: Option<i32>) -> (r: Option<Step>)
    ensures
        r == completion_step_spec(current, exit_code),
{
    if current.is_terminal() {
        None
    } else if current == TaskState::Cancelling {
        Some(Step { from: current, to: TaskState::Cancelled, result: Some(TaskResultKind::Cancelled) })
    } else if exit_code == Some(0i32) {
        Some(Step { from: current, to: TaskState::Succeeded, result: Some(TaskResultKind::Success) })
    } else {
        Some(Step { from: current, to: TaskState::Failed, result: Some(TaskResultKind::Failure) })
    }
}

/// Law: a backend exit never leaves a live task live, and it never touches a
/// finished one.
pub proof fn law_completion_finishes_live_tasks(current: TaskState, exit_code: Option<i32>)
    ensures
        is_terminal_state(current) <==> completion_step_spec(current, exit_code) is None,
        completion_step_spec(current, exit_code) is Some ==> is_terminal_state(
            completion_step_spec(current, exit_code)->0.to,
        ),
        (current is Running || current is Reconciling || current is Cancelling)
            ==> transition_allowed(current, completion_step_spec(current, exit_code)->0.to),
{
}

/// After a runtime restart a live task that had begun running cannot be proven
/// to still own its backend: it is reconciled and interrupted.
pub open spec fn restart_steps_spec(current: TaskState) -> Seq<Step> {
    let interrupt = step(
        TaskState::Reconciling,
        TaskState::Interrupted,
        Some(TaskResultKind::Interrupted),
    );
    if is_terminal_state(current) || current is Created || current is Queued {
        Seq::empty()
    } else if current is Reconciling {
        seq![interrupt]
    } else {
        seq![step(current, TaskState::Reconciling, None), interrupt]
    }
}

pub fn restart_steps(current: TaskState) -> (r: Vec<Step>)
    ensures
        r@ == restart_steps_spec(current),
{
    let interrupt = Step {
        from: TaskState::Reconciling,
        to: TaskState::Interrupted,
        result: Some(TaskResultKind::Interrupted),
    };
    let mut v: Vec<Step> = Vec::new();
    if current.is_terminal() || current == TaskState::Created || current == TaskState::Queued {
    } else if current == TaskState::Reconciling {
        v.push(interrupt);
    } else {
        v.push(Step { from: current, to: TaskState::Reconciling, result: None });
        v.push(interrupt);
    }
    assert(v@ =~= restart_steps_spec(current));
    v
}

/// Law: restart reconciliation leaves unstarted tasks alone and drives every
/// started live task, along allowed transitions, to `interrupted`.
pub proof fn law_restart_never_readopts(current: TaskState)
    ensures
        (is_terminal_state(current) || current is Created || current is Queued)
            ==> restart_steps_spec(current).len() == 0,
        !(is_terminal_state(current) || current is Created || current is Queued) ==> {
            &&& legal_chain(restart_steps_spec(current), current)
            &&& restart_steps_spec(current).last().to == TaskState::Interrupted
        },
{
    let s = restart_steps_spec(current);
    assert forall|i: int| 0 <= i < s.len() implies transition_allowed(#[trigger] s[i].from, s[i].to) by {
    }
}

/// Sum of the byte lengths of the first `n` arguments.
pub open spec fn args_bytes(args: Seq<&str>, n: int) -> int
    decreases n,
{
    if n <= 0 {
        0
    } else {
        args_bytes(args, n - 1) + args[n - 1].spec_bytes().len()
    }
}

/// The first problem of a managed-process launch request, if any. `program` and
/// `args` are the lossy UTF-8 forms of the path and arguments.
pub open spec fn managed_spec_problem(program: &str, backend_ref: &str, args: Seq<&str>) -> Option<
    SpecProblem,
> {
    if program@.len() == 0 {
        Some(SpecProblem::EmptyProgram)
    } else if blank(backend_ref@) {
        Some(SpecProblem::EmptyBackendRef)
    } else if args.len() > MAX_MANAGED_ARGUMENTS {
        Some(SpecProblem::TooManyArguments)
    } else if exists|i: int|
        0 <= i < args.len() && (#[trigger] args[i]).spec_bytes().len() > MAX_MANAGED_ARGUMENT_BYTES {
        Some(SpecProblem::ArgumentTooLong)
    } else if args_bytes(args, args.len() as int) > MAX_MANAGED_TOTAL_ARGUMENT_BYTES {
        Some(SpecProblem::ArgumentsTooLong)
    } else {
        None
    }
}

proof fn lemma_args_bytes_bounded(args: Seq<&str>, n: int)
    requires
        0 <= n <= args.len(),
        forall|i: int| 0 <= i < n ==> (#[trigger] args[i]).spec_bytes().len() <= MAX_MANAGED_ARGUMENT_BYTES,
    ensures
        0 <= args_bytes(args, n) <= n * MAX_MANAGED_ARGUMENT_BYTES,
    decreases n,
{
    if n > 0 {
        lemma_args_bytes_bounded(args, n - 1);
    }
}

pub fn validate_managed_spec(program: &str, backend_ref: &str, args: &Vec<&str>) -> (r: Result<
    (),
    TaskError,
>)
    ensures
        match managed_spec_problem(program, backend_ref, args@) {
            Some(p) => r == Err::<(), TaskError>(TaskError::InvalidSpec(p)),
            None => r is Ok,
        },
{
    if program.is_empty() {
        return Err(TaskError::InvalidSpec(SpecProblem::EmptyProgram));
    }
    if is_blank(backend_ref) {
        return Err(TaskError::InvalidSpec(SpecProblem::EmptyBackendRef));
    }
    if args.len() > MAX_MANAGED_ARGUMENTS {
        return Err(TaskError::InvalidSpec(SpecProblem::TooManyArguments));
    }
    let mut total: usize = 0;
    let mut i: usize = 0;
    while i < args.len()
        invariant
            program@.len() != 0,
            !blank(backend_ref@),
            args@.len() <= MAX_MANAGED_ARGUMENTS,
            i <= args@.len(),
            forall|j: int| 0 <= j < i ==> (#[trigger] args@[j]).spec_bytes().len() <= MAX_MANAGED_ARGUMENT_BYTES,
            total == args_bytes(args@, i as int),
        decreases args@.len() - i,
    {
        let bytes: usize = args[i].as_bytes().len();
        if bytes > MAX_MANAGED_ARGUMENT_BYTES {
            assert((args@[i as int]).spec_bytes().len() > MAX_MANAGED_ARGUMENT_BYTES);
            return Err(TaskError::InvalidSpec(SpecProblem::ArgumentTooLong));
        }
        proof {
            lemma_args_bytes_bounded(args@, i as int + 1);
        }
        total = total + bytes;
        i = i + 1;
    }
    if total > MAX_MANAGED_TOTAL_ARGUMENT_BYTES {
        return Err(TaskError::InvalidSpec(SpecProblem::ArgumentsTooLong));
    }
    Ok(())
}

/// An associated execution needs non-blank backend and generation references.
pub fn validate_association(backend_ref: &str, generation_ref: &str) -> (r: Result<(), TaskError>)
    ensures
        r is Ok <==> !blank(backend_ref@) && !blank(generation_ref@),
        r is Err ==> r == Err::<(), TaskError>(TaskError::InvalidSpec(SpecProblem::EmptyAssociation)),
{
    if is_blank(backend_ref) || is_blank(generation_ref) {
        Err(TaskError::InvalidSpec(SpecProblem::EmptyAssociation))
    } else {
        Ok(())
    }
}

/// The steps of a managed launch: `created -> starting`, then either
/// `starting -> running` or, when the backend could not be spawned,
/// `starting -> failed`.
pub open spec fn launch_steps_spec(spawned: bool) -> Seq<Step> {
    seq![
        step(TaskState::Created, TaskState::Starting, None),
        if spawned {
            step(TaskState::Starting, TaskState::Running, None)
        } else {
            step(TaskState::Starting, TaskState::Failed, Some(TaskResultKind::Failure))
        },
    ]
}

pub fn launch_steps(spawned: bool) -> (r: Vec<Step>)
    ensures
        r@ == launch_steps_spec(spawned),
        legal_chain(r@, TaskState::Created),
{
    let mut v: Vec<Step> = Vec::new();
    v.push(Step { from: TaskState::Created, to: TaskState::Starting, result: None });
    if spawned {
        v.push(Step { from: TaskState::Starting, to: TaskState::Running, result: None });
    } else {
        v.push(
            Step {
                from: TaskState::Starting,
                to: TaskState::Failed,
                result: Some(TaskResultKind::Failure),
            },
        );
    }
    assert(v@ =~= launch_steps_spec(spawned));
    assert forall|i: int| 0 <= i < v@.len() implies transition_allowed(#[trigger] v@[i].from, v@[i].to) by {
    }
    v
}

/// The steps of recording an association with a backend Portus does not
/// manage: `created -> starting`, then `starting -> running` once the
/// relationship is stored.
pub open spec fn association_steps_spec() -> Seq<Step> {
    seq![step(TaskState::Created, TaskState::Starting, None), step(TaskState::Starting, TaskState::Running, None)]
}

pub fn association_steps() -> (r: Vec<Step>)
    ensures
        r@ == association_steps_spec(),
        legal_chain(r@, TaskState::Created),
{
    let mut v: Vec<Step> = Vec::new();
    v.push(Step { from: TaskState::Created, to: TaskState::Starting, result: None });
    v.push(Step { from: TaskState::Starting, to: TaskState::Running, result: None });
    assert(v@ =~= association_steps_spec());
    assert forall|i: int| 0 <= i < v@.len() implies transition_allowed(#[trigger] v@[i].from, v@[i].to) by {}
    v
}

/// The relationship an association records: running, not managed, and not
/// cancellable by Portus.
pub open spec fn association_relationship_spec() -> RelationshipSummary {
    RelationshipSummary {
        mode: RelationshipMode::Associated,
        status: RelationshipStatus::Running,
        cancellation_supported: false,
    }
}

pub fn association_relationship() -> (r: RelationshipSummary)
    ensures
        r == association_relationship_spec(),
{
    RelationshipSummary {
        mode: RelationshipMode::Associated,
        status: RelationshipStatus::Running,
        cancellation_supported: false,
    }
}

/// Law: an association never claims management: a task whose only
/// relationships are associations cannot be cancelled through Portus.
pub proof fn law_association_is_not_cancellable(current: TaskState, expected: Option<TaskState>, n: nat)
    requires
        !is_terminal_state(current),
        expected is None || expected == Some(current),
    ensures
        cancel_refusal(current, expected, Seq::new(n, |i: int| association_relationship_spec()))
            == Some(TaskError::NoCancellableBackend),
{
    let rels = Seq::new(n, |i: int| association_relationship_spec());
    assert(!has_cancellable(rels));
}

/// The flow a step belongs to, which decides what it records.
#[derive(Clone, Copy, Debug, PartialEq, Eq, Structural)]
pub enum StepContext {
    /// Launching a managed backend.
    Launch,
    /// Launching, after the backend's relationship could not be stored.
    LaunchNotRecorded,
    /// The backend exited on its own.
    Completion,
    /// A cancellation, with what stopping the backend showed.
    Cancellation(StopObservation),
    /// Reconciliation after a runtime restart.
    Restart,
    /// Recording an association with an existing backend.
    Association,
}

/// What a committed step records besides the new state: the stored reason,
/// the result summary, and the kind and summary of its event.
#[derive(Clone, Copy, Debug, PartialEq, Eq)]
pub struct StepRecord {
    pub reason: &'static str,
    pub result_summary: Option<&'static str>,
    pub event_kind: &'static str,
    pub event_summary: &'static str,
}

pub struct StepRecordText {
    pub reason: Seq<char>,
    pub result_summary: Option<Seq<char>>,
    pub event_kind: Seq<char>,
    pub event_summary: Seq<char>,
}

pub open spec fn record_text(
    reason: Seq<char>,
    result_summary: Option<Seq<char>>,
    event_kind: Seq<char>,
    event_summary: Seq<char>,
) -> StepRecordText {
    StepRecordText { reason, result_summary, event_kind, event_summary }
}

pub open spec fn record_view(r: StepRecord) -> StepRecordText {
    record_text(
        r.reason@,
        match r.result_summary {
            Some(t) => Some(t@),
            None => None,
        },
        r.event_kind@,
        r.event_summary@,
    )
}

/// The record of a step of `context` into state `to`.
pub open spec fn step_record_spec(context: StepContext, to: TaskState) -> StepRecordText {
    match context {
        StepContext::Launch => if to is Starting {
            record_text("launching_managed_backend"@, None, "task.starting"@, "managed execution starting"@)
        } else if to is Running {
            record_text("managed_backend_running"@, None, "task.running"@, "managed backend is running"@)
        } else {
            record_text(
                "managed_backend_launch_failed"@,
                Some("managed backend could not be launched"@),
                "task.failed"@,
                "managed backend launch failed"@,
            )
        },
        StepContext::LaunchNotRecorded => record_text(
            "managed_relationship_persist_failed"@,
            Some("managed backend was stopped because its durable relationship could not be recorded"@),
            "task.failed"@,
            "managed backend relationship persistence failed"@,
        ),
        StepContext::Completion => if to is Cancelled {
            record_text(
                "cancellation_confirmed"@,
                Some("managed backend stopped after cancellation"@),
                "task.cancelled"@,
                "managed backend stopped after cancellation"@,
            )
        } else if to is Succeeded {
            record_text(
                "managed_backend_succeeded"@,
                Some("managed backend completed successfully"@),
                "task.succeeded"@,
                "managed backend completed successfully"@,
            )
        } else {
            record_text(
                "managed_backend_failed"@,
                Some("managed backend exited unsuccessfully"@),
                "task.failed"@,
                "managed backend exited unsuccessfully"@,
            )
        },
        StepContext::Cancellation(obs) => if to is Cancelling {
            record_text("cancellation_requested"@, None, "task.cancellation_requested"@, "cancellation requested"@)
        } else if to is Cancelled {
            record_text(
                "cancellation_confirmed"@,
                Some("managed backend cancellation was confirmed"@),
                "task.cancelled"@,
                "managed backend cancellation confirmed"@,
            )
        } else if to is Reconciling {
            if obs is Unknown {
                record_text(
                    "cancellation_state_unknown"@,
                    None,
                    "task.reconciling"@,
                    "backend state became unknown during cancellation"@,
                )
            } else {
                record_text(
                    "cancellation_not_applied_backend_already_exited"@,
                    None,
                    "task.reconciling"@,
                    "backend exited before cancellation could be confirmed"@,
                )
            }
        } else if to is Succeeded {
            record_text(
                "managed_backend_succeeded"@,
                Some("managed backend completed before cancellation could be applied"@),
                "task.succeeded"@,
                "backend completion won the cancellation race"@,
            )
        } else if to is Failed {
            record_text(
                "managed_backend_failed"@,
                Some("managed backend failed before cancellation could be applied"@),
                "task.failed"@,
                "backend completion won the cancellation race"@,
            )
        } else {
            record_text(
                "backend_state_unverifiable"@,
                Some("backend state could not be established after cancellation"@),
                "task.interrupted"@,
                "task interrupted because backend state is unverifiable"@,
            )
        },
        StepContext::Association => if to is Starting {
            record_text(
                "associating_existing_backend"@,
                None,
                "task.starting"@,
                "existing backend association is being recorded"@,
            )
        } else {
            record_text(
                "associated_backend_observed"@,
                None,
                "task.running"@,
                "associated backend is recorded as running"@,
            )
        },
        StepContext::Restart => if to is Reconciling {
            record_text(
                "runtime_restart"@,
                None,
                "task.reconciling"@,
                "runtime restarted; backend state requires verification"@,
            )
        } else {
            record_text(
                "backend_state_unverifiable"@,
                Some("current host-safe backend cannot prove prior live process generation after runtime restart"@),
                "task.interrupted"@,
                "task interrupted rather than guessing prior backend state"@,
            )
        },
    }
}

/// What a step of `context` into state `to` records.
pub fn step_record(context: StepContext, to: TaskState) -> (r: StepRecord)
    ensures
        record_view(r) == step_record_spec(context, to),
{
    match context {
        StepContext::Launch => if to == TaskState::Starting {
            StepRecord {
                reason: "launching_managed_backend",
                result_summary: None,
                event_kind: "task.starting",
                event_summary: "managed execution starting",
            }
        } else if to == TaskState::Running {
            StepRecord {
                reason: "managed_backend_running",
                result_summary: None,
                event_kind: "task.running",
                event_summary: "managed backend is running",
            }
        } else {
            StepRecord {
                reason: "managed_backend_launch_failed",
                result_summary: Some("managed backend could not be launched"),
                event_kind: "task.failed",
                event_summary: "managed backend launch failed",
            }
        },
        StepContext::LaunchNotRecorded => StepRecord {
            reason: "managed_relationship_persist_failed",
            result_summary: Some(
                "managed backend was stopped because its durable relationship could not be recorded",
            ),
            event_kind: "task.failed",
            event_summary: "managed backend relationship persistence failed",
        },
        StepContext::Completion => if to == TaskState::Cancelled {
            StepRecord {
                reason: "cancellation_confirmed",
                result_summary: Some("managed backend stopped after cancellation"),
                event_kind: "task.cancelled",
                event_summary: "managed backend stopped after cancellation",
            }
        } else if to == TaskState::Succeeded {
            StepRecord {
                reason: "managed_backend_succeeded",
                result_summary: Some("managed backend completed successfully"),
                event_kind: "task.succeeded",
                event_summary: "managed backend completed successfully",
            }
        } else {
            StepRecord {
                reason: "managed_backend_failed",
                result_summary: Some("managed backend exited unsuccessfully"),
                event_kind: "task.failed",
                event_summary: "managed backend exited unsuccessfully",
            }
        },
        StepContext::Cancellation(obs) => if to == TaskState::Cancelling {
            StepRecord {
                reason: "cancellation_requested",
                result_summary: None,
                event_kind: "task.cancellation_requested",
                event_summary: "cancellation requested",
            }
        } else if to == TaskState::Cancelled {
            StepRecord {
                reason: "cancellation_confirmed",
                result_summary: Some("managed backend cancellation was confirmed"),
                event_kind: "task.cancelled",
                event_summary: "managed backend cancellation confirmed",
            }
        } else if to == TaskState::Reconciling {
            if obs == StopObservation::Unknown {
                StepRecord {
                    reason: "cancellation_state_unknown",
                    result_summary: None,
                    event_kind: "task.reconciling",
                    event_summary: "backend state became unknown during cancellation",
                }
            } else {
                StepRecord {
                    reason: "cancellation_not_applied_backend_already_exited",
                    result_summary: None,
                    event_kind: "task.reconciling",
                    event_summary: "backend exited before cancellation could be confirmed",
                }
            }
        } else if to == TaskState::Succeeded {
            StepRecord {
                reason: "managed_backend_succeeded",
                result_summary: Some("managed backend completed before cancellation could be applied"),
                event_kind: "task.succeeded",
                event_summary: "backend completion won the cancellation race",
            }
        } else if to == TaskState::Failed {
            StepRecord {
                reason: "managed_backend_failed",
                result_summary: Some("managed backend failed before cancellation could be applied"),
                event_kind: "task.failed",
                event_summary: "backend completion won the cancellation race",
            }
        } else {
            StepRecord {
                reason: "backend_state_unverifiable",
                result_summary: Some("backend state could not be established after cancellation"),
                event_kind: "task.interrupted",
                event_summary: "task interrupted because backend state is unverifiable",
            }
        },
        StepContext::Association => if to == TaskState::Starting {
            StepRecord {
                reason: "associating_existing_backend",
                result_summary: None,
                event_kind: "task.starting",
                event_summary: "existing backend association is being recorded",
            }
        } else {
            StepRecord {
                reason: "associated_backend_observed",
                result_summary: None,
                event_kind: "task.running",
                event_summary: "associated backend is recorded as running",
            }
        },
        StepContext::Restart => if to == TaskState::Reconciling {
            StepRecord {
                reason: "runtime_restart",
                result_summary: None,
                event_kind: "task.reconciling",
                event_summary: "runtime restarted; backend state requires verification",
            }
        } else {
            StepRecord {
                reason: "backend_state_unverifiable",
                result_summary: Some(
                    "current host-safe backend cannot prove prior live process generation after runtime restart",
                ),
                event_kind: "task.interrupted",
                event_summary: "task interrupted rather than guessing prior backend state",
            }
        },
    }
}

} // verus!
