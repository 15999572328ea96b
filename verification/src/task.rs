//! The task lifecycle: states, the locked transition relation, the bookkeeping a
//! committed transition performs, and the validation of task records.
use vstd::prelude::*;
use vstd::string::StringSliceAdditionalSpecFns;
use crate::json::{json_len, json_len_capped};
use crate::safety::SafeData;
use crate::text::{
    ascii_bytes, bounded_nonblank, check_bounded_nonblank, str_equal,
};

verus! {

pub const MAX_TASK_OBJECTIVE_BYTES: usize = 2048;
pub const MAX_TASK_TITLE_BYTES: usize = 256;
pub const MAX_TASK_REASON_BYTES: usize = 512;
pub const MAX_TASK_RESULT_BYTES: usize = 2048;
pub const MAX_TASK_EVENT_SUMMARY_BYTES: usize = 1024;
pub const MAX_TASK_EVENT_DATA_BYTES: usize = 4096;
pub const MAX_TASK_REF_BYTES: usize = 512;
pub const MAX_TASK_EVENT_KIND_BYTES: usize = 128;
pub const MAX_REQUESTER_SURFACE_BYTES: usize = 64;
pub const MAX_TASK_PAGE: u16 = 200;

#[derive(Clone, Copy, Debug, PartialEq, Eq, Structural)]
pub enum TaskState {
    Created,
    Queued,
    Starting,
    Running,
    Waiting,
    Paused,
    Reconciling,
    Cancelling,
    Succeeded,
    Failed,
    Cancelled,
    Interrupted,
}

/// The wire and storage name of each state.
pub open spec fn state_name(s: TaskState) -> Seq<char> {
    match s {
        TaskState::Created => "created"@,
        TaskState::Queued => "queued"@,
        TaskState::Starting => "starting"@,
        TaskState::Running => "running"@,
        TaskState::Waiting => "waiting"@,
        TaskState::Paused => "paused"@,
        TaskState::Reconciling => "reconciling"@,
        TaskState::Cancelling => "cancelling"@,
        TaskState::Succeeded => "succeeded"@,
        TaskState::Failed => "failed"@,
        TaskState::Cancelled => "cancelled"@,
        TaskState::Interrupted => "interrupted"@,
    }
}

pub open spec fn is_terminal_state(s: TaskState) -> bool {
    s is Succeeded || s is Failed || s is Cancelled || s is Interrupted
}

/// The locked lifecycle relation: which state may follow which.
pub open spec fn transition_allowed(from: TaskState, to: TaskState) -> bool {
    match from {
        TaskState::Created => to is Queued || to is Starting || to is Cancelling,
        TaskState::Queued => to is Starting || to is Cancelling || to is Failed || to is Reconciling,
        TaskState::Starting => to is Running || to is Waiting || to is Cancelling || to is Failed
            || to is Reconciling,
        TaskState::Running => to is Waiting || to is Paused || to is Cancelling || to is Succeeded
            || to is Failed || to is Reconciling,
        TaskState::Waiting => to is Running || to is Cancelling || to is Failed || to is Reconciling,
        TaskState::Paused => to is Running || to is Queued || to is Cancelling || to is Reconciling,
        TaskState::Reconciling => to is Running || to is Waiting || to is Paused || to is Cancelling
            || to is Succeeded || to is Failed || to is Cancelled || to is Interrupted,
        TaskState::Cancelling => to is Cancelled || to is Running || to is Reconciling
            || to is Failed,
        _ => false,
    }
}

impl TaskState {
    pub fn is_terminal(&self) -> (r: bool)
        ensures
            r == is_terminal_state(*self),
    {
        match self {
            TaskState::Succeeded | TaskState::Failed | TaskState::Cancelled
            | TaskState::Interrupted => true,
            _ => false,
        }
    }

    pub fn as_str(&self) -> (r: &'static str)
        ensures
            r@ == state_name(*self),
            r.spec_bytes() == ascii_bytes(state_name(*self)),
    {
        broadcast use vstd::string::is_ascii_spec_bytes;

        match self {
            TaskState::Created => {
                proof {
                    reveal_strlit("created");
                    assert(vstd::string::is_ascii("created"));
                    assert("created".spec_bytes() =~= ascii_bytes("created"@));
                }
                "created"
            },
            TaskState::Queued => {
                proof {
                    reveal_strlit("queued");
                    assert(vstd::string::is_ascii("queued"));
                    assert("queued".spec_bytes() =~= ascii_bytes("queued"@));
                }
                "queued"
            },
            TaskState::Starting => {
                proof {
                    reveal_strlit("starting");
                    assert(vstd::string::is_ascii("starting"));
                    assert("starting".spec_bytes() =~= ascii_bytes("starting"@));
                }
                "starting"
            },
            TaskState::Running => {
                proof {
                    reveal_strlit("running");
                    assert(vstd::string::is_ascii("running"));
                    assert("running".spec_bytes() =~= ascii_bytes("running"@));
                }
                "running"
            },
            TaskState::Waiting => {
                proof {
                    reveal_strlit("waiting");
                    assert(vstd::string::is_ascii("waiting"));
                    assert("waiting".spec_bytes() =~= ascii_bytes("waiting"@));
                }
                "waiting"
            },
            TaskState::Paused => {
                proof {
                    reveal_strlit("paused");
                    assert(vstd::string::is_ascii("paused"));
                    assert("paused".spec_bytes() =~= ascii_bytes("paused"@));
                }
                "paused"
            },
            TaskState::Reconciling => {
                proof {
                    reveal_strlit("reconciling");
                    assert(vstd::string::is_ascii("reconciling"));
                    assert("reconciling".spec_bytes() =~= ascii_bytes("reconciling"@));
                }
                "reconciling"
            },
            TaskState::Cancelling => {
                proof {
                    reveal_strlit("cancelling");
                    assert(vstd::string::is_ascii("cancelling"));
                    assert("cancelling".spec_bytes() =~= ascii_bytes("cancelling"@));
                }
                "cancelling"
            },
            TaskState::Succeeded => {
                proof {
                    reveal_strlit("succeeded");
                    assert(vstd::string::is_ascii("succeeded"));
                    assert("succeeded".spec_bytes() =~= ascii_bytes("succeeded"@));
                }
                "succeeded"
            },
            TaskState::Failed => {
                proof {
                    reveal_strlit("failed");
                    assert(vstd::string::is_ascii("failed"));
                    assert("failed".spec_bytes() =~= ascii_bytes("failed"@));
                }
                "failed"
            },
            TaskState::Cancelled => {
                proof {
                    reveal_strlit("cancelled");
                    assert(vstd::string::is_ascii("cancelled"));
                    assert("cancelled".spec_bytes() =~= ascii_bytes("cancelled"@));
                }
                "cancelled"
            },
            TaskState::Interrupted => {
                proof {
                    reveal_strlit("interrupted");
                    assert(vstd::string::is_ascii("interrupted"));
                    assert("interrupted".spec_bytes() =~= ascii_bytes("interrupted"@));
                }
                "interrupted"
            },
        }
    }

    /// Parses a stored or wire state name.
    pub fn parse(s: &str) -> (r: Option<TaskState>)
        ensures
            match r {
                Some(t) => s.spec_bytes() == ascii_bytes(state_name(t)),
                None => forall|t: TaskState| s.spec_bytes() != ascii_bytes(state_name(t)),
            },
            forall|t: TaskState| s.spec_bytes() == ascii_bytes(state_name(t)) ==> r == Some(t),
    {
        let all = [
            TaskState::Created,
            TaskState::Queued,
            TaskState::Starting,
            TaskState::Running,
            TaskState::Waiting,
            TaskState::Paused,
            TaskState::Reconciling,
            TaskState::Cancelling,
            TaskState::Succeeded,
            TaskState::Failed,
            TaskState::Cancelled,
            TaskState::Interrupted,
        ];
        let mut i: usize = 0;
        while i < 12
            invariant
                all@.len() == 12,
                all@ == seq![
                    TaskState::Created,
                    TaskState::Queued,
                    TaskState::Starting,
                    TaskState::Running,
                    TaskState::Waiting,
                    TaskState::Paused,
                    TaskState::Reconciling,
                    TaskState::Cancelling,
                    TaskState::Succeeded,
                    TaskState::Failed,
                    TaskState::Cancelled,
                    TaskState::Interrupted,
                ],
                forall|k: int| 0 <= k < i ==> s.spec_bytes() != ascii_bytes(state_name(#[trigger] all@[k])),
                i <= 12,
            decreases 12 - i,
        {
            let candidate = all[i];
            if str_equal(s, candidate.as_str()) {
                proof {
                    assert forall|t: TaskState| s.spec_bytes() == ascii_bytes(state_name(t)) implies t == candidate by {
                        if t != candidate {
                            law_state_names_distinct(t, candidate);
                        }
                    }
                }
                return Some(candidate);
            }
            i = i + 1;
        }
        assert forall|t: TaskState| s.spec_bytes() != ascii_bytes(state_name(t)) by {
            let k: int = match t {
                TaskState::Created => 0,
                TaskState::Queued => 1,
                TaskState::Starting => 2,
                TaskState::Running => 3,
                TaskState::Waiting => 4,
                TaskState::Paused => 5,
                TaskState::Reconciling => 6,
                TaskState::Cancelling => 7,
                TaskState::Succeeded => 8,
                TaskState::Failed => 9,
                TaskState::Cancelled => 10,
                TaskState::Interrupted => 11,
            };
            assert(all@[k] == t);
        }
        None
    }
}

/// Whether `to` may follow `from` in the task lifecycle.
pub fn can_transition(from: TaskState, to: TaskState) -> (r: bool)
    ensures
        r == transition_allowed(from, to),
{
    match from {
        TaskState::Created => matches!(to, TaskState::Queued | TaskState::Starting | TaskState::Cancelling),
        TaskState::Queued => matches!(
            to,
            TaskState::Starting | TaskState::Cancelling | TaskState::Failed | TaskState::Reconciling
        ),
        TaskState::Starting => matches!(
            to,
            TaskState::Running | TaskState::Waiting | TaskState::Cancelling | TaskState::Failed
                | TaskState::Reconciling
        ),
        TaskState::Running => matches!(
            to,
            TaskState::Waiting | TaskState::Paused | TaskState::Cancelling | TaskState::Succeeded
                | TaskState::Failed | TaskState::Reconciling
        ),
        TaskState::Waiting => matches!(
            to,
            TaskState::Running | TaskState::Cancelling | TaskState::Failed | TaskState::Reconciling
        ),
        TaskState::Paused => matches!(
            to,
            TaskState::Running | TaskState::Queued | TaskState::Cancelling | TaskState::Reconciling
        ),
        TaskState::Reconciling => matches!(
            to,
            TaskState::Running | TaskState::Waiting | TaskState::Paused | TaskState::Cancelling
                | TaskState::Succeeded | TaskState::Failed | TaskState::Cancelled
                | TaskState::Interrupted
        ),
        TaskState::Cancelling => matches!(
            to,
            TaskState::Cancelled | TaskState::Running | TaskState::Reconciling | TaskState::Failed
        ),
        TaskState::Succeeded | TaskState::Failed | TaskState::Cancelled
        | TaskState::Interrupted => false,
    }
}

/// Law: a terminal state has no successor.
pub proof fn law_terminal_states_are_final(from: TaskState, to: TaskState)
    requires
        is_terminal_state(from),
    ensures
        !transition_allowed(from, to),
{
}

/// Law: no state may transition to itself.
pub proof fn law_no_self_transition(s: TaskState)
    ensures
        !transition_allowed(s, s),
{
}

/// Law: every live state other than `cancelling` may move to `cancelling`.
pub proof fn law_cancellation_requestable(s: TaskState)
    requires
        !is_terminal_state(s),
        !(s is Cancelling),
    ensures
        transition_allowed(s, TaskState::Cancelling),
{
}

/// Law: every live state reaches a terminal state in at most two transitions.
pub proof fn law_live_states_can_finish(s: TaskState)
    requires
        !is_terminal_state(s),
    ensures
        exists|m: TaskState, t: TaskState|
            #![trigger transition_allowed(s, m), is_terminal_state(t)]
            is_terminal_state(t) && transition_allowed(s, m) && (m == t || transition_allowed(m, t)),
{
    let m = TaskState::Cancelling;
    let t = TaskState::Cancelled;
    assert(is_terminal_state(t));
    if s is Cancelling {
        assert(transition_allowed(s, t) && t == t);
    } else {
        assert(transition_allowed(s, m) && transition_allowed(m, t));
    }
}

/// Law: a running task's interruptions are resumable: every live state a
/// running task may move to (waiting, paused, cancelling, reconciling) may
/// move back to running.
pub proof fn law_running_interruptions_resume(s: TaskState)
    requires
        transition_allowed(TaskState::Running, s),
        !is_terminal_state(s),
    ensures
        transition_allowed(s, TaskState::Running),
{
}

/// Law: the states each state may be entered from. A task is never created
/// again; it is queued from creation or a pause; it starts from creation or
/// the queue; it runs after starting, waiting, a pause, reconciliation or a
/// withdrawn cancellation; it waits after starting, running or
/// reconciliation; it pauses while running or reconciling; any live state but
/// cancellation itself may ask for cancellation; it succeeds only from
/// running or reconciliation; it fails from any live state but creation and a
/// pause; it is cancelled only through cancellation or reconciliation; it is
/// interrupted only by reconciliation; and any live state past creation but
/// reconciliation itself may be reconciled.
pub proof fn law_entry_states(from: TaskState, to: TaskState)
    ensures
        to is Created ==> !transition_allowed(from, to),
        to is Queued ==> (transition_allowed(from, to) <==> (from is Created || from is Paused)),
        to is Starting ==> (transition_allowed(from, to) <==> (from is Created || from is Queued)),
        to is Running ==> (transition_allowed(from, to) <==> (from is Starting || from is Waiting
            || from is Paused || from is Reconciling || from is Cancelling)),
        to is Waiting ==> (transition_allowed(from, to) <==> (from is Starting || from is Running
            || from is Reconciling)),
        to is Paused ==> (transition_allowed(from, to) <==> (from is Running || from is Reconciling)),
        to is Cancelling ==> (transition_allowed(from, to) <==> (!is_terminal_state(from)
            && !(from is Cancelling))),
        to is Succeeded ==> (transition_allowed(from, to) <==> (from is Running || from is Reconciling)),
        to is Failed ==> (transition_allowed(from, to) <==> (!is_terminal_state(from) && !(from is Created)
            && !(from is Paused))),
        to is Cancelled ==> (transition_allowed(from, to) <==> (from is Cancelling || from is Reconciling)),
        to is Interrupted ==> (transition_allowed(from, to) <==> from is Reconciling),
        to is Reconciling ==> (transition_allowed(from, to) <==> (!is_terminal_state(from)
            && !(from is Created) && !(from is Reconciling))),
{
}

/// Law: every state name parses back to the state it names.
pub proof fn law_state_names_distinct(a: TaskState, b: TaskState)
    requires
        a != b,
    ensures
        ascii_bytes(state_name(a)) != ascii_bytes(state_name(b)),
{
    reveal_strlit("created");
    reveal_strlit("queued");
    reveal_strlit("starting");
    reveal_strlit("running");
    reveal_strlit("waiting");
    reveal_strlit("paused");
    reveal_strlit("reconciling");
    reveal_strlit("cancelling");
    reveal_strlit("succeeded");
    reveal_strlit("failed");
    reveal_strlit("cancelled");
    reveal_strlit("interrupted");
    let x = ascii_bytes(state_name(a));
    let y = ascii_bytes(state_name(b));
    if x.len() == y.len() {
        assert(x[0] != y[0]);
    }
}

/// The durable lifecycle fields a transition rewrites.
#[derive(Clone, Copy, Debug, PartialEq, Eq, Structural)]
pub struct TaskTimeline {
    pub state: TaskState,
    pub last_event_sequence: u64,
    pub started_at_ms: Option<i64>,
    pub finished_at_ms: Option<i64>,
}

pub open spec fn saturating_inc(x: u64) -> u64 {
    if x == u64::MAX {
        x
    } else {
        (x + 1) as u64
    }
}

/// The timeline after a committed transition to `next` at time `at`.
pub open spec fn advanced_timeline(cur: TaskTimeline, next: TaskState, at: i64) -> TaskTimeline {
    TaskTimeline {
        state: next,
        last_event_sequence: saturating_inc(cur.last_event_sequence),
        started_at_ms: if next is Running && cur.started_at_ms is None {
            Some(at)
        } else {
            cur.started_at_ms
        },
        finished_at_ms: if is_terminal_state(next) {
            Some(at)
        } else {
            cur.finished_at_ms
        },
    }
}

/// Why a lifecycle operation on a task was refused.
#[derive(Clone, Copy, Debug, PartialEq, Eq, Structural)]
pub enum TaskError {
    InvalidTransition { from: TaskState, to: TaskState },
    PreconditionFailed { expected: TaskState, found: TaskState },
    NotFound,
    TerminalTask,
    NoCancellableBackend,
    BackendDetached,
    InvalidSpec(SpecProblem),
}

/// Which part of a managed or associated execution spec is invalid.
#[derive(Clone, Copy, Debug, PartialEq, Eq, Structural)]
pub enum SpecProblem {
    EmptyProgram,
    EmptyBackendRef,
    TooManyArguments,
    ArgumentTooLong,
    ArgumentsTooLong,
    EmptyAssociation,
}

/// Applies a compare-and-set state change to the stored lifecycle fields: the
/// stored state must equal `expected`.
pub fn apply_transition(cur: &TaskTimeline, expected: TaskState, next: TaskState, at: i64) -> (r:
    Result<TaskTimeline, TaskError>)
    ensures
        cur.state == expected ==> r == Ok::<TaskTimeline, TaskError>(advanced_timeline(*cur, next, at)),
        cur.state != expected ==> r == Err::<TaskTimeline, TaskError>(
            TaskError::PreconditionFailed { expected, found: cur.state },
        ),
{
    if cur.state != expected {
        return Err(TaskError::PreconditionFailed { expected, found: cur.state });
    }
    let sequence = cur.last_event_sequence.saturating_add(1);
    let started = if next == TaskState::Running && cur.started_at_ms.is_none() {
        Some(at)
    } else {
        cur.started_at_ms
    };
    let finished = if next.is_terminal() {
        Some(at)
    } else {
        cur.finished_at_ms
    };
    Ok(TaskTimeline {
        state: next,
        last_event_sequence: sequence,
        started_at_ms: started,
        finished_at_ms: finished,
    })
}

/// The engine's transition: the relation is checked first, then the stored
/// state is compared with `from`.
pub fn engine_transition(cur: &TaskTimeline, from: TaskState, to: TaskState, at: i64) -> (r:
    Result<TaskTimeline, TaskError>)
    ensures
        !transition_allowed(from, to) ==> r == Err::<TaskTimeline, TaskError>(
            TaskError::InvalidTransition { from, to },
        ),
        transition_allowed(from, to) && cur.state != from ==> r == Err::<TaskTimeline, TaskError>(
            TaskError::PreconditionFailed { expected: from, found: cur.state },
        ),
        transition_allowed(from, to) && cur.state == from ==> r == Ok::<TaskTimeline, TaskError>(
            advanced_timeline(*cur, to, at),
        ),
{
    if !can_transition(from, to) {
        return Err(TaskError::InvalidTransition { from, to });
    }
    apply_transition(cur, from, to, at)
}

/// Law: an accepted engine transition follows the lifecycle relation, bumps the
/// event sequence, and never rewrites a recorded start time.
pub proof fn law_engine_transition_is_monotone(cur: TaskTimeline, to: TaskState, at: i64)
    requires
        transition_allowed(cur.state, to),
        cur.last_event_sequence < u64::MAX,
    ensures
        advanced_timeline(cur, to, at).last_event_sequence == cur.last_event_sequence + 1,
        cur.started_at_ms is Some ==> advanced_timeline(cur, to, at).started_at_ms
            == cur.started_at_ms,
        !is_terminal_state(cur.state),
        is_terminal_state(to) ==> advanced_timeline(cur, to, at).finished_at_ms == Some(at),
{
}

/// A field of a task record or transition that failed validation.
#[derive(Clone, Copy, Debug, PartialEq, Eq, Structural)]
pub enum TaskField {
    Objective,
    Title,
    RequesterSurface,
    ProjectRef,
    SessionRef,
    WorkspacePath,
    DisplayName,
    SessionKind,
    SessionName,
    WorkingDirectory,
    Role,
    ModelName,
    StatusObservation,
    StateReason,
    ResultSummary,
    EventKind,
    EventSummary,
    SourceRef,
    EventData,
    BackendRef,
    GenerationRef,
    CorrelationRef,
    Outcome,
    FailureClassification,
    PageLimit,
    ProjectFilter,
}

/// `value` is present-and-valid under [`bounded_nonblank`], or absent.
pub open spec fn optional_ok(value: Option<&str>, max: nat) -> bool {
    match value {
        Some(v) => bounded_nonblank(v, max),
        None => true,
    }
}

pub fn check_optional(value: Option<&str>, max: usize) -> (r: bool)
    ensures
        r == optional_ok(value, max as nat),
{
    match value {
        Some(v) => check_bounded_nonblank(v, max),
        None => true,
    }
}

/// The fields a transition records next to the state change.
pub struct TransitionText<'a> {
    pub state_reason: Option<&'a str>,
    pub result_summary: Option<&'a str>,
    pub event_kind: &'a str,
    pub event_summary: Option<&'a str>,
    pub source_ref: Option<&'a str>,
    pub event_data: &'a SafeData,
}

/// The first invalid field of a transition, in the order they are checked.
pub open spec fn transition_text_problem(t: TransitionText) -> Option<TaskField> {
    if !optional_ok(t.state_reason, MAX_TASK_REASON_BYTES as nat) {
        Some(TaskField::StateReason)
    } else if !optional_ok(t.result_summary, MAX_TASK_RESULT_BYTES as nat) {
        Some(TaskField::ResultSummary)
    } else if !bounded_nonblank(t.event_kind, MAX_TASK_EVENT_KIND_BYTES as nat) {
        Some(TaskField::EventKind)
    } else if !optional_ok(t.event_summary, MAX_TASK_EVENT_SUMMARY_BYTES as nat) {
        Some(TaskField::EventSummary)
    } else if !optional_ok(t.source_ref, MAX_TASK_REF_BYTES as nat) {
        Some(TaskField::SourceRef)
    } else if json_len(*t.event_data) > MAX_TASK_EVENT_DATA_BYTES {
        Some(TaskField::EventData)
    } else {
        None
    }
}

pub fn validate_transition_text(t: &TransitionText) -> (r: Result<(), TaskField>)
    ensures
        match transition_text_problem(*t) {
            Some(f) => r == Err::<(), TaskField>(f),
            None => r is Ok,
        },
{
    if !check_optional(t.state_reason, MAX_TASK_REASON_BYTES) {
        return Err(TaskField::StateReason);
    }
    if !check_optional(t.result_summary, MAX_TASK_RESULT_BYTES) {
        return Err(TaskField::ResultSummary);
    }
    if !check_bounded_nonblank(t.event_kind, MAX_TASK_EVENT_KIND_BYTES) {
        return Err(TaskField::EventKind);
    }
    if !check_optional(t.event_summary, MAX_TASK_EVENT_SUMMARY_BYTES) {
        return Err(TaskField::EventSummary);
    }
    if !check_optional(t.source_ref, MAX_TASK_REF_BYTES) {
        return Err(TaskField::SourceRef);
    }
    if json_len_capped(t.event_data, MAX_TASK_EVENT_DATA_BYTES) > MAX_TASK_EVENT_DATA_BYTES {
        return Err(TaskField::EventData);
    }
    Ok(())
}

/// The text fields of a new task record.
pub struct NewTaskText<'a> {
    pub objective_summary: &'a str,
    pub title: Option<&'a str>,
    pub requester_surface: &'a str,
}

pub open spec fn new_task_problem(t: NewTaskText) -> Option<TaskField> {
    if !bounded_nonblank(t.objective_summary, MAX_TASK_OBJECTIVE_BYTES as nat) {
        Some(TaskField::Objective)
    } else if !optional_ok(t.title, MAX_TASK_TITLE_BYTES as nat) {
        Some(TaskField::Title)
    } else if !bounded_nonblank(t.requester_surface, MAX_REQUESTER_SURFACE_BYTES as nat) {
        Some(TaskField::RequesterSurface)
    } else {
        None
    }
}

pub fn validate_new_task(t: &NewTaskText) -> (r: Result<(), TaskField>)
    ensures
        match new_task_problem(*t) {
            Some(f) => r == Err::<(), TaskField>(f),
            None => r is Ok,
        },
{
    if !check_bounded_nonblank(t.objective_summary, MAX_TASK_OBJECTIVE_BYTES) {
        return Err(TaskField::Objective);
    }
    if !check_optional(t.title, MAX_TASK_TITLE_BYTES) {
        return Err(TaskField::Title);
    }
    if !check_bounded_nonblank(t.requester_surface, MAX_REQUESTER_SURFACE_BYTES) {
        return Err(TaskField::RequesterSurface);
    }
    Ok(())
}

/// A page size for task listings and task event pages must lie in `1..=200`.
pub open spec fn page_limit_ok(limit: u16) -> bool {
    1 <= limit <= MAX_TASK_PAGE
}

pub fn check_page_limit(limit: u16) -> (r: bool)
    ensures
        r == page_limit_ok(limit),
{
    limit >= 1 && limit <= MAX_TASK_PAGE
}

/// A project registration: its reference and workspace path are required,
/// its display name optional.
pub open spec fn project_problem(project_ref: &str, workspace_path: &str, display_name: Option<&str>) -> Option<
    TaskField,
> {
    if !bounded_nonblank(project_ref, MAX_TASK_REF_BYTES as nat) {
        Some(TaskField::ProjectRef)
    } else if !bounded_nonblank(workspace_path, MAX_TASK_REF_BYTES as nat) {
        Some(TaskField::WorkspacePath)
    } else if !optional_ok(display_name, MAX_TASK_TITLE_BYTES as nat) {
        Some(TaskField::DisplayName)
    } else {
        None
    }
}

pub fn validate_project(project_ref: &str, workspace_path: &str, display_name: Option<&str>) -> (r: Result<
    (),
    TaskField,
>)
    ensures
        match project_problem(project_ref, workspace_path, display_name) {
            Some(f) => r == Err::<(), TaskField>(f),
            None => r is Ok,
        },
{
    if !check_bounded_nonblank(project_ref, MAX_TASK_REF_BYTES) {
        return Err(TaskField::ProjectRef);
    }
    if !check_bounded_nonblank(workspace_path, MAX_TASK_REF_BYTES) {
        return Err(TaskField::WorkspacePath);
    }
    if !check_optional(display_name, MAX_TASK_TITLE_BYTES) {
        return Err(TaskField::DisplayName);
    }
    Ok(())
}

pub const MAX_SESSION_KIND_BYTES: usize = 64;
pub const MAX_SESSION_LABEL_BYTES: usize = 128;

/// The text fields of a session reference.
pub struct SessionText<'a> {
    pub session_ref: &'a str,
    pub session_kind: &'a str,
    pub session_name: Option<&'a str>,
    pub working_directory: Option<&'a str>,
    pub role: Option<&'a str>,
    pub model_name: Option<&'a str>,
    pub status_observation: Option<&'a str>,
}

pub open spec fn session_problem(t: SessionText) -> Option<TaskField> {
    if !bounded_nonblank(t.session_ref, MAX_TASK_REF_BYTES as nat) {
        Some(TaskField::SessionRef)
    } else if !bounded_nonblank(t.session_kind, MAX_SESSION_KIND_BYTES as nat) {
        Some(TaskField::SessionKind)
    } else if !optional_ok(t.session_name, MAX_TASK_TITLE_BYTES as nat) {
        Some(TaskField::SessionName)
    } else if !optional_ok(t.working_directory, MAX_TASK_REF_BYTES as nat) {
        Some(TaskField::WorkingDirectory)
    } else if !optional_ok(t.role, MAX_SESSION_LABEL_BYTES as nat) {
        Some(TaskField::Role)
    } else if !optional_ok(t.model_name, MAX_SESSION_LABEL_BYTES as nat) {
        Some(TaskField::ModelName)
    } else if !optional_ok(t.status_observation, MAX_SESSION_LABEL_BYTES as nat) {
        Some(TaskField::StatusObservation)
    } else {
        None
    }
}

pub fn validate_session_reference(t: &SessionText) -> (r: Result<(), TaskField>)
    ensures
        match session_problem(*t) {
            Some(f) => r == Err::<(), TaskField>(f),
            None => r is Ok,
        },
{
    if !check_bounded_nonblank(t.session_ref, MAX_TASK_REF_BYTES) {
        return Err(TaskField::SessionRef);
    }
    if !check_bounded_nonblank(t.session_kind, MAX_SESSION_KIND_BYTES) {
        return Err(TaskField::SessionKind);
    }
    if !check_optional(t.session_name, MAX_TASK_TITLE_BYTES) {
        return Err(TaskField::SessionName);
    }
    if !check_optional(t.working_directory, MAX_TASK_REF_BYTES) {
        return Err(TaskField::WorkingDirectory);
    }
    if !check_optional(t.role, MAX_SESSION_LABEL_BYTES) {
        return Err(TaskField::Role);
    }
    if !check_optional(t.model_name, MAX_SESSION_LABEL_BYTES) {
        return Err(TaskField::ModelName);
    }
    if !check_optional(t.status_observation, MAX_SESSION_LABEL_BYTES) {
        return Err(TaskField::StatusObservation);
    }
    Ok(())
}

/// An execution relationship names its backend and generation; a correlation
/// reference is optional.
pub open spec fn relationship_problem(backend_ref: &str, generation_ref: &str, correlation_ref: Option<&str>) -> Option<
    TaskField,
> {
    if !bounded_nonblank(backend_ref, MAX_TASK_REF_BYTES as nat) {
        Some(TaskField::BackendRef)
    } else if !bounded_nonblank(generation_ref, MAX_TASK_REF_BYTES as nat) {
        Some(TaskField::GenerationRef)
    } else if !optional_ok(correlation_ref, MAX_TASK_REF_BYTES as nat) {
        Some(TaskField::CorrelationRef)
    } else {
        None
    }
}

pub fn validate_relationship(backend_ref: &str, generation_ref: &str, correlation_ref: Option<&str>) -> (r: Result<
    (),
    TaskField,
>)
    ensures
        match relationship_problem(backend_ref, generation_ref, correlation_ref) {
            Some(f) => r == Err::<(), TaskField>(f),
            None => r is Ok,
        },
{
    if !check_bounded_nonblank(backend_ref, MAX_TASK_REF_BYTES) {
        return Err(TaskField::BackendRef);
    }
    if !check_bounded_nonblank(generation_ref, MAX_TASK_REF_BYTES) {
        return Err(TaskField::GenerationRef);
    }
    if !check_optional(correlation_ref, MAX_TASK_REF_BYTES) {
        return Err(TaskField::CorrelationRef);
    }
    Ok(())
}

} // verus!
