use portus_runtime::safety::SafeData;
use portus_runtime::task::{
    apply_transition, can_transition, engine_transition, check_page_limit, validate_new_task, validate_project,
    validate_relationship, validate_session_reference, validate_transition_text, NewTaskText,
    SessionText, TaskError, TaskField, TaskState, TaskTimeline, TransitionText,
};

#[test]
fn legal_and_illegal_transitions_match_locked_state_machine() {
    assert!(can_transition(TaskState::Created, TaskState::Starting));
    assert!(can_transition(TaskState::Running, TaskState::Cancelling));
    assert!(can_transition(TaskState::Reconciling, TaskState::Interrupted));
    assert!(!can_transition(TaskState::Succeeded, TaskState::Running));
    assert!(!can_transition(TaskState::Created, TaskState::Succeeded));
}

const ALL: [TaskState; 12] = [
    TaskState::Created,
    TaskState::Queued,
    TaskState::Starting,
    TaskState::Running,
    TaskState::Waiting,
    TaskState::Paused,
    TaskState::Reconciling,
    TaskState::Cancelling,
    TaskState::Succeeded,
    TaskState::Failed,
    TaskState::Cancelled,
    TaskState::Interrupted,
];

#[test]
fn state_names_round_trip_and_unknown_names_are_rejected() {
    for state in ALL {
        assert_eq!(TaskState::parse(state.as_str()), Some(state));
    }
    assert_eq!(TaskState::Cancelling.as_str(), "cancelling");
    assert_eq!(TaskState::parse("done"), None);
    assert_eq!(TaskState::parse("Running"), None);
}

#[test]
fn terminal_states_have_no_successor_and_no_state_loops_to_itself() {
    for from in ALL {
        assert!(!can_transition(from, from));
        if from.is_terminal() {
            for to in ALL {
                assert!(!can_transition(from, to));
            }
        } else if from != TaskState::Cancelling {
            assert!(can_transition(from, TaskState::Cancelling));
        }
    }
}

fn timeline(state: TaskState) -> TaskTimeline {
    TaskTimeline { state, last_event_sequence: 3, started_at_ms: None, finished_at_ms: None }
}

#[test]
fn transition_requires_the_expected_state() {
    let cur = timeline(TaskState::Running);
    match apply_transition(&cur, TaskState::Waiting, TaskState::Running, 20) {
        Err(TaskError::PreconditionFailed { expected, found }) => {
            assert_eq!(expected, TaskState::Waiting);
            assert_eq!(found, TaskState::Running);
        }
        other => panic!("unexpected {:?}", other),
    }
    let next = apply_transition(&cur, TaskState::Running, TaskState::Succeeded, 20).unwrap();
    assert_eq!(next.state, TaskState::Succeeded);
    assert_eq!(next.finished_at_ms, Some(20));
    assert_eq!(next.last_event_sequence, 4);
    assert_eq!(next.started_at_ms, None);
}

#[test]
fn illegal_transition_is_a_conflict() {
    let cur = timeline(TaskState::Succeeded);
    assert!(matches!(
        engine_transition(&cur, TaskState::Succeeded, TaskState::Running, 20),
        Err(TaskError::InvalidTransition { from: TaskState::Succeeded, to: TaskState::Running })
    ));
    let started = engine_transition(&timeline(TaskState::Starting), TaskState::Starting, TaskState::Running, 7).unwrap();
    assert_eq!(started.started_at_ms, Some(7));
}

#[test]
fn task_text_is_bounded_and_non_blank() {
    let ok = NewTaskText { objective_summary: "build", title: None, requester_surface: "cli" };
    assert!(validate_new_task(&ok).is_ok());
    let blank = NewTaskText { objective_summary: "   ", title: None, requester_surface: "cli" };
    assert_eq!(validate_new_task(&blank), Err(TaskField::Objective));
    let long_surface = "x".repeat(65);
    let bad = NewTaskText { objective_summary: "build", title: Some(""), requester_surface: &long_surface };
    assert_eq!(validate_new_task(&bad), Err(TaskField::Title));
    let large = SafeData::Str("x".repeat(4095));
    let data = TransitionText {
        state_reason: None,
        result_summary: None,
        event_kind: "task.running",
        event_summary: None,
        source_ref: None,
        event_data: &large,
    };
    assert_eq!(validate_transition_text(&data), Err(TaskField::EventData));
    let fitting = SafeData::Str("x".repeat(4094));
    let data = TransitionText { event_data: &fitting, ..data };
    assert_eq!(validate_transition_text(&data), Ok(()));
    assert!(check_page_limit(200));
    assert!(!check_page_limit(0));
    assert!(!check_page_limit(201));
}

#[test]
fn project_session_and_relationship_fields_are_checked_in_order() {
    assert!(validate_project("proj", "/home/u/proj", Some("Project")).is_ok());
    assert_eq!(validate_project("proj", " ", None), Err(TaskField::WorkspacePath));
    let session = SessionText {
        session_ref: "s1",
        session_kind: "agent",
        session_name: None,
        working_directory: None,
        role: Some(""),
        model_name: None,
        status_observation: None,
    };
    assert_eq!(validate_session_reference(&session), Err(TaskField::Role));
    assert_eq!(validate_relationship("pid:1", "", None), Err(TaskField::GenerationRef));
    assert!(validate_relationship("pid:1", "boot:1", Some("corr")).is_ok());
}
