use portus_runtime::event_log::{
    next_object_sequence, page_meta, prune_cutoff, task_page_tail, validate_event,
    validate_page_request, EventProblem, NewEventFields,
};
use portus_runtime::safety::SafeData;
use portus_runtime::task::TaskState;

fn fields<'a>(data: &'a SafeData) -> NewEventFields<'a> {
    NewEventFields {
        object_ref: "task-1",
        event_kind: "task.running",
        reason_code: None,
        source_ref: Some("portus-state"),
        safe_summary: Some("running"),
        safe_data: data,
    }
}

#[test]
fn event_fields_are_bounded_single_line_and_secret_free() {
    let empty = SafeData::Object(vec![]);
    assert_eq!(validate_event(&fields(&empty)), Ok(()));
    let mut f = fields(&empty);
    f.event_kind = "two\nlines";
    assert_eq!(validate_event(&f), Err(EventProblem::EventKind));
    let mut f = fields(&empty);
    f.safe_summary = Some("Authorization: Bearer x");
    assert_eq!(validate_event(&f), Err(EventProblem::SecretText));
    let secret = SafeData::Object(vec![("password".to_string(), SafeData::Str("x".to_string()))]);
    assert_eq!(validate_event(&fields(&secret)), Err(EventProblem::SecretData));
    // {"k":"…"} is the string's length plus eight bytes.
    let fits = SafeData::Object(vec![("k".to_string(), SafeData::Str("x".repeat(4088)))]);
    assert_eq!(validate_event(&fields(&fits)), Ok(()));
    let too_large = SafeData::Object(vec![("k".to_string(), SafeData::Str("x".repeat(4089)))]);
    assert_eq!(validate_event(&fields(&too_large)), Err(EventProblem::DataTooLarge));
}

#[test]
fn retention_is_bounded_and_gap_is_explicit() {
    assert_eq!(prune_cutoff(512), None);
    assert_eq!(prune_cutoff(600), Some(88));
    assert_eq!(next_object_sequence(7), Ok(8));
    assert_eq!(next_object_sequence(u64::MAX), Err(EventProblem::SequenceOverflow));
    let meta = page_meta(&vec![90, 91, 92], Some(89), Some(600), Some(10), 2);
    assert_eq!(meta.kept, 2);
    assert!(meta.gap_before_page);
    assert_eq!(meta.next_sequence, Some(91));
    assert_eq!(meta.latest_sequence, 600);
    let meta = page_meta(&vec![11], Some(1), Some(11), Some(10), 5);
    assert!(!meta.gap_before_page);
    assert_eq!(meta.next_sequence, None);
    assert_eq!(validate_page_request("task-1", 0), Err(EventProblem::PageLimit));
    assert_eq!(validate_page_request("", 5), Err(EventProblem::ObjectRef));
    let tail = task_page_tail(4, 9, TaskState::Failed);
    assert_eq!(tail.latest_sequence, 9);
    assert_eq!(tail.terminal_state, Some(TaskState::Failed));
    assert_eq!(task_page_tail(4, 2, TaskState::Running).terminal_state, None);
}
