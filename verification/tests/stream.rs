use portus_runtime::runtime::SemanticErrorCode;
use portus_runtime::stream::{
    select_new_events, StreamFailure, StreamNext, StreamPage, StreamPhase, TaskEventStream,
    WaitOutcome,
};
use portus_runtime::task::TaskState;

fn page(sequences: Vec<u64>, latest: u64, has_next: bool, terminal: Option<TaskState>) -> StreamPage {
    StreamPage {
        sequences,
        gap_before_page: false,
        retained_from_sequence: 1,
        latest_sequence: latest,
        has_next,
        terminal_state: terminal,
    }
}

#[test]
fn events_are_written_once_and_in_order() {
    let (idx, after) = select_new_events(3, &vec![2, 3, 4, 4, 6, 5, 7]);
    assert_eq!(idx, vec![2, 4, 6]);
    assert_eq!(after, 7);
    let (idx, after) = select_new_events(9, &vec![1, 2]);
    assert!(idx.is_empty());
    assert_eq!(after, 9);
}

#[test]
fn task_events_stream_ends_on_terminal_task_once_caught_up() {
    let (mut s, next) = TaskEventStream::start(Some(2));
    assert_eq!(next, StreamNext::Fetch);
    assert_eq!(s.after, 2);
    let (idx, next) = s.on_page(&Ok(page(vec![3, 4], 5, true, None)));
    assert_eq!(idx, vec![0, 1]);
    assert_eq!(next, StreamNext::Fetch);
    let (idx, next) = s.on_page(&Ok(page(vec![5], 5, false, None)));
    assert_eq!(idx, vec![0]);
    assert_eq!(next, StreamNext::Wait);
    assert_eq!(s.phase, StreamPhase::Waiting);
    assert_eq!(s.on_wait(WaitOutcome::Woken), StreamNext::Fetch);
    let (idx, next) = s.on_page(&Ok(page(vec![6], 6, false, Some(TaskState::Succeeded))));
    assert_eq!(idx, vec![0]);
    assert_eq!(next, StreamNext::End(TaskState::Succeeded));
    assert_eq!(s.phase, StreamPhase::Done);
    assert_eq!(s.after, 6);
}

#[test]
fn task_events_rpc_rejects_a_resume_point_older_than_retention_in_the_stream() {
    let (mut s, _) = TaskEventStream::start(Some(1));
    let mut p = page(vec![10], 20, false, None);
    p.gap_before_page = true;
    p.retained_from_sequence = 8;
    let (idx, next) = s.on_page(&Ok(p));
    assert!(idx.is_empty());
    assert_eq!(
        next,
        StreamNext::Fail(StreamFailure::Stale { requested_after: 1, retained_from: 8, latest: 20 })
    );
    if let StreamNext::Fail(f) = next {
        assert_eq!(f.code(), SemanticErrorCode::StaleResource);
        assert!(!f.retryable());
    }
}

#[test]
fn idle_stream_gets_one_last_page_then_times_out_or_ends() {
    let (mut s, _) = TaskEventStream::start(None);
    let (_, next) = s.on_page(&Ok(page(vec![], 0, false, None)));
    assert_eq!(next, StreamNext::Wait);
    assert_eq!(s.on_wait(WaitOutcome::TimedOut), StreamNext::Fetch);
    assert_eq!(s.phase, StreamPhase::FinalFetch);
    let (_, next) = s.on_page(&Ok(page(vec![], 0, true, None)));
    assert_eq!(next, StreamNext::Fail(StreamFailure::IdleTimeout));
    if let StreamNext::Fail(f) = next {
        assert_eq!(f.code(), SemanticErrorCode::Timeout);
        assert!(f.retryable());
    }

    let (mut s, _) = TaskEventStream::start(None);
    let _ = s.on_page(&Ok(page(vec![], 0, false, None)));
    let _ = s.on_wait(WaitOutcome::TimedOut);
    let (idx, next) = s.on_page(&Ok(page(vec![1], 1, false, Some(TaskState::Cancelled))));
    assert_eq!(idx, vec![0]);
    assert_eq!(next, StreamNext::End(TaskState::Cancelled));

    let (mut s, _) = TaskEventStream::start(None);
    let _ = s.on_page(&Ok(page(vec![], 0, false, None)));
    let _ = s.on_wait(WaitOutcome::TimedOut);
    let mut p = page(vec![], 9, false, None);
    p.gap_before_page = true;
    assert_eq!(s.on_page(&Ok(p)).1, StreamNext::Fail(StreamFailure::PrunedWhileIdle));
}

#[test]
fn lost_wakeups_and_fetch_errors_end_the_stream() {
    let (mut s, _) = TaskEventStream::start(None);
    let _ = s.on_page(&Ok(page(vec![], 0, false, None)));
    assert_eq!(s.on_wait(WaitOutcome::Disconnected), StreamNext::Fail(StreamFailure::WakeupLost));
    let (mut s, _) = TaskEventStream::start(None);
    let (_, next) = s.on_page(&Err(SemanticErrorCode::NotFound));
    assert_eq!(next, StreamNext::Fail(StreamFailure::Fetch(SemanticErrorCode::NotFound)));
    assert_eq!(s.phase, StreamPhase::Done);
}

#[test]
fn terminal_task_with_unwritten_history_keeps_following() {
    let (mut s, _) = TaskEventStream::start(Some(0));
    let (_, next) = s.on_page(&Ok(page(vec![1], 3, false, Some(TaskState::Failed))));
    assert_eq!(next, StreamNext::Wait);
}
