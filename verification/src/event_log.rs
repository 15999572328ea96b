//! The per-object significant-event log: what an event may hold, how sequence
//! numbers are assigned, how retention prunes old events, and how a page of
//! events is described to a reader resuming from a sequence number.
use vstd::prelude::*;
use crate::json::{json_len, json_len_capped};
use crate::safety::{data_contains_secret_like, data_secret_like, secret_like_text, text_secret_like, SafeData};
use crate::task::{is_terminal_state, TaskState};
use crate::text::{check_single_line_text, single_line_text};
use vstd::string::StringSliceAdditionalSpecFns;

verus! {

pub const MAX_SIGNIFICANT_EVENTS_PER_OBJECT: u64 = 512;
pub const MAX_SIGNIFICANT_EVENT_KIND_BYTES: usize = 128;
pub const MAX_SIGNIFICANT_EVENT_REASON_BYTES: usize = 256;
pub const MAX_SIGNIFICANT_EVENT_REF_BYTES: usize = 512;
pub const MAX_SIGNIFICANT_EVENT_SUMMARY_BYTES: usize = 1024;
pub const MAX_SIGNIFICANT_EVENT_DATA_BYTES: usize = 4096;
pub const MAX_SIGNIFICANT_EVENT_PAGE: u16 = 200;

/// Why an event was refused.
#[derive(Clone, Copy, Debug, PartialEq, Eq, Structural)]
pub enum EventProblem {
    ObjectRef,
    EventKind,
    ReasonCode,
    SourceRef,
    Summary,
    SecretText,
    SecretData,
    DataTooLarge,
    PageLimit,
    SequenceOverflow,
}

/// The fields of a new significant event.
pub struct NewEventFields<'a> {
    pub object_ref: &'a str,
    pub event_kind: &'a str,
    pub reason_code: Option<&'a str>,
    pub source_ref: Option<&'a str>,
    pub safe_summary: Option<&'a str>,
    pub safe_data: &'a SafeData,
}

pub open spec fn optional_line_ok(v: Option<&str>, max: nat) -> bool {
    match v {
        Some(s) => single_line_text(s, max),
        None => true,
    }
}

pub open spec fn optional_secret(v: Option<&str>) -> bool {
    match v {
        Some(s) => text_secret_like(s.spec_bytes()),
        None => false,
    }
}

/// The first problem of an event, in the order the checks run.
pub open spec fn event_problem(e: NewEventFields) -> Option<EventProblem> {
    if !single_line_text(e.object_ref, MAX_SIGNIFICANT_EVENT_REF_BYTES as nat) {
        Some(EventProblem::ObjectRef)
    } else if !single_line_text(e.event_kind, MAX_SIGNIFICANT_EVENT_KIND_BYTES as nat) {
        Some(EventProblem::EventKind)
    } else if !optional_line_ok(e.reason_code, MAX_SIGNIFICANT_EVENT_REASON_BYTES as nat) {
        Some(EventProblem::ReasonCode)
    } else if !optional_line_ok(e.source_ref, MAX_SIGNIFICANT_EVENT_REF_BYTES as nat) {
        Some(EventProblem::SourceRef)
    } else if !optional_line_ok(e.safe_summary, MAX_SIGNIFICANT_EVENT_SUMMARY_BYTES as nat) {
        Some(EventProblem::Summary)
    } else if text_secret_like(e.object_ref.spec_bytes()) || text_secret_like(
        e.event_kind.spec_bytes(),
    ) || optional_secret(e.reason_code) || optional_secret(e.source_ref) || optional_secret(
        e.safe_summary,
    ) {
        Some(EventProblem::SecretText)
    } else if data_secret_like(*e.safe_data) {
        Some(EventProblem::SecretData)
    } else if json_len(*e.safe_data) > MAX_SIGNIFICANT_EVENT_DATA_BYTES {
        Some(EventProblem::DataTooLarge)
    } else {
        None
    }
}

fn check_optional_line(v: Option<&str>, max: usize) -> (r: bool)
    ensures
        r == optional_line_ok(v, max as nat),
{
    match v {
        Some(s) => check_single_line_text(s, max),
        None => true,
    }
}

fn check_optional_secret(v: Option<&str>) -> (r: bool)
    ensures
        r == optional_secret(v),
{
    match v {
        Some(s) => secret_like_text(s),
        None => false,
    }
}

/// Validates a significant event before it is stored.
pub fn validate_event(e: &NewEventFields) -> (r: Result<(), EventProblem>)
    ensures
        match event_problem(*e) {
            Some(p) => r == Err::<(), EventProblem>(p),
            None => r is Ok,
        },
{
    if !check_single_line_text(e.object_ref, MAX_SIGNIFICANT_EVENT_REF_BYTES) {
        return Err(EventProblem::ObjectRef);
    }
    if !check_single_line_text(e.event_kind, MAX_SIGNIFICANT_EVENT_KIND_BYTES) {
        return Err(EventProblem::EventKind);
    }
    if !check_optional_line(e.reason_code, MAX_SIGNIFICANT_EVENT_REASON_BYTES) {
        return Err(EventProblem::ReasonCode);
    }
    if !check_optional_line(e.source_ref, MAX_SIGNIFICANT_EVENT_REF_BYTES) {
        return Err(EventProblem::SourceRef);
    }
    if !check_optional_line(e.safe_summary, MAX_SIGNIFICANT_EVENT_SUMMARY_BYTES) {
        return Err(EventProblem::Summary);
    }
    if secret_like_text(e.object_ref) || secret_like_text(e.event_kind) || check_optional_secret(
        e.reason_code,
    ) || check_optional_secret(e.source_ref) || check_optional_secret(e.safe_summary) {
        return Err(EventProblem::SecretText);
    }
    if data_contains_secret_like(e.safe_data) {
        return Err(EventProblem::SecretData);
    }
    if json_len_capped(e.safe_data, MAX_SIGNIFICANT_EVENT_DATA_BYTES) > MAX_SIGNIFICANT_EVENT_DATA_BYTES {
        return Err(EventProblem::DataTooLarge);
    }
    Ok(())
}

/// The sequence number of the next event of an object whose highest stored
/// sequence is `max_stored` (0 when it has none).
pub fn next_object_sequence(max_stored: u64) -> (r: Result<u64, EventProblem>)
    ensures
        max_stored < u64::MAX ==> r == Ok::<u64, EventProblem>((max_stored + 1) as u64),
        max_stored == u64::MAX ==> r == Err::<u64, EventProblem>(EventProblem::SequenceOverflow),
{
    match max_stored.checked_add(1) {
        Some(n) => Ok(n),
        None => Err(EventProblem::SequenceOverflow),
    }
}

/// Events of an object with a sequence at or below this cutoff are pruned
/// after the event `latest` is stored; `None` means nothing is pruned.
pub open spec fn prune_cutoff_spec(latest: u64) -> Option<u64> {
    if latest <= MAX_SIGNIFICANT_EVENTS_PER_OBJECT {
        None
    } else {
        Some((latest - MAX_SIGNIFICANT_EVENTS_PER_OBJECT) as u64)
    }
}

pub fn prune_cutoff(latest: u64) -> (r: Option<u64>)
    ensures
        r == prune_cutoff_spec(latest),
{
    let cutoff = latest.saturating_sub(MAX_SIGNIFICANT_EVENTS_PER_OBJECT);
    if cutoff == 0 {
        None
    } else {
        Some(cutoff)
    }
}

/// The sequences an object keeps after pruning, when every sequence
/// `1..=latest` was once stored.
pub open spec fn retained_sequences(latest: u64) -> Set<int> {
    match prune_cutoff_spec(latest) {
        None => Set::new(|s: int| 1 <= s <= latest),
        Some(c) => Set::new(|s: int| c < s <= latest),
    }
}

/// Law: retention keeps the newest events, never more than the per-object
/// bound, and always the latest one.
pub proof fn law_retention_is_bounded(latest: u64)
    requires
        latest >= 1,
    ensures
        retained_sequences(latest).contains(latest as int),
        forall|s: int| #[trigger] retained_sequences(latest).contains(s) ==> latest - s
            < MAX_SIGNIFICANT_EVENTS_PER_OBJECT,
        forall|s: int|
            1 <= s <= latest && latest - s < MAX_SIGNIFICANT_EVENTS_PER_OBJECT
                ==> #[trigger] retained_sequences(latest).contains(s),
{
}

/// Description of one page of an object's events.
#[derive(Clone, Copy, Debug, PartialEq, Eq, Structural)]
pub struct PageMeta {
    /// How many of the fetched rows belong to the page.
    pub kept: usize,
    pub retained_from_sequence: Option<u64>,
    pub latest_sequence: u64,
    pub gap_before_page: bool,
    pub next_sequence: Option<u64>,
}

pub open spec fn nonneg(v: Option<i64>) -> Option<u64> {
    match v {
        Some(x) => if x >= 0 {
            Some(x as u64)
        } else {
            None
        },
        None => None,
    }
}

/// A resume point is stale when events after it and before the first retained
/// event were pruned.
pub open spec fn gap_spec(after: Option<u64>, retained_from: Option<u64>) -> bool {
    match (after, retained_from) {
        (Some(a), Some(f)) => a + 1 < f,
        _ => false,
    }
}

pub open spec fn page_meta_spec(
    fetched: Seq<u64>,
    retained_from: Option<i64>,
    latest: Option<i64>,
    after: Option<u64>,
    limit: u16,
) -> PageMeta {
    let has_more = fetched.len() > limit;
    let kept = if has_more {
        limit as int
    } else {
        fetched.len() as int
    };
    let first = nonneg(retained_from);
    PageMeta {
        kept: kept as usize,
        retained_from_sequence: first,
        latest_sequence: match nonneg(latest) {
            Some(l) => l,
            None => 0,
        },
        gap_before_page: gap_spec(after, first),
        next_sequence: if has_more {
            Some(fetched[limit - 1])
        } else {
            None
        },
    }
}

/// Describes a page: `fetched` holds the sequences of up to `limit + 1` rows
/// after the resume point in ascending order; `retained_from` and `latest` are
/// the smallest and largest stored sequences.
pub fn page_meta(
    fetched: &Vec<u64>,
    retained_from: Option<i64>,
    latest: Option<i64>,
    after: Option<u64>,
    limit: u16,
) -> (r: PageMeta)
    requires
        1 <= limit,
    ensures
        r == page_meta_spec(fetched@, retained_from, latest, after, limit),
{
    let has_more = fetched.len() > limit as usize;
    let kept: usize = if has_more {
        limit as usize
    } else {
        fetched.len()
    };
    let first: Option<u64> = match retained_from {
        Some(x) => if x >= 0 {
            Some(x as u64)
        } else {
            None
        },
        None => None,
    };
    let last: u64 = match latest {
        Some(x) => if x >= 0 {
            x as u64
        } else {
            0
        },
        None => 0,
    };
    let gap = match (after, first) {
        (Some(a), Some(f)) => a.saturating_add(1) < f,
        _ => false,
    };
    let next = if has_more {
        Some(fetched[limit as usize - 1])
    } else {
        None
    };
    PageMeta {
        kept,
        retained_from_sequence: first,
        latest_sequence: last,
        gap_before_page: gap,
        next_sequence: next,
    }
}

/// The smallest sequence an object keeps after storing `latest` events.
pub open spec fn first_retained(latest: u64) -> u64 {
    match prune_cutoff_spec(latest) {
        None => 1,
        Some(c) => (c + 1) as u64,
    }
}

/// Law: resuming after sequence `a` reports a gap exactly when some event
/// after `a` has already been pruned.
pub proof fn law_gap_is_explicit(latest: u64, a: u64)
    requires
        latest >= 1,
    ensures
        gap_spec(Some(a), Some(first_retained(latest))) <==> exists|s: int|
            a < s <= latest && !(#[trigger] retained_sequences(latest).contains(s)),
{
    let f = first_retained(latest);
    if a + 1 < f {
        assert(a < a + 1 <= latest && !retained_sequences(latest).contains(a + 1));
    }
}

/// Checks a request for a page of an object's events.
pub open spec fn page_request_problem(object_ref: &str, limit: u16) -> Option<EventProblem> {
    if crate::text::blank(object_ref@) || object_ref.spec_bytes().len()
        > MAX_SIGNIFICANT_EVENT_REF_BYTES {
        Some(EventProblem::ObjectRef)
    } else if limit == 0 || limit > MAX_SIGNIFICANT_EVENT_PAGE {
        Some(EventProblem::PageLimit)
    } else {
        None
    }
}

pub fn validate_page_request(object_ref: &str, limit: u16) -> (r: Result<(), EventProblem>)
    ensures
        match page_request_problem(object_ref, limit) {
            Some(p) => r == Err::<(), EventProblem>(p),
            None => r is Ok,
        },
{
    if crate::text::is_blank(object_ref) || object_ref.as_bytes().len()
        > MAX_SIGNIFICANT_EVENT_REF_BYTES {
        return Err(EventProblem::ObjectRef);
    }
    if limit == 0 || limit > MAX_SIGNIFICANT_EVENT_PAGE {
        return Err(EventProblem::PageLimit);
    }
    Ok(())
}

/// What a task event page adds to an object page: the latest sequence never
/// trails the task's own counter, and a finished task reports its final state.
#[derive(Clone, Copy, Debug, PartialEq, Eq, Structural)]
pub struct TaskPageTail {
    pub latest_sequence: u64,
    pub terminal_state: Option<TaskState>,
}

pub fn task_page_tail(page_latest: u64, task_last_sequence: u64, state: TaskState) -> (r: TaskPageTail)
    ensures
        r.latest_sequence == if page_latest >= task_last_sequence {
            page_latest
        } else {
            task_last_sequence
        },
        r.terminal_state == if is_terminal_state(state) {
            Some(state)
        } else {
            None::<TaskState>
        },
{
    let latest = if page_latest >= task_last_sequence {
        page_latest
    } else {
        task_last_sequence
    };
    let terminal = if state.is_terminal() {
        Some(state)
    } else {
        None
    };
    TaskPageTail { latest_sequence: latest, terminal_state: terminal }
}

} // verus!
