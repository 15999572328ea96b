//! Reconciliation of one index source's observation rows against a fresh
//! report from that source: a row keeps its handle exactly while the source
//! generation and the resource's native identity stay the same; rows are
//! declared gone only when a healthy source stops reporting them.
use vstd::prelude::*;
use vstd::string::StringSliceAdditionalSpecFns;
use crate::text::{bounded_nonblank, check_bounded_nonblank};

verus! {

pub const MAX_SOURCE_OBSERVATIONS: usize = 65536;
pub const MAX_SOURCE_RELATIONS: usize = 131072;
pub const MAX_INDEX_METADATA_BYTES: usize = 16384;
pub const MAX_NATIVE_ID_BYTES: usize = 512;
pub const MAX_AUTHORITATIVE_REF_BYTES: usize = 1024;
pub const MAX_SOURCE_ID_BYTES: usize = 128;
pub const MAX_SOURCE_GENERATION_BYTES: usize = 512;
pub const MAX_RELATION_KIND_BYTES: usize = 96;
pub const MAX_REASON_CODE_BYTES: usize = 96;
pub const MAX_CONTROL_PATHS: usize = 16;
pub const MAX_INDEX_QUERY_SCAN: usize = 8192;

#[derive(Clone, Copy, Debug, PartialEq, Eq, Structural)]
pub enum Freshness {
    Live,
    Recent,
    Stale,
    Historical,
    Unavailable,
}

#[derive(Clone, Copy, Debug, PartialEq, Eq, Structural)]
pub enum HealthState {
    Healthy,
    Degraded,
    Unavailable,
    Unknown,
}

/// One stored observation row, as reconciliation reads and writes it.
#[derive(Debug)]
pub struct IndexRow {
    pub handle: u64,
    pub source_id: String,
    pub generation: String,
    pub native_identity: String,
    pub freshness: Freshness,
}

impl IndexRow {
    pub fn duplicate(&self) -> (r: IndexRow)
        ensures
            r == *self,
    {
        IndexRow {
            handle: self.handle,
            source_id: self.source_id.clone(),
            generation: self.generation.clone(),
            native_identity: self.native_identity.clone(),
            freshness: self.freshness,
        }
    }
}

/// The source's own report about itself.
pub struct SourceStatus {
    pub source_id: String,
    pub generation: String,
    pub health: HealthState,
}

/// One resource the source reports now.
pub struct ObservationInput {
    pub native_identity: String,
    pub freshness: Freshness,
}

pub open spec fn of_source(row: IndexRow, s: SourceStatus) -> bool {
    row.source_id@ == s.source_id@
}

pub open spec fn current(row: IndexRow, s: SourceStatus) -> bool {
    of_source(row, s) && row.generation@ == s.generation@ && !(row.freshness is Historical)
}

/// The freshness a healthy source gives a current row it no longer reports;
/// a degraded or unknown source only marks it stale.
pub open spec fn unseen_freshness(h: HealthState) -> Freshness {
    if h is Healthy {
        Freshness::Historical
    } else {
        Freshness::Stale
    }
}

/// What reconciliation does to an existing row before the new report is
/// applied.
pub open spec fn retire(row: IndexRow, s: SourceStatus) -> IndexRow {
    if !of_source(row, s) || row.freshness is Historical {
        row
    } else if row.generation@ != s.generation@ {
        IndexRow { freshness: Freshness::Historical, ..row }
    } else if s.health is Unavailable {
        IndexRow { freshness: Freshness::Unavailable, ..row }
    } else {
        IndexRow { freshness: unseen_freshness(s.health), ..row }
    }
}

fn retire_row(row: &IndexRow, s: &SourceStatus) -> (r: IndexRow)
    ensures
        r == retire(*row, *s),
{
    let mut r = row.duplicate();
    if row.source_id != s.source_id || row.freshness == Freshness::Historical {
    } else if row.generation != s.generation {
        r.freshness = Freshness::Historical;
    } else if s.health == HealthState::Unavailable {
        r.freshness = Freshness::Unavailable;
    } else {
        r.freshness = if s.health == HealthState::Healthy {
            Freshness::Historical
        } else {
            Freshness::Stale
        };
    }
    r
}

/// The handle of the first current row with this native identity.
pub open spec fn existing_handle(rows: Seq<IndexRow>, s: SourceStatus, identity: Seq<char>) -> Option<u64>
    decreases rows.len(),
{
    if rows.len() == 0 {
        None
    } else if current(rows[0], s) && rows[0].native_identity@ == identity {
        Some(rows[0].handle)
    } else {
        existing_handle(rows.drop_first(), s, identity)
    }
}

/// The handles the report's observations get: an existing current row's
/// handle when one matches, otherwise the next unused handle.
pub open spec fn assigned_handles(
    rows: Seq<IndexRow>,
    s: SourceStatus,
    obs: Seq<ObservationInput>,
    next: u64,
) -> (Seq<u64>, u64)
    decreases obs.len(),
{
    if obs.len() == 0 {
        (Seq::empty(), next)
    } else {
        let (prefix, n) = assigned_handles(rows, s, obs.drop_last(), next);
        match existing_handle(rows, s, obs.last().native_identity@) {
            Some(h) => (prefix.push(h), n),
            None => (prefix.push(n), (n + 1) as u64),
        }
    }
}

pub open spec fn handle_position(table: Seq<IndexRow>, h: u64) -> Option<int>
    decreases table.len(),
{
    if table.len() == 0 {
        None
    } else if table.last().handle == h {
        Some(table.len() - 1)
    } else {
        handle_position(table.drop_last(), h)
    }
}

/// Inserts `row`, or replaces the row that already holds its handle.
pub open spec fn upsert(table: Seq<IndexRow>, row: IndexRow) -> Seq<IndexRow> {
    match handle_position(table, row.handle) {
        Some(i) => table.update(i, row),
        None => table.push(row),
    }
}

pub open spec fn observed_row(s: SourceStatus, o: ObservationInput, h: u64) -> IndexRow {
    IndexRow {
        handle: h,
        source_id: s.source_id,
        generation: s.generation,
        native_identity: o.native_identity,
        freshness: o.freshness,
    }
}

pub open spec fn apply_report(
    table: Seq<IndexRow>,
    s: SourceStatus,
    obs: Seq<ObservationInput>,
    handles: Seq<u64>,
) -> Seq<IndexRow>
    decreases obs.len(),
{
    if obs.len() == 0 {
        table
    } else {
        upsert(
            apply_report(table, s, obs.drop_last(), handles.drop_last()),
            observed_row(s, obs.last(), handles.last()),
        )
    }
}

/// The rows after reconciliation, and the next unused handle.
pub open spec fn reconcile_spec(
    rows: Seq<IndexRow>,
    s: SourceStatus,
    obs: Seq<ObservationInput>,
    next: u64,
) -> (Seq<IndexRow>, u64) {
    let retired = rows.map_values(|r: IndexRow| retire(r, s));
    if s.health is Unavailable {
        (retired, next)
    } else {
        let (handles, n) = assigned_handles(rows, s, obs, next);
        (apply_report(retired, s, obs, handles), n)
    }
}

fn find_existing(rows: &Vec<IndexRow>, s: &SourceStatus, identity: &String) -> (r: Option<u64>)
    ensures
        r == existing_handle(rows@, *s, identity@),
{
    let mut i: usize = 0;
    assert(rows@.skip(0) =~= rows@);
    while i < rows.len()
        invariant
            i <= rows@.len(),
            existing_handle(rows@, *s, identity@) == existing_handle(rows@.skip(i as int), *s, identity@),
        decreases rows@.len() - i,
    {
        let r = &rows[i];
        assert(rows@.skip(i as int)[0] == rows@[i as int]);
        assert(rows@.skip(i as int).drop_first() =~= rows@.skip(i + 1));
        if r.source_id == s.source_id && r.generation == s.generation && r.freshness
            != Freshness::Historical && r.native_identity == *identity {
            return Some(r.handle);
        }
        i = i + 1;
    }
    None
}

fn find_handle(table: &Vec<IndexRow>, h: u64) -> (r: Option<usize>)
    ensures
        match r {
            Some(i) => handle_position(table@, h) == Some(i as int) && i < table@.len(),
            None => handle_position(table@, h) is None,
        },
{
    let mut i: usize = table.len();
    assert(table@.take(table@.len() as int) =~= table@);
    while i > 0
        invariant
            i <= table@.len(),
            handle_position(table@, h) == handle_position(table@.take(i as int), h),
        decreases i,
    {
        assert(table@.take(i as int).last() == table@[i - 1]);
        assert(table@.take(i as int).drop_last() =~= table@.take(i - 1));
        if table[i - 1].handle == h {
            return Some(i - 1);
        }
        i = i - 1;
    }
    None
}

/// Reconciles the stored rows with a fresh report from one source. `rows` are
/// all stored rows; `next_handle` is above every handle in use. Returns the new
/// rows and the next unused handle.
pub fn reconcile_source(
    rows: &Vec<IndexRow>,
    s: &SourceStatus,
    obs: &Vec<ObservationInput>,
    next_handle: u64,
) -> (r: (Vec<IndexRow>, u64))
    requires
        next_handle + obs@.len() <= u64::MAX,
    ensures
        (r.0@, r.1) == reconcile_spec(rows@, *s, obs@, next_handle),
{
    let mut table: Vec<IndexRow> = Vec::new();
    let mut i: usize = 0;
    while i < rows.len()
        invariant
            i <= rows@.len(),
            table@ == rows@.take(i as int).map_values(|r: IndexRow| retire(r, *s)),
        decreases rows@.len() - i,
    {
        let r = retire_row(&rows[i], s);
        table.push(r);
        assert(table@ =~= rows@.take(i + 1).map_values(|r: IndexRow| retire(r, *s)));
        i = i + 1;
    }
    assert(rows@.take(rows@.len() as int) =~= rows@);
    if s.health == HealthState::Unavailable {
        return (table, next_handle);
    }
    let ghost retired = table@;
    let mut handles: Vec<u64> = Vec::new();
    let mut next: u64 = next_handle;
    let mut j: usize = 0;
    while j < obs.len()
        invariant
            j <= obs@.len(),
            next_handle + obs@.len() <= u64::MAX,
            next <= next_handle + j,
            (handles@, next) == assigned_handles(rows@, *s, obs@.take(j as int), next_handle),
            table@ == apply_report(retired, *s, obs@.take(j as int), handles@),
        decreases obs@.len() - j,
    {
        let o = &obs[j];
        assert(obs@.take(j + 1).drop_last() =~= obs@.take(j as int));
        assert(obs@.take(j + 1).last() == obs@[j as int]);
        let h = match find_existing(rows, s, &o.native_identity) {
            Some(h) => h,
            None => {
                let fresh = next;
                next = next + 1;
                fresh
            },
        };
        let ghost old_handles = handles@;
        handles.push(h);
        assert(handles@.drop_last() =~= old_handles);
        let row = IndexRow {
            handle: h,
            source_id: s.source_id.clone(),
            generation: s.generation.clone(),
            native_identity: o.native_identity.clone(),
            freshness: o.freshness,
        };
        match find_handle(&table, h) {
            Some(k) => {
                table.set(k, row);
            },
            None => {
                table.push(row);
            },
        }
        j = j + 1;
    }
    assert(obs@.take(obs@.len() as int) =~= obs@);
    (table, next)
}

/// Law: reconciliation never touches another source's rows.
pub proof fn law_other_sources_untouched(row: IndexRow, s: SourceStatus)
    requires
        !of_source(row, s),
    ensures
        retire(row, s) == row,
{
}

/// Law: a source that is not healthy never declares a current-generation
/// resource gone: only a generation change or a healthy report can make a row
/// historical.
pub proof fn law_unhealthy_sources_do_not_invent_disappearance(row: IndexRow, s: SourceStatus)
    requires
        !(s.health is Healthy),
        row.generation@ == s.generation@,
        !(row.freshness is Historical),
    ensures
        !(retire(row, s).freshness is Historical),
{
}

/// Law: a source outage marks its current rows unavailable and records nothing new.
pub proof fn law_outage_marks_unavailable(rows: Seq<IndexRow>, s: SourceStatus, obs: Seq<ObservationInput>, next: u64, i: int)
    requires
        s.health is Unavailable,
        0 <= i < rows.len(),
        current(rows[i], s),
    ensures
        reconcile_spec(rows, s, obs, next).0.len() == rows.len(),
        reconcile_spec(rows, s, obs, next).0[i].freshness == Freshness::Unavailable,
        reconcile_spec(rows, s, obs, next).1 == next,
{
}

proof fn lemma_existing_handle_from_rows(rows: Seq<IndexRow>, s: SourceStatus, id: Seq<char>)
    ensures
        existing_handle(rows, s, id) matches Some(h) ==> exists|i: int|
            0 <= i < rows.len() && (#[trigger] rows[i]).handle == h && current(rows[i], s)
                && rows[i].native_identity@ == id,
    decreases rows.len(),
{
    if rows.len() > 0 && !(current(rows[0], s) && rows[0].native_identity@ == id) {
        lemma_existing_handle_from_rows(rows.drop_first(), s, id);
        if existing_handle(rows, s, id) is Some {
            let i = choose|i: int|
                0 <= i < rows.drop_first().len() && (#[trigger] rows.drop_first()[i]).handle
                    == existing_handle(rows, s, id)->0 && current(rows.drop_first()[i], s)
                    && rows.drop_first()[i].native_identity@ == id;
            assert(rows[i + 1] == rows.drop_first()[i]);
        }
    } else if rows.len() > 0 {
        assert(rows[0].handle == existing_handle(rows, s, id)->0);
    }
}

proof fn lemma_assigned_handles(rows: Seq<IndexRow>, s: SourceStatus, obs: Seq<ObservationInput>, next: u64)
    requires
        next + obs.len() <= u64::MAX,
    ensures
        assigned_handles(rows, s, obs, next).0.len() == obs.len(),
        next <= assigned_handles(rows, s, obs, next).1 <= next + obs.len(),
        forall|k: int|
            0 <= k < obs.len() ==> match existing_handle(rows, s, (#[trigger] obs[k]).native_identity@) {
                Some(h) => assigned_handles(rows, s, obs, next).0[k] == h,
                None => next <= assigned_handles(rows, s, obs, next).0[k]
                    < assigned_handles(rows, s, obs, next).1,
            },
    decreases obs.len(),
{
    if obs.len() > 0 {
        lemma_assigned_handles(rows, s, obs.drop_last(), next);
        let (prefix, n) = assigned_handles(rows, s, obs.drop_last(), next);
        let (all, m) = assigned_handles(rows, s, obs, next);
        assert forall|k: int| 0 <= k < obs.len() implies match existing_handle(rows, s, (#[trigger] obs[k]).native_identity@) {
                Some(h) => all[k] == h,
                None => next <= all[k] < m,
            } by {
            if k < obs.len() - 1 {
                assert(obs[k] == obs.drop_last()[k]);
                assert(all[k] == prefix[k]);
            }
        }
    }
}

/// Law: an observation keeps the handle of the current row with the same
/// source, generation and native identity; any other observation gets a handle
/// no stored row has ever held (all stored handles lie below `next`).
pub proof fn law_handles_follow_exact_identity(
    rows: Seq<IndexRow>,
    s: SourceStatus,
    obs: Seq<ObservationInput>,
    next: u64,
    k: int,
)
    requires
        0 <= k < obs.len(),
        next + obs.len() <= u64::MAX,
        forall|i: int| 0 <= i < rows.len() ==> (#[trigger] rows[i]).handle < next,
    ensures
        match existing_handle(rows, s, obs[k].native_identity@) {
            Some(h) => assigned_handles(rows, s, obs, next).0[k] == h && exists|i: int|
                0 <= i < rows.len() && (#[trigger] rows[i]).handle == h && current(rows[i], s)
                    && rows[i].native_identity@ == obs[k].native_identity@,
            None => forall|i: int|
                0 <= i < rows.len() ==> (#[trigger] rows[i]).handle != assigned_handles(
                    rows,
                    s,
                    obs,
                    next,
                ).0[k],
        },
{
    lemma_assigned_handles(rows, s, obs, next);
    lemma_existing_handle_from_rows(rows, s, obs[k].native_identity@);
}

/// The checks a source status must pass.
pub open spec fn status_fields_ok(source_id: &str, generation: &str, reason_code: &str) -> bool {
    nonempty_bounded(source_id, MAX_SOURCE_ID_BYTES as nat) && nonempty_bounded(
        generation,
        MAX_SOURCE_GENERATION_BYTES as nat,
    ) && nonempty_bounded(reason_code, MAX_REASON_CODE_BYTES as nat)
}

/// Non-empty and at most `max` bytes.
pub open spec fn nonempty_bounded(v: &str, max: nat) -> bool {
    v.spec_bytes().len() > 0 && v.spec_bytes().len() <= max
}

pub fn check_nonempty_bounded(v: &str, max: usize) -> (r: bool)
    ensures
        r == nonempty_bounded(v, max as nat),
{
    let n = v.as_bytes().len();
    n > 0 && n <= max
}

pub fn validate_source_status(source_id: &str, generation: &str, reason_code: &str) -> (r: bool)
    ensures
        r == status_fields_ok(source_id, generation, reason_code),
{
    check_nonempty_bounded(source_id, MAX_SOURCE_ID_BYTES) && check_nonempty_bounded(
        generation,
        MAX_SOURCE_GENERATION_BYTES,
    ) && check_nonempty_bounded(reason_code, MAX_REASON_CODE_BYTES)
}

/// Whether an observation may be stored under a source status: it must carry
/// the status's source identity and generation and stay within the bounds.
pub open spec fn observation_ok(
    status_source: &str,
    status_generation: &str,
    source: &str,
    generation: &str,
    same_kind: bool,
    native_identity: &str,
    authoritative_ref: Option<&str>,
    metadata_len: usize,
    control_paths: usize,
) -> bool {
    &&& same_kind
    &&& source.spec_bytes() == status_source.spec_bytes()
    &&& generation.spec_bytes() == status_generation.spec_bytes()
    &&& nonempty_bounded(native_identity, MAX_NATIVE_ID_BYTES as nat)
    &&& match authoritative_ref {
        Some(a) => nonempty_bounded(a, MAX_AUTHORITATIVE_REF_BYTES as nat),
        None => true,
    }
    &&& metadata_len <= MAX_INDEX_METADATA_BYTES
    &&& control_paths <= MAX_CONTROL_PATHS
}

pub fn validate_observation(
    status_source: &str,
    status_generation: &str,
    source: &str,
    generation: &str,
    same_kind: bool,
    native_identity: &str,
    authoritative_ref: Option<&str>,
    metadata_len: usize,
    control_paths: usize,
) -> (r: bool)
    ensures
        r == observation_ok(
            status_source,
            status_generation,
            source,
            generation,
            same_kind,
            native_identity,
            authoritative_ref,
            metadata_len,
            control_paths,
        ),
{
    if !same_kind || !crate::text::str_equal(source, status_source) || !crate::text::str_equal(
        generation,
        status_generation,
    ) {
        return false;
    }
    if !check_nonempty_bounded(native_identity, MAX_NATIVE_ID_BYTES) {
        return false;
    }
    match authoritative_ref {
        Some(a) => if !check_nonempty_bounded(a, MAX_AUTHORITATIVE_REF_BYTES) {
            return false;
        },
        None => {},
    }
    metadata_len <= MAX_INDEX_METADATA_BYTES && control_paths <= MAX_CONTROL_PATHS
}

/// A relation must name both ends, a kind and a reason within bounds.
pub open spec fn relation_ok(from: &str, to: &str, kind: &str, reason: &str) -> bool {
    nonempty_bounded(from, MAX_AUTHORITATIVE_REF_BYTES as nat) && nonempty_bounded(
        to,
        MAX_AUTHORITATIVE_REF_BYTES as nat,
    ) && nonempty_bounded(kind, MAX_RELATION_KIND_BYTES as nat) && nonempty_bounded(
        reason,
        MAX_REASON_CODE_BYTES as nat,
    )
}

pub fn validate_relation(from: &str, to: &str, kind: &str, reason: &str) -> (r: bool)
    ensures
        r == relation_ok(from, to, kind, reason),
{
    check_nonempty_bounded(from, MAX_AUTHORITATIVE_REF_BYTES) && check_nonempty_bounded(
        to,
        MAX_AUTHORITATIVE_REF_BYTES,
    ) && check_nonempty_bounded(kind, MAX_RELATION_KIND_BYTES) && check_nonempty_bounded(
        reason,
        MAX_REASON_CODE_BYTES,
    )
}

/// Whether a row stays in a stale-observation cleanup: only derived rows that
/// are stale, historical or unavailable and older than the cutoff are removed.
pub open spec fn cleanup_removes(freshness: Freshness, observed_at_ms: i64, cutoff_ms: i64) -> bool {
    observed_at_ms < cutoff_ms && (freshness is Stale || freshness is Historical
        || freshness is Unavailable)
}

pub fn cleanup_eligible(freshness: Freshness, observed_at_ms: i64, cutoff_ms: i64) -> (r: bool)
    ensures
        r == cleanup_removes(freshness, observed_at_ms, cutoff_ms),
{
    observed_at_ms < cutoff_ms && (freshness == Freshness::Stale || freshness
        == Freshness::Historical || freshness == Freshness::Unavailable)
}

/// Law: cleanup never removes a live or recently observed row.
pub proof fn law_cleanup_keeps_fresh_rows(freshness: Freshness, at: i64, cutoff: i64)
    requires
        freshness is Live || freshness is Recent,
    ensures
        !cleanup_removes(freshness, at, cutoff),
{
}

} // verus!
