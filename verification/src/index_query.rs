//! Reading the index: a bounded scan that pages through matching
//! observations, the bounded breadth-first walk behind topology views, and
//! the filter and partiality rules both rely on. The store fetches rows; these
//! machines decide what is kept and when to stop.
use vstd::prelude::*;
use vstd::string::StringSliceAdditionalSpecFns;
use crate::ids::Principal;
use crate::index::{Freshness, MAX_INDEX_QUERY_SCAN};
use crate::provider::bytes_of;
use crate::text::{bytes_equal, lower_seq, lower, str_equal};
use crate::visual::{ControlPathKind, IndexResourceType, IndexSourceKind};

verus! {

pub const QUERY_CHUNK: usize = 512;
pub const MAX_TOPOLOGY_DEPTH: u8 = 6;

/// How many of the first `n` flags are set.
pub open spec fn count_true(m: Seq<bool>, n: int) -> nat
    decreases n,
{
    if n <= 0 {
        0
    } else {
        count_true(m, n - 1) + if m[n - 1] {
            1nat
        } else {
            0nat
        }
    }
}

/// The scan stops once it has enough matches or has scanned its bound.
pub open spec fn scan_stops(limit: int, accepted: int, scanned: int) -> bool {
    accepted >= limit || scanned >= MAX_INDEX_QUERY_SCAN
}

/// The state of one bounded index query.
#[derive(Clone, Copy, Debug, PartialEq, Eq, Structural)]
pub struct IndexQueryScan {
    pub limit: usize,
    pub scanned: usize,
    pub accepted: usize,
    pub exhausted: bool,
    pub last_scanned: Option<u64>,
}

pub open spec fn scan_wf(s: IndexQueryScan) -> bool {
    s.accepted <= s.limit && s.scanned <= MAX_INDEX_QUERY_SCAN
}

impl IndexQueryScan {
    pub fn new(limit: u16) -> (r: IndexQueryScan)
        ensures
            r == (IndexQueryScan {
                limit: limit as usize,
                scanned: 0,
                accepted: 0,
                exhausted: false,
                last_scanned: None,
            }),
            scan_wf(r),
    {
        IndexQueryScan { limit: limit as usize, scanned: 0, accepted: 0, exhausted: false, last_scanned: None }
    }

    /// Whether another chunk of candidates should be fetched.
    pub fn wants_chunk(&self) -> (r: bool)
        ensures
            r == (self.accepted < self.limit && self.scanned < MAX_INDEX_QUERY_SCAN && !self.exhausted),
    {
        self.accepted < self.limit && self.scanned < MAX_INDEX_QUERY_SCAN && !self.exhausted
    }

    /// Takes one chunk of candidates in handle order; `matches[i]` says whether
    /// candidate `i` passes the filter. Returns the positions kept. Candidates
    /// are consumed until the page is full or the scan bound is reached; an
    /// empty or short chunk means the index is exhausted.
    pub fn on_chunk(&mut self, handles: &Vec<u64>, matches: &Vec<bool>) -> (r: Vec<usize>)
        requires
            handles@.len() == matches@.len(),
            scan_wf(*old(self)),
            old(self).accepted < old(self).limit,
            old(self).scanned < MAX_INDEX_QUERY_SCAN,
        ensures
            scan_wf(*final(self)),
            final(self).limit == old(self).limit,
            ({
                let k = final(self).scanned - old(self).scanned;
                &&& 0 <= k <= handles@.len()
                &&& final(self).accepted == old(self).accepted + count_true(matches@, k)
                &&& r@.len() == count_true(matches@, k)
                &&& forall|a: int, b: int| 0 <= a < b < r@.len() ==> #[trigger] r@[a] < #[trigger] r@[b]
                &&& forall|x: int| 0 <= x < r@.len() ==> #[trigger] r@[x] < k && matches@[r@[x] as int]
                &&& forall|j: int| 1 <= j < k ==> !scan_stops(
                    old(self).limit as int,
                    old(self).accepted + count_true(matches@, j),
                    old(self).scanned + j,
                )
                &&& k < handles@.len() ==> scan_stops(
                    old(self).limit as int,
                    final(self).accepted as int,
                    final(self).scanned as int,
                )
                &&& final(self).last_scanned == (if k > 0 {
                    Some(handles@[k - 1])
                } else {
                    old(self).last_scanned
                })
                &&& final(self).exhausted == (old(self).exhausted || handles@.len() == 0
                    || final(self).scanned % QUERY_CHUNK != 0)
            }),
    {
        let mut kept: Vec<usize> = Vec::new();
        if handles.len() == 0 {
            self.exhausted = true;
            return kept;
        }
        let ghost acc0 = self.accepted;
        let ghost sc0 = self.scanned;
        let mut i: usize = 0;
        let mut stop = false;
        while i < handles.len() && !stop
            invariant
                handles@.len() == matches@.len(),
                handles@.len() > 0,
                i <= handles@.len(),
                self.limit == old(self).limit,
                self.exhausted == old(self).exhausted,
                acc0 == old(self).accepted,
                sc0 == old(self).scanned,
                acc0 < self.limit,
                sc0 < MAX_INDEX_QUERY_SCAN,
                self.scanned == sc0 + i,
                self.accepted == acc0 + count_true(matches@, i as int),
                kept@.len() == count_true(matches@, i as int),
                self.accepted <= self.limit,
                self.scanned <= MAX_INDEX_QUERY_SCAN,
                stop == (i > 0 && scan_stops(self.limit as int, self.accepted as int, self.scanned as int)),
                forall|j: int| 1 <= j < i ==> !scan_stops(
                    self.limit as int,
                    acc0 + count_true(matches@, j),
                    sc0 + j,
                ),
                forall|a: int, b: int| 0 <= a < b < kept@.len() ==> #[trigger] kept@[a] < #[trigger] kept@[b],
                forall|x: int| 0 <= x < kept@.len() ==> #[trigger] kept@[x] < i && matches@[kept@[x] as int],
                self.last_scanned == (if i > 0 {
                    Some(handles@[i - 1])
                } else {
                    old(self).last_scanned
                }),
            decreases handles@.len() - i,
        {
            self.scanned = self.scanned + 1;
            self.last_scanned = Some(handles[i]);
            if matches[i] {
                kept.push(i);
                self.accepted = self.accepted + 1;
            }
            i = i + 1;
            stop = self.accepted >= self.limit || self.scanned >= MAX_INDEX_QUERY_SCAN;
        }
        if self.scanned % QUERY_CHUNK != 0 {
            self.exhausted = true;
        }
        kept
    }

    /// The cursor of the next page and whether the scan bound cut the page
    /// short: a full or cut-short page continues after the last candidate
    /// scanned.
    pub fn finish(&self) -> (r: (Option<u64>, bool))
        ensures
            r.1 == (self.scanned >= MAX_INDEX_QUERY_SCAN && !self.exhausted),
            r.0 == (if r.1 || self.accepted == self.limit {
                self.last_scanned
            } else {
                None
            }),
    {
        let truncated = self.scanned >= MAX_INDEX_QUERY_SCAN && !self.exhausted;
        let cursor = if truncated || self.accepted == self.limit {
            self.last_scanned
        } else {
            None
        };
        (cursor, truncated)
    }
}

/// Law: a query never keeps more than its limit and never scans more than its
/// bound, whatever the chunks it is given.
pub proof fn law_query_scan_is_bounded(before: IndexQueryScan, after: IndexQueryScan)
    requires
        scan_wf(before),
        scan_wf(after),
        after.limit == before.limit,
    ensures
        after.accepted <= after.limit,
        after.scanned <= MAX_INDEX_QUERY_SCAN,
{
}

/// The source whose health decides whether a query's answer is partial: the
/// filtered source kind, else the source that observes the filtered type.
pub open spec fn relevant_source_spec(
    source_kind: Option<IndexSourceKind>,
    resource_type: Option<IndexResourceType>,
) -> Option<IndexSourceKind> {
    match source_kind {
        Some(k) => Some(k),
        None => match resource_type {
            None => None,
            Some(t) => Some(
                match t {
                    IndexResourceType::ApplicationDefinition => IndexSourceKind::Applications,
                    IndexResourceType::Process => IndexSourceKind::Proc,
                    IndexResourceType::OpenRcService => IndexSourceKind::OpenRc,
                    IndexResourceType::Window => IndexSourceKind::X11,
                    IndexResourceType::Workspace | IndexResourceType::Display => IndexSourceKind::I3,
                    IndexResourceType::ProviderRegistration | IndexResourceType::ProviderResource
                    | IndexResourceType::RegisteredCapability => IndexSourceKind::Providers,
                    IndexResourceType::ApplicationInstance => IndexSourceKind::Correlation,
                },
            ),
        },
    }
}

pub fn relevant_source(
    source_kind: Option<IndexSourceKind>,
    resource_type: Option<IndexResourceType>,
) -> (r: Option<IndexSourceKind>)
    ensures
        r == relevant_source_spec(source_kind, resource_type),
{
    match source_kind {
        Some(k) => Some(k),
        None => match resource_type {
            None => None,
            Some(t) => Some(
                match t {
                    IndexResourceType::ApplicationDefinition => IndexSourceKind::Applications,
                    IndexResourceType::Process => IndexSourceKind::Proc,
                    IndexResourceType::OpenRcService => IndexSourceKind::OpenRc,
                    IndexResourceType::Window => IndexSourceKind::X11,
                    IndexResourceType::Workspace | IndexResourceType::Display => IndexSourceKind::I3,
                    IndexResourceType::ProviderRegistration | IndexResourceType::ProviderResource
                    | IndexResourceType::RegisteredCapability => IndexSourceKind::Providers,
                    IndexResourceType::ApplicationInstance => IndexSourceKind::Correlation,
                },
            ),
        },
    }
}

/// Equal up to ASCII case.
pub open spec fn eq_ignore_ascii_case(a: Seq<u8>, b: Seq<u8>) -> bool {
    lower_seq(a) == lower_seq(b)
}

pub fn text_eq_ignore_ascii_case(a: &str, b: &str) -> (r: bool)
    ensures
        r == eq_ignore_ascii_case(a.spec_bytes(), b.spec_bytes()),
{
    let x = a.as_bytes();
    let y = b.as_bytes();
    if x.len() != y.len() {
        assert(lower_seq(x@).len() != lower_seq(y@).len());
        return false;
    }
    let mut i: usize = 0;
    while i < x.len()
        invariant
            x@.len() == y@.len(),
            i <= x@.len(),
            x@ == a.spec_bytes(),
            y@ == b.spec_bytes(),
            forall|j: int| 0 <= j < i ==> lower_seq(x@)[j] == lower_seq(y@)[j],
        decreases x@.len() - i,
    {
        if lower(x[i]) != lower(y[i]) {
            assert(lower_seq(x@)[i as int] != lower_seq(y@)[i as int]);
            return false;
        }
        i = i + 1;
    }
    assert(lower_seq(x@) =~= lower_seq(y@));
    true
}

/// Whether any of the named metadata values equals `expected` up to ASCII
/// case; `values[i]` is the text value under the i-th key, if it has one.
pub fn metadata_matches_any(values: &Vec<Option<String>>, expected: &str) -> (r: bool)
    ensures
        r == exists|i: int| 0 <= i < values@.len() && values@[i] is Some && eq_ignore_ascii_case(
            #[trigger] bytes_of(values@[i]->0),
            expected.spec_bytes(),
        ),
{
    let mut i: usize = 0;
    while i < values.len()
        invariant
            i <= values@.len(),
            forall|j: int| 0 <= j < i ==> !(values@[j] is Some && eq_ignore_ascii_case(
                #[trigger] bytes_of(values@[j]->0),
                expected.spec_bytes(),
            )),
        decreases values@.len() - i,
    {
        match &values[i] {
            Some(v) => {
                if text_eq_ignore_ascii_case(v.as_str(), expected) {
                    assert(values@[i as int] is Some && eq_ignore_ascii_case(
                        bytes_of(values@[i as int]->0),
                        expected.spec_bytes(),
                    ));
                    return true;
                }
            },
            None => {},
        }
        i = i + 1;
    }
    false
}

/// The identity of a relation in a topology view: its two ends, its kind and
/// the source that reported it.
pub struct RelationKey {
    pub from_handle: u64,
    pub to_handle: u64,
    pub relation_kind: String,
    pub source_id: String,
}

pub open spec fn key_view(k: RelationKey) -> (u64, u64, Seq<u8>, Seq<u8>) {
    (
        k.from_handle,
        k.to_handle,
        bytes_of(k.relation_kind),
        bytes_of(k.source_id),
    )
}

/// A bounded breadth-first walk from a root resource.
pub struct TopologyWalk {
    max_depth: u8,
    max_resources: u16,
    seen: Vec<u64>,
    queue: Vec<(u64, u8)>,
    head: usize,
    relation_keys: Vec<(u64, u64, Vec<u8>, Vec<u8>)>,
    truncated: bool,
}

/// What the walk decides for one relation of the resource being expanded.
#[derive(Clone, Copy, Debug, PartialEq, Eq, Structural)]
pub struct RelationStep {
    /// The relation is new to the view.
    pub add_relation: bool,
    /// The other end to resolve and, if visible, add.
    pub resolve: Option<u64>,
}

pub struct TopologyWalkView {
    pub max_depth: u8,
    pub max_resources: u16,
    pub seen: Seq<u64>,
    pub pending: Seq<(u64, u8)>,
    pub relations: Seq<(u64, u64, Seq<u8>, Seq<u8>)>,
    pub truncated: bool,
}

impl View for TopologyWalk {
    type V = TopologyWalkView;

    closed spec fn view(&self) -> TopologyWalkView {
        TopologyWalkView {
            max_depth: self.max_depth,
            max_resources: self.max_resources,
            seen: self.seen@,
            pending: self.queue@.skip(self.head as int),
            relations: self.relation_keys@.map_values(
                |k: (u64, u64, Vec<u8>, Vec<u8>)| (k.0, k.1, k.2@, k.3@),
            ),
            truncated: self.truncated,
        }
    }
}

pub open spec fn distinct(s: Seq<u64>) -> bool {
    forall|i: int, j: int| 0 <= i < j < s.len() ==> s[i] != s[j]
}

/// The walk's invariant: no resource is seen twice and the seen set stays
/// within the resource bound (the root always counts).
pub open spec fn walk_wf(w: TopologyWalkView) -> bool {
    &&& distinct(w.seen)
    &&& w.seen.len() >= 1
    &&& w.seen.len() <= if w.max_resources >= 1 {
        w.max_resources as nat
    } else {
        1
    }
}

impl TopologyWalk {
    closed spec fn inv(&self) -> bool {
        &&& self.head <= self.queue@.len()
        &&& walk_wf(self@)
    }

    pub closed spec fn well_formed(&self) -> bool {
        self.inv()
    }

    /// Starts a walk at `root`, which is seen at depth zero.
    pub fn new(root: u64, max_depth: u8, max_resources: u16) -> (r: TopologyWalk)
        ensures
            r.well_formed(),
            r@.seen == seq![root],
            r@.pending == seq![(root, 0u8)],
            r@.relations.len() == 0,
            !r@.truncated,
            r@.max_depth == max_depth,
            r@.max_resources == max_resources,
    {
        let mut seen: Vec<u64> = Vec::new();
        seen.push(root);
        let mut queue: Vec<(u64, u8)> = Vec::new();
        queue.push((root, 0));
        let w = TopologyWalk {
            max_depth,
            max_resources,
            seen,
            queue,
            head: 0,
            relation_keys: Vec::new(),
            truncated: false,
        };
        assert(w@.seen =~= seq![root]);
        assert(w@.pending =~= seq![(root, 0u8)]);
        assert(w@.relations =~= Seq::<(u64, u64, Seq<u8>, Seq<u8>)>::empty());
        w
    }

    /// The next resource to expand: pending resources at the depth bound are
    /// skipped.
    pub fn next(&mut self) -> (r: Option<(u64, u8)>)
        requires
            old(self).well_formed(),
        ensures
            final(self).well_formed(),
            final(self)@.seen == old(self)@.seen,
            final(self)@.relations == old(self)@.relations,
            final(self)@.truncated == old(self)@.truncated,
            final(self)@.max_depth == old(self)@.max_depth,
            final(self)@.max_resources == old(self)@.max_resources,
            match r {
                Some((h, d)) => d < old(self)@.max_depth && exists|k: int| 0 <= k < old(self)@.pending.len()
                    && old(self)@.pending[k] == (h, d) && final(self)@.pending == old(self)@.pending.skip(k + 1)
                    && forall|j: int| 0 <= j < k ==> (#[trigger] old(self)@.pending[j]).1 >= old(self)@.max_depth,
                None => final(self)@.pending.len() == 0 && forall|j: int|
                    0 <= j < old(self)@.pending.len() ==> (#[trigger] old(self)@.pending[j]).1 >= old(self)@.max_depth,
            },
    {
        let ghost start = self.head;
        while self.head < self.queue.len()
            invariant
                start <= self.head <= self.queue@.len(),
                self.queue@ == old(self).queue@,
                self.seen@ == old(self).seen@,
                self.relation_keys@ == old(self).relation_keys@,
                self.truncated == old(self).truncated,
                self.max_depth == old(self).max_depth,
                self.max_resources == old(self).max_resources,
                start == old(self).head,
                old(self).head <= old(self).queue@.len(),
                walk_wf(old(self)@),
                forall|j: int| start <= j < self.head ==> (#[trigger] self.queue@[j]).1 >= self.max_depth,
            decreases self.queue@.len() - self.head,
        {
            let (h, d) = self.queue[self.head];
            self.head = self.head + 1;
            if d < self.max_depth {
                proof {
                    let k = self.head - 1 - start;
                    assert(old(self)@.pending[k] == (h, d));
                    assert(self@.pending =~= old(self)@.pending.skip(k + 1));
                    assert forall|j: int| 0 <= j < k implies (#[trigger] old(self)@.pending[j]).1 >= old(self)@.max_depth by {
                        assert(old(self)@.pending[j] == self.queue@[start + j]);
                    }
                }
                return Some((h, d));
            }
        }
        proof {
            assert(self@.pending =~= Seq::<(u64, u8)>::empty());
            assert forall|j: int| 0 <= j < old(self)@.pending.len() implies (#[trigger] old(self)@.pending[j]).1 >= old(self)@.max_depth by {
                assert(old(self)@.pending[j] == self.queue@[start + j]);
            }
        }
        None
    }

    fn contains_seen(&self, h: u64) -> (r: bool)
        ensures
            r == self@.seen.contains(h),
    {
        let mut i: usize = 0;
        while i < self.seen.len()
            invariant
                i <= self.seen@.len(),
                forall|j: int| 0 <= j < i ==> self.seen@[j] != h,
            decreases self.seen@.len() - i,
        {
            if self.seen[i] == h {
                assert(self@.seen[i as int] == h);
                return true;
            }
            i = i + 1;
        }
        false
    }

    fn relation_known(&self, from: u64, to: u64, kind: &[u8], source: &[u8]) -> (r: bool)
        ensures
            r == self@.relations.contains((from, to, kind@, source@)),
    {
        let mut i: usize = 0;
        while i < self.relation_keys.len()
            invariant
                i <= self.relation_keys@.len(),
                forall|j: int| 0 <= j < i ==> self@.relations[j] != (from, to, kind@, source@),
            decreases self.relation_keys@.len() - i,
        {
            let k = &self.relation_keys[i];
            if k.0 == from && k.1 == to && bytes_equal(k.2.as_slice(), kind) && bytes_equal(
                k.3.as_slice(),
                source,
            ) {
                assert(self@.relations[i as int] == (from, to, kind@, source@));
                return true;
            }
            i = i + 1;
        }
        proof {
            if self@.relations.contains((from, to, kind@, source@)) {
                let j = choose|j: int| 0 <= j < self@.relations.len() && self@.relations[j] == (from, to, kind@, source@);
                assert(self@.relations[j] != (from, to, kind@, source@));
            }
        }
        false
    }

    /// Handles one relation of `handle`: adds it to the view the first
    /// time it is met, and names its other end for resolution unless that end
    /// is already seen or the resource bound is reached (which truncates the
    /// view).
    pub fn on_relation(&mut self, handle: u64, rel: &RelationKey) -> (r: RelationStep)
        requires
            old(self).well_formed(),
        ensures
            final(self).well_formed(),
            final(self)@.seen == old(self)@.seen,
            final(self)@.pending == old(self)@.pending,
            final(self)@.max_depth == old(self)@.max_depth,
            final(self)@.max_resources == old(self)@.max_resources,
            r.add_relation == !old(self)@.relations.contains(key_view(*rel)),
            final(self)@.relations == (if r.add_relation {
                old(self)@.relations.push(key_view(*rel))
            } else {
                old(self)@.relations
            }),
            ({
                let other = if rel.from_handle == handle {
                    rel.to_handle
                } else {
                    rel.from_handle
                };
                if old(self)@.seen.contains(other) {
                    r.resolve is None && final(self)@.truncated == old(self)@.truncated
                } else if old(self)@.seen.len() >= old(self)@.max_resources {
                    r.resolve is None && final(self)@.truncated
                } else {
                    r.resolve == Some(other) && final(self)@.truncated == old(self)@.truncated
                }
            }),
    {
        let kind = rel.relation_kind.as_str().as_bytes();
        let source = rel.source_id.as_str().as_bytes();
        let add_relation = !self.relation_known(rel.from_handle, rel.to_handle, kind, source);
        if add_relation {
            let ghost before = self@.relations;
            let mut kv: Vec<u8> = Vec::new();
            let mut sv: Vec<u8> = Vec::new();
            let mut i: usize = 0;
            while i < kind.len()
                invariant
                    i <= kind@.len(),
                    kv@ == kind@.take(i as int),
                decreases kind@.len() - i,
            {
                kv.push(kind[i]);
                assert(kind@.take(i + 1) =~= kind@.take(i as int).push(kind@[i as int]));
                i = i + 1;
            }
            assert(kind@.take(i as int) =~= kind@);
            let mut j: usize = 0;
            while j < source.len()
                invariant
                    j <= source@.len(),
                    sv@ == source@.take(j as int),
                decreases source@.len() - j,
            {
                sv.push(source[j]);
                assert(source@.take(j + 1) =~= source@.take(j as int).push(source@[j as int]));
                j = j + 1;
            }
            assert(source@.take(j as int) =~= source@);
            self.relation_keys.push((rel.from_handle, rel.to_handle, kv, sv));
            assert(self@.relations =~= before.push(key_view(*rel)));
        }
        let other = if rel.from_handle == handle {
            rel.to_handle
        } else {
            rel.from_handle
        };
        if self.contains_seen(other) {
            return RelationStep { add_relation, resolve: None };
        }
        if self.seen.len() >= self.max_resources as usize {
            self.truncated = true;
            return RelationStep { add_relation, resolve: None };
        }
        RelationStep { add_relation, resolve: Some(other) }
    }

    /// Records that `other`, named by the relation step of a resource at
    /// `depth`, resolved to a visible resource: it is seen and will be
    /// expanded one level deeper.
    pub fn on_resolved(&mut self, other: u64, depth: u8)
        requires
            old(self).well_formed(),
            !old(self)@.seen.contains(other),
            old(self)@.seen.len() < old(self)@.max_resources,
        ensures
            final(self).well_formed(),
            final(self)@.seen == old(self)@.seen.push(other),
            final(self)@.pending == old(self)@.pending.push(
                (other, if depth < 255 {
                    (depth + 1) as u8
                } else {
                    255u8
                }),
            ),
            final(self)@.relations == old(self)@.relations,
            final(self)@.truncated == old(self)@.truncated,
            final(self)@.max_depth == old(self)@.max_depth,
            final(self)@.max_resources == old(self)@.max_resources,
    {
        let ghost old_pending = self@.pending;
        self.seen.push(other);
        let next_depth = if depth < 255 {
            depth + 1
        } else {
            255
        };
        self.queue.push((other, next_depth));
        proof {
            assert(self@.pending =~= old_pending.push((other, next_depth)));
            assert forall|i: int, j: int| 0 <= i < j < self@.seen.len() implies self@.seen[i] != self@.seen[j] by {
                if j == self@.seen.len() - 1 {
                    assert(old(self)@.seen[i] != other) by {
                        if old(self)@.seen[i] == other {
                            assert(old(self)@.seen.contains(other));
                        }
                    }
                }
            }
        }
    }

    pub fn is_truncated(&self) -> (r: bool)
        ensures
            r == self@.truncated,
    {
        self.truncated
    }

    pub fn seen_count(&self) -> (r: usize)
        ensures
            r == self@.seen.len(),
    {
        self.seen.len()
    }
}

/// Law: a topology view never holds more resources than its bound (the root
/// included) and never the same resource twice.
pub proof fn law_topology_is_bounded(w: TopologyWalkView)
    requires
        walk_wf(w),
        w.max_resources >= 1,
    ensures
        w.seen.len() <= w.max_resources,
        forall|i: int, j: int| 0 <= i < j < w.seen.len() ==> w.seen[i] != w.seen[j],
{
}

/// A query's filters; every absent filter admits everything.
pub struct IndexQueryFilter {
    pub resource_type: Option<IndexResourceType>,
    pub freshness: Option<Freshness>,
    pub source_kind: Option<IndexSourceKind>,
    pub application: Option<String>,
    pub provider: Option<String>,
    pub capability: Option<String>,
    pub workspace: Option<String>,
    pub display: Option<String>,
    /// The wire name of the evidence strength a relation must have.
    pub evidence: Option<String>,
    pub changed_since_ms: Option<i64>,
    pub control_path: Option<ControlPathKind>,
}

/// One resource related to a candidate, as the caller may see it: its type
/// and its `name` metadata.
pub struct RelatedResource {
    pub resource_type: IndexResourceType,
    pub name: Option<String>,
}

/// What the filters read of one stored observation: its fields, the text
/// metadata values under the keys the filters consult, the evidence strengths
/// of the relations touching it, and the visible resources related to it.
pub struct QueryCandidate {
    pub resource_type: IndexResourceType,
    pub source_kind: IndexSourceKind,
    pub owner: Option<Principal>,
    pub freshness: Freshness,
    pub updated_at_ms: i64,
    pub desktop_id: Option<String>,
    pub name: Option<String>,
    pub application_ref: Option<String>,
    pub application_name: Option<String>,
    pub provider_id: Option<String>,
    pub provider_type: Option<String>,
    pub capability_id: Option<String>,
    pub control_paths: Vec<ControlPathKind>,
    pub relation_evidence: Vec<String>,
    pub related: Vec<RelatedResource>,
}

/// A metadata value equals `expected` up to ASCII case.
pub open spec fn value_matches(v: Option<String>, expected: Seq<u8>) -> bool {
    v is Some && eq_ignore_ascii_case(bytes_of(v->0), expected)
}

/// Some visible resource of type `t` related to the candidate is named `name`.
pub open spec fn related_named(related: Seq<RelatedResource>, t: IndexResourceType, name: Seq<u8>) -> bool {
    exists|i: int| 0 <= i < related.len() && (#[trigger] related[i]).resource_type == t && value_matches(related[i].name, name)
}

/// A workspace or display filter: the resource itself when it has that type,
/// otherwise a related resource of that type, must carry the name.
pub open spec fn named_filter_ok(c: QueryCandidate, t: IndexResourceType, name: Seq<u8>) -> bool {
    if c.resource_type == t {
        value_matches(c.name, name)
    } else {
        related_named(c.related@, t, name)
    }
}

/// The filters the store applies while it reads: the caller's own or unowned
/// rows, the exact type, freshness and source kind asked for (historical rows
/// only when asked for), and rows changed since the bound.
pub open spec fn row_in_scope(f: IndexQueryFilter, c: QueryCandidate, principal: Principal) -> bool {
    &&& (c.owner is None || c.owner == Some(principal))
    &&& (f.resource_type is Some ==> c.resource_type == f.resource_type->0)
    &&& (if f.freshness is Some {
        c.freshness == f.freshness->0
    } else {
        !(c.freshness is Historical)
    })
    &&& (f.source_kind is Some ==> c.source_kind == f.source_kind->0)
    &&& (f.changed_since_ms is Some ==> c.updated_at_ms >= f.changed_since_ms->0)
}

/// The filters applied to each row read: an application by its desktop id,
/// name, application reference or application name; a provider by its id or
/// type; a capability by its id; a control path among the row's; an evidence
/// strength among its relations'; a workspace and a display by name.
pub open spec fn row_matches(f: IndexQueryFilter, c: QueryCandidate) -> bool {
    &&& (f.application is Some ==> {
        let a = bytes_of(f.application->0);
        value_matches(c.desktop_id, a) || value_matches(c.name, a) || value_matches(c.application_ref, a)
            || value_matches(c.application_name, a)
    })
    &&& (f.provider is Some ==> {
        let p = bytes_of(f.provider->0);
        value_matches(c.provider_id, p) || value_matches(c.provider_type, p)
    })
    &&& (f.capability is Some ==> value_matches(c.capability_id, bytes_of(f.capability->0)))
    &&& (f.control_path is Some ==> c.control_paths@.contains(f.control_path->0))
    &&& (f.evidence is Some ==> exists|i: int|
        0 <= i < c.relation_evidence@.len() && bytes_of(#[trigger] c.relation_evidence@[i]) == bytes_of(f.evidence->0))
    &&& (f.workspace is Some ==> named_filter_ok(c, IndexResourceType::Workspace, bytes_of(f.workspace->0)))
    &&& (f.display is Some ==> named_filter_ok(c, IndexResourceType::Display, bytes_of(f.display->0)))
}

/// The filter that constrains nothing.
pub open spec fn open_filter() -> IndexQueryFilter {
    IndexQueryFilter {
        resource_type: None,
        freshness: None,
        source_kind: None,
        application: None,
        provider: None,
        capability: None,
        workspace: None,
        display: None,
        evidence: None,
        changed_since_ms: None,
        control_path: None,
    }
}

/// Law: with no filter every row read matches.
pub proof fn law_open_filter_matches_every_row(c: QueryCandidate)
    ensures
        row_matches(open_filter(), c),
{
}

/// Law: an application filter alone admits a row exactly when its desktop
/// id, name, application reference or application name equals the filter up
/// to ASCII case.
pub proof fn law_application_filter(a: String, c: QueryCandidate)
    ensures
        row_matches(IndexQueryFilter { application: Some(a), ..open_filter() }, c) <==> (value_matches(
            c.desktop_id,
            bytes_of(a),
        ) || value_matches(c.name, bytes_of(a)) || value_matches(c.application_ref, bytes_of(a))
            || value_matches(c.application_name, bytes_of(a))),
{
}

/// Law: a provider filter alone admits a row exactly when its provider id or
/// provider type equals the filter up to ASCII case.
pub proof fn law_provider_filter(p: String, c: QueryCandidate)
    ensures
        row_matches(IndexQueryFilter { provider: Some(p), ..open_filter() }, c) <==> (value_matches(
            c.provider_id,
            bytes_of(p),
        ) || value_matches(c.provider_type, bytes_of(p))),
{
}

/// Law: a capability filter alone admits a row exactly when its capability
/// id equals the filter up to ASCII case.
pub proof fn law_capability_filter(k: String, c: QueryCandidate)
    ensures
        row_matches(IndexQueryFilter { capability: Some(k), ..open_filter() }, c) <==> value_matches(
            c.capability_id,
            bytes_of(k),
        ),
{
}

/// Law: a control-path filter alone admits a row exactly when the row offers
/// that control path.
pub proof fn law_control_path_filter(p: ControlPathKind, c: QueryCandidate)
    ensures
        row_matches(IndexQueryFilter { control_path: Some(p), ..open_filter() }, c) <==> c.control_paths@.contains(p),
{
}

/// Law: a workspace or display filter alone admits a resource of that type by
/// its own name, and any other resource by the name of a related resource of
/// that type.
pub proof fn law_named_filters(w: String, c: QueryCandidate)
    ensures
        row_matches(IndexQueryFilter { workspace: Some(w), ..open_filter() }, c) <==> (if c.resource_type
            is Workspace {
            value_matches(c.name, bytes_of(w))
        } else {
            exists|i: int|
                0 <= i < c.related@.len() && (#[trigger] c.related@[i]).resource_type is Workspace
                    && value_matches(c.related@[i].name, bytes_of(w))
        }),
        row_matches(IndexQueryFilter { display: Some(w), ..open_filter() }, c) <==> (if c.resource_type
            is Display {
            value_matches(c.name, bytes_of(w))
        } else {
            exists|i: int|
                0 <= i < c.related@.len() && (#[trigger] c.related@[i]).resource_type is Display
                    && value_matches(c.related@[i].name, bytes_of(w))
        }),
{
}

/// Law: an evidence filter alone admits a row exactly when some relation
/// touching it has exactly that evidence strength.
pub proof fn law_evidence_filter(ev: String, c: QueryCandidate)
    ensures
        row_matches(IndexQueryFilter { evidence: Some(ev), ..open_filter() }, c) <==> exists|i: int|
            0 <= i < c.relation_evidence@.len() && bytes_of(#[trigger] c.relation_evidence@[i]) == bytes_of(ev),
{
}

/// Law: a query never reads another principal's rows; each filter it sets
/// holds of every row it reads; and with none set it reads every row of the
/// caller or of nobody that is not historical.
pub proof fn law_query_scope(f: IndexQueryFilter, c: QueryCandidate, p: Principal)
    ensures
        row_in_scope(f, c, p) ==> c.owner is None || c.owner == Some(p),
        row_in_scope(f, c, p) && f.resource_type is Some ==> c.resource_type == f.resource_type->0,
        row_in_scope(f, c, p) && f.source_kind is Some ==> c.source_kind == f.source_kind->0,
        row_in_scope(f, c, p) && f.freshness is Some ==> c.freshness == f.freshness->0,
        row_in_scope(f, c, p) && f.freshness is None ==> !(c.freshness is Historical),
        row_in_scope(f, c, p) && f.changed_since_ms is Some ==> c.updated_at_ms >= f.changed_since_ms->0,
        row_in_scope(open_filter(), c, p) <==> ((c.owner is None || c.owner == Some(p)) && !(c.freshness is Historical)),
        c.owner is Some && c.owner != Some(p) ==> !row_in_scope(f, c, p),
        (c.owner is None || c.owner == Some(p)) && (f.resource_type is Some ==> c.resource_type
            == f.resource_type->0) && (f.source_kind is Some ==> c.source_kind == f.source_kind->0) && (if f.freshness
            is Some {
            c.freshness == f.freshness->0
        } else {
            !(c.freshness is Historical)
        }) && (f.changed_since_ms is Some ==> c.updated_at_ms >= f.changed_since_ms->0) ==> row_in_scope(f, c, p),
{
}

/// Law: the filters combine by conjunction: a row matches a query exactly
/// when it matches each of the query's filters taken alone.
pub proof fn law_filters_combine(f: IndexQueryFilter, c: QueryCandidate)
    ensures
        row_matches(f, c) <==> {
            &&& row_matches(IndexQueryFilter { application: f.application, ..open_filter() }, c)
            &&& row_matches(IndexQueryFilter { provider: f.provider, ..open_filter() }, c)
            &&& row_matches(IndexQueryFilter { capability: f.capability, ..open_filter() }, c)
            &&& row_matches(IndexQueryFilter { control_path: f.control_path, ..open_filter() }, c)
            &&& row_matches(IndexQueryFilter { evidence: f.evidence, ..open_filter() }, c)
            &&& row_matches(IndexQueryFilter { workspace: f.workspace, ..open_filter() }, c)
            &&& row_matches(IndexQueryFilter { display: f.display, ..open_filter() }, c)
        },
{
}

/// Law: matching is blind to ASCII case: a value matches itself, and any
/// filter equal to it up to the case of its ASCII letters; an absent value
/// matches nothing.
pub proof fn law_values_match_up_to_ascii_case(v: String, expected: Seq<u8>)
    ensures
        value_matches(Some(v), bytes_of(v)),
        lower_seq(bytes_of(v)) == lower_seq(expected) ==> value_matches(Some(v), expected),
        !value_matches(None, expected),
{
}

fn value_eq(v: &Option<String>, expected: &String) -> (r: bool)
    ensures
        r == value_matches(*v, bytes_of(*expected)),
{
    match v {
        Some(t) => text_eq_ignore_ascii_case(t.as_str(), expected.as_str()),
        None => false,
    }
}

fn has_control_path(paths: &Vec<ControlPathKind>, p: ControlPathKind) -> (r: bool)
    ensures
        r == paths@.contains(p),
{
    let mut i: usize = 0;
    while i < paths.len()
        invariant
            i <= paths@.len(),
            forall|j: int| 0 <= j < i ==> paths@[j] != p,
        decreases paths@.len() - i,
    {
        if paths[i] == p {
            assert(paths@[i as int] == p);
            return true;
        }
        i = i + 1;
    }
    false
}

fn has_evidence(strengths: &Vec<String>, wanted: &String) -> (r: bool)
    ensures
        r == exists|i: int| 0 <= i < strengths@.len() && bytes_of(#[trigger] strengths@[i]) == bytes_of(*wanted),
{
    let mut i: usize = 0;
    while i < strengths.len()
        invariant
            i <= strengths@.len(),
            forall|j: int| 0 <= j < i ==> bytes_of(#[trigger] strengths@[j]) != bytes_of(*wanted),
        decreases strengths@.len() - i,
    {
        if bytes_equal(strengths[i].as_str().as_bytes(), wanted.as_str().as_bytes()) {
            assert(bytes_of(strengths@[i as int]) == bytes_of(*wanted));
            return true;
        }
        i = i + 1;
    }
    false
}

fn has_related_named(related: &Vec<RelatedResource>, t: IndexResourceType, name: &String) -> (r: bool)
    ensures
        r == related_named(related@, t, bytes_of(*name)),
{
    let mut i: usize = 0;
    while i < related.len()
        invariant
            i <= related@.len(),
            forall|j: int| 0 <= j < i ==> !((#[trigger] related@[j]).resource_type == t && value_matches(
                related@[j].name,
                bytes_of(*name),
            )),
        decreases related@.len() - i,
    {
        if related[i].resource_type == t && value_eq(&related[i].name, name) {
            return true;
        }
        i = i + 1;
    }
    false
}

fn named_ok(c: &QueryCandidate, t: IndexResourceType, name: &String) -> (r: bool)
    ensures
        r == named_filter_ok(*c, t, bytes_of(*name)),
{
    if c.resource_type == t {
        value_eq(&c.name, name)
    } else {
        has_related_named(&c.related, t, name)
    }
}

/// Whether the store's read-time filters admit the row.
pub fn index_row_in_scope(f: &IndexQueryFilter, c: &QueryCandidate, principal: Principal) -> (r: bool)
    ensures
        r == row_in_scope(*f, *c, principal),
{
    let owner_ok = match c.owner {
        None => true,
        Some(o) => o == principal,
    };
    let type_ok = match f.resource_type {
        Some(t) => c.resource_type == t,
        None => true,
    };
    let fresh_ok = match f.freshness {
        Some(x) => c.freshness == x,
        None => c.freshness != Freshness::Historical,
    };
    let kind_ok = match f.source_kind {
        Some(k) => c.source_kind == k,
        None => true,
    };
    let changed_ok = match f.changed_since_ms {
        Some(t) => c.updated_at_ms >= t,
        None => true,
    };
    owner_ok && type_ok && fresh_ok && kind_ok && changed_ok
}

/// Whether a row that was read passes the query's remaining filters.
pub fn index_row_matches(f: &IndexQueryFilter, c: &QueryCandidate) -> (r: bool)
    ensures
        r == row_matches(*f, *c),
{
    if let Some(a) = &f.application {
        if !(value_eq(&c.desktop_id, a) || value_eq(&c.name, a) || value_eq(&c.application_ref, a) || value_eq(
            &c.application_name,
            a,
        )) {
            return false;
        }
    }
    if let Some(p) = &f.provider {
        if !(value_eq(&c.provider_id, p) || value_eq(&c.provider_type, p)) {
            return false;
        }
    }
    if let Some(cap) = &f.capability {
        if !value_eq(&c.capability_id, cap) {
            return false;
        }
    }
    if let Some(cp) = f.control_path {
        if !has_control_path(&c.control_paths, cp) {
            return false;
        }
    }
    if let Some(ev) = &f.evidence {
        if !has_evidence(&c.relation_evidence, ev) {
            return false;
        }
    }
    if let Some(w) = &f.workspace {
        if !named_ok(c, IndexResourceType::Workspace, w) {
            return false;
        }
    }
    if let Some(d) = &f.display {
        if !named_ok(c, IndexResourceType::Display, d) {
            return false;
        }
    }
    true
}

pub open spec fn resource_type_from(b: Seq<u8>) -> Option<IndexResourceType> {
    if b == "application_definition".spec_bytes() {
        Some(IndexResourceType::ApplicationDefinition)
    } else if b == "process".spec_bytes() {
        Some(IndexResourceType::Process)
    } else if b == "openrc_service".spec_bytes() {
        Some(IndexResourceType::OpenRcService)
    } else if b == "window".spec_bytes() {
        Some(IndexResourceType::Window)
    } else if b == "workspace".spec_bytes() {
        Some(IndexResourceType::Workspace)
    } else if b == "display".spec_bytes() {
        Some(IndexResourceType::Display)
    } else if b == "provider_registration".spec_bytes() {
        Some(IndexResourceType::ProviderRegistration)
    } else if b == "provider_resource".spec_bytes() {
        Some(IndexResourceType::ProviderResource)
    } else if b == "registered_capability".spec_bytes() {
        Some(IndexResourceType::RegisteredCapability)
    } else if b == "application_instance".spec_bytes() {
        Some(IndexResourceType::ApplicationInstance)
    } else {
        None
    }
}

/// Reads a stored index resource type by its wire name.
pub fn parse_index_resource_type(value: &str) -> (r: Option<IndexResourceType>)
    ensures
        r == resource_type_from(value.spec_bytes()),
{
    if str_equal(value, "application_definition") {
        Some(IndexResourceType::ApplicationDefinition)
    } else if str_equal(value, "process") {
        Some(IndexResourceType::Process)
    } else if str_equal(value, "openrc_service") {
        Some(IndexResourceType::OpenRcService)
    } else if str_equal(value, "window") {
        Some(IndexResourceType::Window)
    } else if str_equal(value, "workspace") {
        Some(IndexResourceType::Workspace)
    } else if str_equal(value, "display") {
        Some(IndexResourceType::Display)
    } else if str_equal(value, "provider_registration") {
        Some(IndexResourceType::ProviderRegistration)
    } else if str_equal(value, "provider_resource") {
        Some(IndexResourceType::ProviderResource)
    } else if str_equal(value, "registered_capability") {
        Some(IndexResourceType::RegisteredCapability)
    } else if str_equal(value, "application_instance") {
        Some(IndexResourceType::ApplicationInstance)
    } else {
        None
    }
}

pub open spec fn source_kind_from(b: Seq<u8>) -> Option<IndexSourceKind> {
    if b == "applications".spec_bytes() {
        Some(IndexSourceKind::Applications)
    } else if b == "proc".spec_bytes() {
        Some(IndexSourceKind::Proc)
    } else if b == "openrc".spec_bytes() {
        Some(IndexSourceKind::OpenRc)
    } else if b == "x11".spec_bytes() {
        Some(IndexSourceKind::X11)
    } else if b == "i3".spec_bytes() {
        Some(IndexSourceKind::I3)
    } else if b == "providers".spec_bytes() {
        Some(IndexSourceKind::Providers)
    } else if b == "correlation".spec_bytes() {
        Some(IndexSourceKind::Correlation)
    } else {
        None
    }
}

/// Reads a stored index source kind by its wire name.
pub fn parse_index_source_kind(value: &str) -> (r: Option<IndexSourceKind>)
    ensures
        r == source_kind_from(value.spec_bytes()),
{
    if str_equal(value, "applications") {
        Some(IndexSourceKind::Applications)
    } else if str_equal(value, "proc") {
        Some(IndexSourceKind::Proc)
    } else if str_equal(value, "openrc") {
        Some(IndexSourceKind::OpenRc)
    } else if str_equal(value, "x11") {
        Some(IndexSourceKind::X11)
    } else if str_equal(value, "i3") {
        Some(IndexSourceKind::I3)
    } else if str_equal(value, "providers") {
        Some(IndexSourceKind::Providers)
    } else if str_equal(value, "correlation") {
        Some(IndexSourceKind::Correlation)
    } else {
        None
    }
}

pub open spec fn freshness_from(b: Seq<u8>) -> Option<Freshness> {
    if b == "live".spec_bytes() {
        Some(Freshness::Live)
    } else if b == "recent".spec_bytes() {
        Some(Freshness::Recent)
    } else if b == "stale".spec_bytes() {
        Some(Freshness::Stale)
    } else if b == "unavailable".spec_bytes() {
        Some(Freshness::Unavailable)
    } else if b == "historical".spec_bytes() {
        Some(Freshness::Historical)
    } else {
        None
    }
}

/// Reads a stored freshness by its wire name.
pub fn parse_freshness(value: &str) -> (r: Option<Freshness>)
    ensures
        r == freshness_from(value.spec_bytes()),
{
    if str_equal(value, "live") {
        Some(Freshness::Live)
    } else if str_equal(value, "recent") {
        Some(Freshness::Recent)
    } else if str_equal(value, "stale") {
        Some(Freshness::Stale)
    } else if str_equal(value, "unavailable") {
        Some(Freshness::Unavailable)
    } else if str_equal(value, "historical") {
        Some(Freshness::Historical)
    } else {
        None
    }
}

pub open spec fn control_path_from(b: Seq<u8>) -> Option<ControlPathKind> {
    if b == "registered_provider".spec_bytes() {
        Some(ControlPathKind::RegisteredProvider)
    } else if b == "structured_api".spec_bytes() {
        Some(ControlPathKind::StructuredApi)
    } else if b == "structured_cli".spec_bytes() {
        Some(ControlPathKind::StructuredCli)
    } else if b == "application_adapter".spec_bytes() {
        Some(ControlPathKind::ApplicationAdapter)
    } else if b == "accessibility".spec_bytes() {
        Some(ControlPathKind::Accessibility)
    } else if b == "process_window".spec_bytes() {
        Some(ControlPathKind::ProcessWindow)
    } else if b == "visual_fallback".spec_bytes() {
        Some(ControlPathKind::VisualFallback)
    } else {
        None
    }
}

/// Reads a stored control path by its wire name.
pub fn parse_control_path(value: &str) -> (r: Option<ControlPathKind>)
    ensures
        r == control_path_from(value.spec_bytes()),
{
    if str_equal(value, "registered_provider") {
        Some(ControlPathKind::RegisteredProvider)
    } else if str_equal(value, "structured_api") {
        Some(ControlPathKind::StructuredApi)
    } else if str_equal(value, "structured_cli") {
        Some(ControlPathKind::StructuredCli)
    } else if str_equal(value, "application_adapter") {
        Some(ControlPathKind::ApplicationAdapter)
    } else if str_equal(value, "accessibility") {
        Some(ControlPathKind::Accessibility)
    } else if str_equal(value, "process_window") {
        Some(ControlPathKind::ProcessWindow)
    } else if str_equal(value, "visual_fallback") {
        Some(ControlPathKind::VisualFallback)
    } else {
        None
    }
}

/// The evidence strengths a relation may carry.
pub open spec fn evidence_strength_known(b: Seq<u8>) -> bool {
    b == "authoritative".spec_bytes() || b == "strong".spec_bytes() || b == "heuristic".spec_bytes()
}

/// Whether `value` names an evidence strength.
pub fn is_evidence_strength(value: &str) -> (r: bool)
    ensures
        r == evidence_strength_known(value.spec_bytes()),
{
    str_equal(value, "authoritative") || str_equal(value, "strong") || str_equal(value, "heuristic")
}

} // verus!
