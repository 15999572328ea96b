//! Health observations: how each runtime component reports its state, how the
//! catalogue a caller sees is assembled (ordered by component reference, one
//! entry per reference, only what the caller may see), and how a stored
//! observation is checked.
use vstd::prelude::*;
use vstd::string::{StringExecFns, StringSliceAdditionalSpecFns};
use vstd::utf8::encode_utf8;
use crate::json::{string_map_json_len, string_map_json_len_capped};
use crate::ids::{check_owner_visible, owner_visible, Principal};
use crate::index::HealthState;
use crate::migration::DatabaseReadiness;
use crate::runtime::RuntimeReadiness;
use crate::safety::{key_secret_like, secret_like_key, secret_like_text, text_secret_like};
use crate::text::{
    blank, check_single_line_text, has_control_break, decimal_chars, decimal_text, str_equal, bytes_equal, bytes_less, bytes_lt, lemma_bytes_lt_asymmetric, lemma_bytes_lt_total,
    lemma_bytes_lt_transitive,
};

verus! {

pub const MAX_HEALTH_COMPONENT_REF_BYTES: usize = 192;
pub const MAX_HEALTH_SUMMARY_BYTES: usize = 512;
pub const MAX_HEALTH_SOURCE_BYTES: usize = 128;
pub const MAX_HEALTH_GENERATION_BYTES: usize = 128;
pub const MAX_HEALTH_DETAILS: usize = 16;
pub const MAX_HEALTH_DETAIL_KEY_BYTES: usize = 64;
pub const MAX_HEALTH_DETAIL_VALUE_BYTES: usize = 256;
pub const MAX_HEALTH_DETAILS_JSON_BYTES: usize = 2048;
pub const MAX_HEALTH_OBSERVATIONS: usize = 128;
pub const MAX_RECOVERY_ATTEMPTS_PER_COMPONENT: usize = 32;
pub const RECOVERY_HISTORY_MAX_AGE_MS: i64 = 604800000;
pub const HEALTH_EVENT_MAX_AGE_MS: i64 = 2592000000;

#[derive(Clone, Copy, Debug, PartialEq, Eq, Structural)]
pub enum HealthComponentType {
    Runtime,
    State,
    Storage,
    ProviderRegistry,
    Policy,
    Index,
    IndexSource,
    Provider,
    TaskRuntime,
    Audit,
}

#[derive(Clone, Copy, Debug, PartialEq, Eq, Structural)]
pub enum HealthReasonCode {
    Ready,
    Starting,
    Stopping,
    NotProbed,
    StatusUnavailable,
    StateIntegrityFailed,
    Incompatible,
    ProviderDegraded,
    ProviderUnavailable,
    PolicyUnavailable,
    SourceDisconnected,
    ReconciliationRequired,
    AuditWriteFailed,
    IpcFailed,
    ResourceLow,
    ResourceUnavailable,
    ServiceNotRunning,
}

#[derive(Clone, Copy, Debug, PartialEq, Eq, Structural)]
pub enum RecoveryDisposition {
    Observe,
    Reconcile,
    Restart,
    Repair,
    AdministratorRequired,
    Terminal,
}

pub open spec fn health_state_name(h: HealthState) -> Seq<char> {
    match h {
        HealthState::Healthy => "healthy"@,
        HealthState::Degraded => "degraded"@,
        HealthState::Unavailable => "unavailable"@,
        HealthState::Unknown => "unknown"@,
    }
}

pub fn health_state_text(h: HealthState) -> (r: &'static str)
    ensures
        r@ == health_state_name(h),
{
    match h {
        HealthState::Healthy => "healthy",
        HealthState::Degraded => "degraded",
        HealthState::Unavailable => "unavailable",
        HealthState::Unknown => "unknown",
    }
}

/// Degraded and unavailable components are the ones an operator must look at.
pub open spec fn needs_attention(h: HealthState) -> bool {
    h is Degraded || h is Unavailable
}

/// One bounded, non-secret key/value detail of an observation.
pub struct SafeDetail {
    pub key: String,
    pub value: String,
}

/// The latest known health of one component.
pub struct HealthObservation {
    pub component_ref: String,
    pub owner: Option<Principal>,
    pub component_type: HealthComponentType,
    pub health_state: HealthState,
    pub reason_code: HealthReasonCode,
    pub summary: String,
    pub source: String,
    pub observed_at_ms: i64,
    pub source_generation: Option<String>,
    pub last_healthy_at_ms: Option<i64>,
    pub recovery_disposition: RecoveryDisposition,
    pub recovery_attempt_count: u16,
    pub safe_details: Vec<SafeDetail>,
}

/// The model of an observation: its text fields as character sequences.
pub struct HealthObservationView {
    pub component_ref: Seq<char>,
    pub owner: Option<Principal>,
    pub component_type: HealthComponentType,
    pub health_state: HealthState,
    pub reason_code: HealthReasonCode,
    pub summary: Seq<char>,
    pub source: Seq<char>,
    pub observed_at_ms: i64,
    pub source_generation: Option<Seq<char>>,
    pub last_healthy_at_ms: Option<i64>,
    pub recovery_disposition: RecoveryDisposition,
    pub recovery_attempt_count: u16,
    pub safe_details: Seq<(Seq<char>, Seq<char>)>,
}

pub open spec fn opt_text(s: Option<String>) -> Option<Seq<char>> {
    match s {
        Some(t) => Some(t@),
        None => None,
    }
}

pub open spec fn detail_view(d: SafeDetail) -> (Seq<char>, Seq<char>) {
    (d.key@, d.value@)
}

impl View for HealthObservation {
    type V = HealthObservationView;

    open spec fn view(&self) -> HealthObservationView {
        HealthObservationView {
            component_ref: self.component_ref@,
            owner: self.owner,
            component_type: self.component_type,
            health_state: self.health_state,
            reason_code: self.reason_code,
            summary: self.summary@,
            source: self.source@,
            observed_at_ms: self.observed_at_ms,
            source_generation: opt_text(self.source_generation),
            last_healthy_at_ms: self.last_healthy_at_ms,
            recovery_disposition: self.recovery_disposition,
            recovery_attempt_count: self.recovery_attempt_count,
            safe_details: self.safe_details@.map_values(|d: SafeDetail| detail_view(d)),
        }
    }
}

impl SafeDetail {
    pub fn duplicate(&self) -> (r: SafeDetail)
        ensures
            detail_view(r) == detail_view(*self),
    {
        SafeDetail { key: self.key.clone(), value: self.value.clone() }
    }
}

fn duplicate_text(s: &Option<String>) -> (r: Option<String>)
    ensures
        opt_text(r) == opt_text(*s),
{
    match s {
        Some(t) => Some(t.clone()),
        None => None,
    }
}

fn duplicate_details(v: &Vec<SafeDetail>) -> (r: Vec<SafeDetail>)
    ensures
        r@.map_values(|d: SafeDetail| detail_view(d)) == v@.map_values(
            |d: SafeDetail| detail_view(d),
        ),
{
    let mut r: Vec<SafeDetail> = Vec::new();
    let mut i: usize = 0;
    while i < v.len()
        invariant
            i <= v@.len(),
            r@.len() == i,
            forall|j: int| 0 <= j < i ==> detail_view(#[trigger] r@[j]) == detail_view(v@[j]),
        decreases v@.len() - i,
    {
        r.push(v[i].duplicate());
        i = i + 1;
    }
    assert(r@.map_values(|d: SafeDetail| detail_view(d)) =~= v@.map_values(
        |d: SafeDetail| detail_view(d),
    ));
    r
}

impl HealthObservation {
    pub fn duplicate(&self) -> (r: HealthObservation)
        ensures
            r@ == self@,
    {
        HealthObservation {
            component_ref: self.component_ref.clone(),
            owner: self.owner,
            component_type: self.component_type,
            health_state: self.health_state,
            reason_code: self.reason_code,
            summary: self.summary.clone(),
            source: self.source.clone(),
            observed_at_ms: self.observed_at_ms,
            source_generation: duplicate_text(&self.source_generation),
            last_healthy_at_ms: self.last_healthy_at_ms,
            recovery_disposition: self.recovery_disposition,
            recovery_attempt_count: self.recovery_attempt_count,
            safe_details: duplicate_details(&self.safe_details),
        }
    }
}

/// The observation the runtime makes of a component from a state, a reason
/// and a recovery disposition: no generation, no details, healthy-since set
/// to now exactly when the component is healthy.
pub open spec fn simple_view(
    component_ref: Seq<char>,
    owner: Option<Principal>,
    component_type: HealthComponentType,
    health_state: HealthState,
    reason_code: HealthReasonCode,
    recovery_disposition: RecoveryDisposition,
    observed_at_ms: i64,
) -> HealthObservationView {
    HealthObservationView {
        component_ref,
        owner,
        component_type,
        health_state,
        reason_code,
        summary: component_ref + " health is "@ + health_state_name(health_state),
        source: "portusd-health"@,
        observed_at_ms,
        source_generation: None,
        last_healthy_at_ms: if health_state is Healthy {
            Some(observed_at_ms)
        } else {
            None
        },
        recovery_disposition,
        recovery_attempt_count: 0,
        safe_details: Seq::empty(),
    }
}

pub fn simple_health_observation(
    component_ref: &str,
    owner: Option<Principal>,
    component_type: HealthComponentType,
    health_state: HealthState,
    reason_code: HealthReasonCode,
    recovery_disposition: RecoveryDisposition,
    observed_at_ms: i64,
) -> (r: HealthObservation)
    ensures
        r@ == simple_view(
            component_ref@,
            owner,
            component_type,
            health_state,
            reason_code,
            recovery_disposition,
            observed_at_ms,
        ),
{
    let mut summary = String::from_str(component_ref);
    summary.append(" health is ");
    summary.append(health_state_text(health_state));
    let details: Vec<SafeDetail> = Vec::new();
    let r = HealthObservation {
        component_ref: String::from_str(component_ref),
        owner,
        component_type,
        health_state,
        reason_code,
        summary,
        source: String::from_str("portusd-health"),
        observed_at_ms,
        source_generation: None,
        last_healthy_at_ms: if health_state == HealthState::Healthy {
            Some(observed_at_ms)
        } else {
            None
        },
        recovery_disposition,
        recovery_attempt_count: 0,
        safe_details: details,
    };
    assert(r@.safe_details =~= Seq::<(Seq<char>, Seq<char>)>::empty());
    r
}

/// The runtime reports itself healthy only while ready.
pub open spec fn runtime_view(readiness: RuntimeReadiness, now: i64) -> HealthObservationView {
    simple_view(
        "runtime:portusd"@,
        None,
        HealthComponentType::Runtime,
        if readiness is Ready {
            HealthState::Healthy
        } else {
            HealthState::Unavailable
        },
        match readiness {
            RuntimeReadiness::Ready => HealthReasonCode::Ready,
            RuntimeReadiness::Starting => HealthReasonCode::Starting,
            RuntimeReadiness::Stopping => HealthReasonCode::Stopping,
        },
        RecoveryDisposition::Observe,
        now,
    )
}

pub fn runtime_health_observation(readiness: RuntimeReadiness, now: i64) -> (r: HealthObservation)
    ensures
        r@ == runtime_view(readiness, now),
{
    match readiness {
        RuntimeReadiness::Ready => simple_health_observation(
            "runtime:portusd",
            None,
            HealthComponentType::Runtime,
            HealthState::Healthy,
            HealthReasonCode::Ready,
            RecoveryDisposition::Observe,
            now,
        ),
        RuntimeReadiness::Starting => simple_health_observation(
            "runtime:portusd",
            None,
            HealthComponentType::Runtime,
            HealthState::Unavailable,
            HealthReasonCode::Starting,
            RecoveryDisposition::Observe,
            now,
        ),
        RuntimeReadiness::Stopping => simple_health_observation(
            "runtime:portusd",
            None,
            HealthComponentType::Runtime,
            HealthState::Unavailable,
            HealthReasonCode::Stopping,
            RecoveryDisposition::Observe,
            now,
        ),
    }
}

/// The database is healthy only when ready; any other readiness needs an
/// administrator.
pub open spec fn state_view(readiness: DatabaseReadiness, now: i64) -> HealthObservationView {
    match readiness {
        DatabaseReadiness::Ready => simple_view(
            "state:portus.db"@,
            None,
            HealthComponentType::State,
            HealthState::Healthy,
            HealthReasonCode::Ready,
            RecoveryDisposition::Observe,
            now,
        ),
        DatabaseReadiness::IntegrityFailure => simple_view(
            "state:portus.db"@,
            None,
            HealthComponentType::State,
            HealthState::Unavailable,
            HealthReasonCode::StateIntegrityFailed,
            RecoveryDisposition::AdministratorRequired,
            now,
        ),
        DatabaseReadiness::UnsupportedSchema => simple_view(
            "state:portus.db"@,
            None,
            HealthComponentType::State,
            HealthState::Unavailable,
            HealthReasonCode::Incompatible,
            RecoveryDisposition::AdministratorRequired,
            now,
        ),
    }
}

pub fn state_health_observation(readiness: DatabaseReadiness, now: i64) -> (r: HealthObservation)
    ensures
        r@ == state_view(readiness, now),
{
    match readiness {
        DatabaseReadiness::Ready => simple_health_observation(
            "state:portus.db",
            None,
            HealthComponentType::State,
            HealthState::Healthy,
            HealthReasonCode::Ready,
            RecoveryDisposition::Observe,
            now,
        ),
        DatabaseReadiness::IntegrityFailure => simple_health_observation(
            "state:portus.db",
            None,
            HealthComponentType::State,
            HealthState::Unavailable,
            HealthReasonCode::StateIntegrityFailed,
            RecoveryDisposition::AdministratorRequired,
            now,
        ),
        DatabaseReadiness::UnsupportedSchema => simple_health_observation(
            "state:portus.db",
            None,
            HealthComponentType::State,
            HealthState::Unavailable,
            HealthReasonCode::Incompatible,
            RecoveryDisposition::AdministratorRequired,
            now,
        ),
    }
}

pub open spec fn reason_for_health(
    health: HealthState,
    degraded: HealthReasonCode,
    unavailable: HealthReasonCode,
) -> HealthReasonCode {
    match health {
        HealthState::Healthy => HealthReasonCode::Ready,
        HealthState::Degraded => degraded,
        HealthState::Unavailable => unavailable,
        HealthState::Unknown => HealthReasonCode::NotProbed,
    }
}

pub fn state_reason_for_health(
    health: HealthState,
    degraded: HealthReasonCode,
    unavailable: HealthReasonCode,
) -> (r: HealthReasonCode)
    ensures
        r == reason_for_health(health, degraded, unavailable),
{
    match health {
        HealthState::Healthy => HealthReasonCode::Ready,
        HealthState::Degraded => degraded,
        HealthState::Unavailable => unavailable,
        HealthState::Unknown => HealthReasonCode::NotProbed,
    }
}

/// A component that reconciliation can repair asks for reconciliation when it
/// needs attention, and is only observed otherwise.
pub open spec fn reconcilable_disposition(health: HealthState) -> RecoveryDisposition {
    if needs_attention(health) {
        RecoveryDisposition::Reconcile
    } else {
        RecoveryDisposition::Observe
    }
}

pub fn disposition_for_reconcilable(health: HealthState) -> (r: RecoveryDisposition)
    ensures
        r == reconcilable_disposition(health),
{
    match health {
        HealthState::Healthy | HealthState::Unknown => RecoveryDisposition::Observe,
        HealthState::Degraded | HealthState::Unavailable => RecoveryDisposition::Reconcile,
    }
}


/// The key a catalogue is ordered and deduplicated by: the component
/// reference's bytes.
pub open spec fn ref_key(o: HealthObservationView) -> Seq<u8> {
    encode_utf8(o.component_ref)
}

pub open spec fn views(s: Seq<HealthObservation>) -> Seq<HealthObservationView> {
    s.map_values(|o: HealthObservation| o@)
}

pub open spec fn visible_to(o: HealthObservationView, p: Principal) -> bool {
    owner_visible(o.owner, p)
}

/// Strictly ascending by component reference, so no reference occurs twice.
pub open spec fn strictly_ordered(r: Seq<HealthObservationView>) -> bool {
    forall|i: int, j: int| 0 <= i < j < r.len() ==> bytes_lt(#[trigger] ref_key(r[i]), #[trigger] ref_key(r[j]))
}

/// Item `w` of `s` is visible to `p` and no earlier visible item has its
/// reference.
#[verifier::opaque]
pub open spec fn first_visible(s: Seq<HealthObservationView>, p: Principal, w: int) -> bool {
    &&& 0 <= w < s.len()
    &&& visible_to(s[w], p)
    &&& forall|v: int| 0 <= v < w && visible_to(s[v], p) ==> ref_key(#[trigger] s[v]) != ref_key(s[w])
}

/// Observation `w`, among the first `n` of `s`, is the first one visible to
/// `p` with its reference, and `x` is that observation.
pub open spec fn witnessed_by(
    s: Seq<HealthObservationView>,
    p: Principal,
    n: int,
    x: HealthObservationView,
    w: int,
) -> bool {
    w < n && first_visible(s, p, w) && x == s[w]
}

/// Some observation among the first `n` of `s` is `x` and is the first one
/// visible to `p` with its reference.
pub open spec fn has_witness(
    s: Seq<HealthObservationView>,
    p: Principal,
    n: int,
    x: HealthObservationView,
) -> bool {
    exists|w: int| #[trigger] witnessed_by(s, p, n, x, w)
}

/// Each entry of `r` is the first visible observation, among the first `n` of
/// `s`, with its reference.
#[verifier::opaque]
pub open spec fn entries_first_visible(
    s: Seq<HealthObservationView>,
    n: int,
    p: Principal,
    r: Seq<HealthObservationView>,
) -> bool {
    forall|j: int| 0 <= j < r.len() ==> #[trigger] has_witness(s, p, n, r[j])
}

/// Every reference visible among the first `n` observations of `s` has an
/// entry in `r`.
#[verifier::opaque]
pub open spec fn covers_visible(
    s: Seq<HealthObservationView>,
    n: int,
    p: Principal,
    r: Seq<HealthObservationView>,
) -> bool {
    forall|w: int|
        #![trigger s[w]]
        0 <= w < n && visible_to(s[w], p) ==> exists|j: int| #![trigger r[j]] 0 <= j < r.len() && ref_key(r[j]) == ref_key(s[w])
}

/// `r` is what the caller `p` sees of the first `n` observations of `s`:
/// ordered by reference, each entry the first visible observation with its
/// reference, and every visible reference present.
pub open spec fn catalogue_prefix(
    s: Seq<HealthObservationView>,
    n: int,
    p: Principal,
    r: Seq<HealthObservationView>,
) -> bool {
    &&& strictly_ordered(r)
    &&& entries_first_visible(s, n, p, r)
    &&& covers_visible(s, n, p, r)
}

pub open spec fn catalogue_of(
    s: Seq<HealthObservationView>,
    p: Principal,
    r: Seq<HealthObservationView>,
) -> bool {
    catalogue_prefix(s, s.len() as int, p, r)
}

fn observation_key(o: &HealthObservation) -> (r: &[u8])
    ensures
        r@ == ref_key(o@),
{
    o.component_ref.as_str().as_bytes()
}

proof fn lemma_entries_extend(
    s: Seq<HealthObservationView>,
    i: int,
    p: Principal,
    o: Seq<HealthObservationView>,
)
    requires
        entries_first_visible(s, i, p, o),
    ensures
        entries_first_visible(s, i + 1, p, o),
{
    reveal(entries_first_visible);
    assert forall|j: int| 0 <= j < o.len() implies #[trigger] has_witness(s, p, i + 1, o[j]) by {
        assert(has_witness(s, p, i, o[j]));
        let w = choose|w: int| #[trigger] witnessed_by(s, p, i, o[j], w);
        assert(witnessed_by(s, p, i + 1, o[j], w));
    }
    assert(entries_first_visible(s, i + 1, p, o));
}

proof fn lemma_covers_extend(
    s: Seq<HealthObservationView>,
    i: int,
    p: Principal,
    o: Seq<HealthObservationView>,
)
    requires
        0 <= i < s.len(),
        covers_visible(s, i, p, o),
        !visible_to(s[i], p) || exists|j: int| 0 <= j < o.len() && ref_key(#[trigger] o[j]) == ref_key(s[i]),
    ensures
        covers_visible(s, i + 1, p, o),
{
    reveal(covers_visible);
}

proof fn lemma_catalogue_skip(
    s: Seq<HealthObservationView>,
    i: int,
    p: Principal,
    o: Seq<HealthObservationView>,
)
    requires
        0 <= i < s.len(),
        catalogue_prefix(s, i, p, o),
        !visible_to(s[i], p) || exists|j: int| 0 <= j < o.len() && ref_key(#[trigger] o[j]) == ref_key(s[i]),
    ensures
        catalogue_prefix(s, i + 1, p, o),
{
    lemma_entries_extend(s, i, p, o);
    lemma_covers_extend(s, i, p, o);
}

proof fn lemma_new_reference_is_first(
    s: Seq<HealthObservationView>,
    i: int,
    p: Principal,
    o: Seq<HealthObservationView>,
)
    requires
        0 <= i < s.len(),
        covers_visible(s, i, p, o),
        visible_to(s[i], p),
        forall|j: int| 0 <= j < o.len() ==> ref_key(#[trigger] o[j]) != ref_key(s[i]),
    ensures
        first_visible(s, p, i),
{
    reveal(covers_visible);
    reveal(first_visible);
    assert forall|v: int| 0 <= v < i && visible_to(s[v], p) implies ref_key(#[trigger] s[v]) != ref_key(s[i]) by {
        let j = choose|j: int| #![trigger o[j]] 0 <= j < o.len() && ref_key(o[j]) == ref_key(s[v]);
        assert(ref_key(o[j]) != ref_key(s[i]));
    }
}

proof fn lemma_insert_ordered(o: Seq<HealthObservationView>, x: HealthObservationView, pos: int)
    requires
        strictly_ordered(o),
        0 <= pos <= o.len(),
        forall|j: int| 0 <= j < pos ==> bytes_lt(#[trigger] ref_key(o[j]), ref_key(x)),
        forall|j: int| pos <= j < o.len() ==> bytes_lt(ref_key(x), #[trigger] ref_key(o[j])),
    ensures
        strictly_ordered(o.insert(pos, x)),
{
    let o2 = o.insert(pos, x);
    let xk = ref_key(x);
    assert forall|a: int, b: int| 0 <= a < b < o2.len() implies bytes_lt(#[trigger] ref_key(o2[a]), #[trigger] ref_key(o2[b])) by {
        if b < pos {
            assert(o2[a] == o[a] && o2[b] == o[b]);
        } else if b == pos {
            assert(o2[a] == o[a]);
            assert(bytes_lt(ref_key(o[a]), xk));
        } else if a < pos {
            assert(o2[a] == o[a] && o2[b] == o[b - 1]);
            assert(bytes_lt(ref_key(o[a]), xk));
            assert(bytes_lt(xk, ref_key(o[b - 1])));
            lemma_bytes_lt_transitive(ref_key(o2[a]), xk, ref_key(o2[b]));
        } else if a == pos {
            assert(o2[b] == o[b - 1]);
            assert(bytes_lt(xk, ref_key(o[b - 1])));
        } else {
            assert(o2[a] == o[a - 1] && o2[b] == o[b - 1]);
            assert(bytes_lt(ref_key(o[a - 1]), ref_key(o[b - 1])));
        }
    }
}

proof fn lemma_entries_insert(
    s: Seq<HealthObservationView>,
    i: int,
    p: Principal,
    o: Seq<HealthObservationView>,
    pos: int,
)
    requires
        0 <= i < s.len(),
        0 <= pos <= o.len(),
        entries_first_visible(s, i, p, o),
        first_visible(s, p, i),
    ensures
        entries_first_visible(s, i + 1, p, o.insert(pos, s[i])),
{
    reveal(entries_first_visible);
    let o2 = o.insert(pos, s[i]);
    assert forall|j: int| 0 <= j < o2.len() implies #[trigger] has_witness(s, p, i + 1, o2[j]) by {
        if j < pos {
            assert(o2[j] == o[j]);
            assert(has_witness(s, p, i, o[j]));
            let w = choose|w: int| #[trigger] witnessed_by(s, p, i, o[j], w);
            assert(witnessed_by(s, p, i + 1, o2[j], w));
        } else if j == pos {
            assert(witnessed_by(s, p, i + 1, o2[j], i));
        } else {
            assert(o2[j] == o[j - 1]);
            assert(has_witness(s, p, i, o[j - 1]));
            let w = choose|w: int| #[trigger] witnessed_by(s, p, i, o[j - 1], w);
            assert(witnessed_by(s, p, i + 1, o2[j], w));
        }
    }
    assert(entries_first_visible(s, i + 1, p, o2));
}

proof fn lemma_covers_insert(
    s: Seq<HealthObservationView>,
    i: int,
    p: Principal,
    o: Seq<HealthObservationView>,
    pos: int,
)
    requires
        0 <= i < s.len(),
        0 <= pos <= o.len(),
        covers_visible(s, i, p, o),
    ensures
        covers_visible(s, i + 1, p, o.insert(pos, s[i])),
{
    reveal(covers_visible);
    let o2 = o.insert(pos, s[i]);
    assert forall|w: int| #![trigger s[w]] 0 <= w < i + 1 && visible_to(s[w], p) implies exists|j: int| #![trigger o2[j]] 0 <= j < o2.len() && ref_key(o2[j]) == ref_key(s[w]) by {
        if w == i {
            assert(o2[pos] == s[i]);
        } else {
            let j0 = choose|j: int| #![trigger o[j]] 0 <= j < o.len() && ref_key(o[j]) == ref_key(s[w]);
            if j0 < pos {
                assert(o2[j0] == o[j0]);
            } else {
                assert(o2[j0 + 1] == o[j0]);
            }
        }
    }
}

proof fn lemma_catalogue_insert(
    s: Seq<HealthObservationView>,
    i: int,
    p: Principal,
    o: Seq<HealthObservationView>,
    pos: int,
)
    requires
        0 <= i < s.len(),
        catalogue_prefix(s, i, p, o),
        visible_to(s[i], p),
        0 <= pos <= o.len(),
        forall|j: int| 0 <= j < pos ==> bytes_lt(#[trigger] ref_key(o[j]), ref_key(s[i])),
        forall|j: int| pos <= j < o.len() ==> bytes_lt(ref_key(s[i]), #[trigger] ref_key(o[j])),
    ensures
        catalogue_prefix(s, i + 1, p, o.insert(pos, s[i])),
{
    let xk = ref_key(s[i]);
    assert forall|j: int| 0 <= j < o.len() implies ref_key(#[trigger] o[j]) != xk by {
        if j < pos {
            lemma_bytes_lt_asymmetric(ref_key(o[j]), xk);
        } else {
            lemma_bytes_lt_asymmetric(xk, ref_key(o[j]));
        }
    }
    lemma_new_reference_is_first(s, i, p, o);
    lemma_insert_ordered(o, s[i], pos);
    lemma_entries_insert(s, i, p, o, pos);
    lemma_covers_insert(s, i, p, o, pos);
}

/// Orders the observations by component reference, keeps those the caller may
/// see, and keeps the first of each reference.
pub fn assemble_catalogue(items: &Vec<HealthObservation>, principal: Principal) -> (r: Vec<
    HealthObservation,
>)
    ensures
        catalogue_of(views(items@), principal, views(r@)),
{
    let ghost s = views(items@);
    let mut out: Vec<HealthObservation> = Vec::new();
    let mut i: usize = 0;
    proof {
        assert(views(out@) =~= Seq::<HealthObservationView>::empty());
        reveal(entries_first_visible);
        reveal(covers_visible);
    }
    while i < items.len()
        invariant
            s == views(items@),
            i <= items@.len(),
            catalogue_prefix(s, i as int, principal, views(out@)),
        decreases items@.len() - i,
    {
        let x = &items[i];
        assert(s[i as int] == x@);
        if check_owner_visible(x.owner, principal) {
            let xk = observation_key(x);
            let ghost o = views(out@);
            let mut pos: usize = 0;
            while pos < out.len() && bytes_less(observation_key(&out[pos]), xk)
                invariant
                    o == views(out@),
                    xk@ == ref_key(s[i as int]),
                    pos <= out@.len(),
                    forall|j: int| 0 <= j < pos ==> bytes_lt(#[trigger] ref_key(o[j]), xk@),
                decreases out@.len() - pos,
            {
                pos = pos + 1;
            }
            let duplicate = pos < out.len() && bytes_equal(observation_key(&out[pos]), xk);
            if !duplicate {
                proof {
                    assert forall|j: int| pos <= j < o.len() implies bytes_lt(xk@, #[trigger] ref_key(o[j])) by {
                        lemma_bytes_lt_total(xk@, ref_key(o[pos as int]));
                        if j > pos {
                            lemma_bytes_lt_transitive(xk@, ref_key(o[pos as int]), ref_key(o[j]));
                        }
                    }
                    lemma_catalogue_insert(s, i as int, principal, o, pos as int);
                }
                out.insert(pos, x.duplicate());
                assert(views(out@) =~= o.insert(pos as int, s[i as int]));
            } else {
                proof {
                    assert(ref_key(o[pos as int]) == ref_key(s[i as int]));
                    lemma_catalogue_skip(s, i as int, principal, o);
                }
            }
        } else {
            proof {
                lemma_catalogue_skip(s, i as int, principal, views(out@));
            }
        }
        i = i + 1;
    }
    out
}


/// The index's own state as the runtime tracks it.
#[derive(Clone, Copy, Debug, PartialEq, Eq, Structural)]
pub enum IndexHealthState {
    Healthy,
    Degraded,
    Unavailable,
    Initializing,
    Rebuilding,
}

pub open spec fn index_health_from(b: Seq<u8>) -> Option<IndexHealthState> {
    if b == "healthy".spec_bytes() {
        Some(IndexHealthState::Healthy)
    } else if b == "degraded".spec_bytes() {
        Some(IndexHealthState::Degraded)
    } else if b == "unavailable".spec_bytes() {
        Some(IndexHealthState::Unavailable)
    } else if b == "initializing".spec_bytes() {
        Some(IndexHealthState::Initializing)
    } else if b == "rebuilding".spec_bytes() {
        Some(IndexHealthState::Rebuilding)
    } else {
        None
    }
}

/// Reads the index's stored state.
pub fn parse_index_health_state(value: &str) -> (r: Option<IndexHealthState>)
    ensures
        r == index_health_from(value.spec_bytes()),
{
    if str_equal(value, "healthy") {
        Some(IndexHealthState::Healthy)
    } else if str_equal(value, "degraded") {
        Some(IndexHealthState::Degraded)
    } else if str_equal(value, "unavailable") {
        Some(IndexHealthState::Unavailable)
    } else if str_equal(value, "initializing") {
        Some(IndexHealthState::Initializing)
    } else if str_equal(value, "rebuilding") {
        Some(IndexHealthState::Rebuilding)
    } else {
        None
    }
}

/// What the runtime knows of one index source when it builds the catalogue.
pub struct IndexSourceHealth {
    pub source_id: String,
    pub owner: Option<Principal>,
    pub health: HealthState,
    pub source_generation: String,
    pub last_success_at_ms: Option<i64>,
}

/// One registered provider as the registry stores it.
pub struct ProviderHealthEntry {
    pub provider_id: String,
    pub owner: Option<Principal>,
    pub health_state: String,
}

/// Everything the runtime reads before it builds the health catalogue.
pub struct HealthInputs {
    pub readiness: RuntimeReadiness,
    pub database: DatabaseReadiness,
    pub provider_registry: HealthState,
    pub policy: HealthState,
    pub index: IndexHealthState,
    pub index_sources: Vec<IndexSourceHealth>,
    pub providers: Vec<ProviderHealthEntry>,
    pub task_ready: bool,
    pub audit_failures: u64,
}

pub open spec fn registry_view(h: HealthState, now: i64) -> HealthObservationView {
    simple_view(
        "provider-registry:system"@,
        None,
        HealthComponentType::ProviderRegistry,
        h,
        reason_for_health(h, HealthReasonCode::ProviderDegraded, HealthReasonCode::ProviderUnavailable),
        reconcilable_disposition(h),
        now,
    )
}

/// A policy that failed to load needs an administrator.
pub open spec fn policy_view(h: HealthState, now: i64) -> HealthObservationView {
    simple_view(
        "policy:system"@,
        None,
        HealthComponentType::Policy,
        h,
        match h {
            HealthState::Healthy => HealthReasonCode::Ready,
            HealthState::Unknown => HealthReasonCode::NotProbed,
            _ => HealthReasonCode::PolicyUnavailable,
        },
        if needs_attention(h) {
            RecoveryDisposition::AdministratorRequired
        } else {
            RecoveryDisposition::Observe
        },
        now,
    )
}

/// An index that is still initialising or rebuilding is of unknown health and
/// asks for reconciliation, as a degraded or unavailable one does.
pub open spec fn index_view(st: IndexHealthState, now: i64) -> HealthObservationView {
    simple_view(
        "index:system"@,
        None,
        HealthComponentType::Index,
        match st {
            IndexHealthState::Healthy => HealthState::Healthy,
            IndexHealthState::Degraded => HealthState::Degraded,
            IndexHealthState::Unavailable => HealthState::Unavailable,
            _ => HealthState::Unknown,
        },
        match st {
            IndexHealthState::Healthy => HealthReasonCode::Ready,
            IndexHealthState::Degraded => HealthReasonCode::SourceDisconnected,
            IndexHealthState::Unavailable => HealthReasonCode::SourceDisconnected,
            _ => HealthReasonCode::ReconciliationRequired,
        },
        if st is Healthy {
            RecoveryDisposition::Observe
        } else {
            RecoveryDisposition::Reconcile
        },
        now,
    )
}

/// A source owned by a principal gets the owner's uid in its reference.
pub open spec fn index_source_ref(id: Seq<char>, owner: Option<Principal>) -> Seq<char> {
    match owner {
        None => "index-source:"@ + id,
        Some(o) => "index-source:"@ + id + ":uid"@ + decimal_chars(o.uid as nat),
    }
}

pub open spec fn index_source_view(src: IndexSourceHealth, now: i64) -> HealthObservationView {
    let base = simple_view(
        index_source_ref(src.source_id@, src.owner),
        src.owner,
        HealthComponentType::IndexSource,
        src.health,
        match src.health {
            HealthState::Healthy => HealthReasonCode::Ready,
            HealthState::Unknown => HealthReasonCode::NotProbed,
            _ => HealthReasonCode::SourceDisconnected,
        },
        reconcilable_disposition(src.health),
        now,
    );
    HealthObservationView {
        source_generation: Some(src.source_generation@),
        last_healthy_at_ms: src.last_success_at_ms,
        ..base
    }
}

/// How a provider's stored health text reads; anything unrecognised is unknown.
pub open spec fn provider_health(text: Seq<u8>) -> HealthState {
    if text == "healthy".spec_bytes() {
        HealthState::Healthy
    } else if text == "degraded".spec_bytes() {
        HealthState::Degraded
    } else if text == "unavailable".spec_bytes() {
        HealthState::Unavailable
    } else {
        HealthState::Unknown
    }
}

pub fn parse_provider_health(value: &str) -> (r: HealthState)
    ensures
        r == provider_health(value.spec_bytes()),
{
    if str_equal(value, "healthy") {
        HealthState::Healthy
    } else if str_equal(value, "degraded") {
        HealthState::Degraded
    } else if str_equal(value, "unavailable") {
        HealthState::Unavailable
    } else {
        HealthState::Unknown
    }
}

pub open spec fn provider_view(e: ProviderHealthEntry, now: i64) -> HealthObservationView {
    let h = provider_health(encode_utf8(e.health_state@));
    simple_view(
        e.provider_id@,
        e.owner,
        HealthComponentType::Provider,
        h,
        reason_for_health(h, HealthReasonCode::ProviderDegraded, HealthReasonCode::ProviderUnavailable),
        reconcilable_disposition(h),
        now,
    )
}

pub open spec fn task_runtime_view(ready: bool, now: i64) -> HealthObservationView {
    simple_view(
        "task-runtime:portusd"@,
        None,
        HealthComponentType::TaskRuntime,
        if ready {
            HealthState::Healthy
        } else {
            HealthState::Unavailable
        },
        if ready {
            HealthReasonCode::Ready
        } else {
            HealthReasonCode::StatusUnavailable
        },
        RecoveryDisposition::Observe,
        now,
    )
}

/// Audit is degraded as soon as one record could not be written; the count of
/// failed writes is its one detail.
pub open spec fn audit_view(failures: u64, now: i64) -> HealthObservationView {
    let base = simple_view(
        "audit:portusd"@,
        None,
        HealthComponentType::Audit,
        if failures == 0 {
            HealthState::Healthy
        } else {
            HealthState::Degraded
        },
        if failures == 0 {
            HealthReasonCode::Ready
        } else {
            HealthReasonCode::AuditWriteFailed
        },
        if failures == 0 {
            RecoveryDisposition::Observe
        } else {
            RecoveryDisposition::AdministratorRequired
        },
        now,
    );
    HealthObservationView {
        safe_details: seq![("write_failures"@, decimal_chars(failures as nat))],
        ..base
    }
}

pub open spec fn source_views(v: Seq<IndexSourceHealth>, now: i64) -> Seq<HealthObservationView> {
    v.map_values(|src: IndexSourceHealth| index_source_view(src, now))
}

pub open spec fn provider_views(v: Seq<ProviderHealthEntry>, now: i64) -> Seq<HealthObservationView> {
    v.map_values(|e: ProviderHealthEntry| provider_view(e, now))
}

/// The observations the runtime makes itself, in the order it makes them.
pub open spec fn runtime_observations(inputs: HealthInputs, now: i64) -> Seq<HealthObservationView> {
    seq![
        runtime_view(inputs.readiness, now),
        state_view(inputs.database, now),
        registry_view(inputs.provider_registry, now),
        policy_view(inputs.policy, now),
        index_view(inputs.index, now),
    ] + source_views(inputs.index_sources@, now) + provider_views(inputs.providers@, now) + seq![
        task_runtime_view(inputs.task_ready, now),
        audit_view(inputs.audit_failures, now),
    ]
}

/// Law: the runtime's index observation carries the index's own health: it
/// is healthy (reason ready, only observed) exactly when the index is, degraded
/// or unavailable when the index is, and of unknown health while the index is
/// initialising or rebuilding; any index that is not healthy asks for
/// reconciliation.
pub proof fn law_index_observation_reflects_index(inputs: HealthInputs, now: i64)
    ensures
        ({
            let v = runtime_observations(inputs, now)[4];
            &&& v.component_ref == "index:system"@
            &&& v.owner is None
            &&& v.component_type is Index
            &&& (v.health_state is Healthy <==> inputs.index is Healthy)
            &&& (inputs.index is Degraded ==> v.health_state is Degraded)
            &&& (inputs.index is Unavailable ==> v.health_state is Unavailable)
            &&& (inputs.index is Initializing || inputs.index is Rebuilding ==> v.health_state is Unknown)
            &&& (v.reason_code is Ready <==> inputs.index is Healthy)
            &&& (v.recovery_disposition is Observe <==> inputs.index is Healthy)
            &&& (!(inputs.index is Healthy) ==> v.recovery_disposition is Reconcile)
        }),
{
}

/// Law: each of the runtime's own observations carries the health of the
/// component it describes: the runtime is healthy only while ready, the
/// database only while ready (otherwise an administrator is needed), the
/// provider registry, the policy and each index source as reported, each
/// provider as its stored health reads, the task runtime only while ready,
/// and audit only while no write has failed. Every healthy observation has
/// reason ready and is only observed.
pub proof fn law_runtime_observations_carry_component_health(inputs: HealthInputs, now: i64)
    ensures
        ({
            let o = runtime_observations(inputs, now);
            let ns = inputs.index_sources@.len() as int;
            let np = inputs.providers@.len() as int;
            &&& o.len() == 7 + ns + np
            &&& (o[0].health_state is Healthy <==> inputs.readiness is Ready)
            &&& (!(inputs.readiness is Ready) ==> o[0].health_state is Unavailable)
            &&& (o[1].health_state is Healthy <==> inputs.database is Ready)
            &&& (!(inputs.database is Ready) ==> o[1].health_state is Unavailable
                && o[1].recovery_disposition is AdministratorRequired)
            &&& o[2].health_state == inputs.provider_registry
            &&& o[3].health_state == inputs.policy
            &&& (o[3].recovery_disposition is AdministratorRequired <==> needs_attention(inputs.policy))
            &&& (forall|i: int| 0 <= i < ns ==> (#[trigger] o[5 + i]).health_state
                == inputs.index_sources@[i].health && o[5 + i].owner == inputs.index_sources@[i].owner)
            &&& (forall|j: int| 0 <= j < np ==> (#[trigger] o[5 + ns + j]).health_state == provider_health(
                encode_utf8(inputs.providers@[j].health_state@),
            ) && o[5 + ns + j].owner == inputs.providers@[j].owner)
            &&& (o[5 + ns + np].health_state is Healthy <==> inputs.task_ready)
            &&& (o[6 + ns + np].health_state is Healthy <==> inputs.audit_failures == 0)
            &&& (inputs.audit_failures != 0 ==> o[6 + ns + np].health_state is Degraded)
            &&& (forall|k: int| 0 <= k < o.len() && (#[trigger] o[k]).health_state is Healthy ==> o[k].reason_code
                is Ready && o[k].recovery_disposition is Observe)
        }),
{
    let o = runtime_observations(inputs, now);
    let ns = inputs.index_sources@.len() as int;
    let np = inputs.providers@.len() as int;
    let head = seq![
        runtime_view(inputs.readiness, now),
        state_view(inputs.database, now),
        registry_view(inputs.provider_registry, now),
        policy_view(inputs.policy, now),
        index_view(inputs.index, now),
    ];
    let sv = source_views(inputs.index_sources@, now);
    let pv = provider_views(inputs.providers@, now);
    let tail = seq![task_runtime_view(inputs.task_ready, now), audit_view(inputs.audit_failures, now)];
    assert(o == head + sv + pv + tail);
    assert forall|i: int| 0 <= i < ns implies (#[trigger] o[5 + i]) == index_source_view(
        inputs.index_sources@[i],
        now,
    ) by {
        assert((head + sv + pv + tail)[5 + i] == sv[i]);
    }
    assert forall|j: int| 0 <= j < np implies (#[trigger] o[5 + ns + j]) == provider_view(
        inputs.providers@[j],
        now,
    ) by {
        assert((head + sv + pv + tail)[5 + ns + j] == pv[j]);
    }
    assert(o[5 + ns + np] == task_runtime_view(inputs.task_ready, now));
    assert(o[6 + ns + np] == audit_view(inputs.audit_failures, now));
    assert forall|k: int| 0 <= k < o.len() && (#[trigger] o[k]).health_state is Healthy implies o[k].reason_code
        is Ready && o[k].recovery_disposition is Observe by {
        if k < 5 {
            assert(o[k] == head[k]);
        } else if k < 5 + ns {
            assert(o[5 + (k - 5)] == o[k]);
        } else if k < 5 + ns + np {
            assert(o[5 + ns + (k - 5 - ns)] == o[k]);
        }
    }
}

fn index_source_observation(src: &IndexSourceHealth, now: i64) -> (r: HealthObservation)
    ensures
        r@ == index_source_view(*src, now),
{
    let mut component_ref = String::from_str("index-source:");
    component_ref.append(src.source_id.as_str());
    match src.owner {
        Some(o) => {
            component_ref.append(":uid");
            let uid = decimal_text(o.uid as u64);
            component_ref.append(uid.as_str());
        },
        None => {},
    }
    let reason = match src.health {
        HealthState::Healthy => HealthReasonCode::Ready,
        HealthState::Unknown => HealthReasonCode::NotProbed,
        _ => HealthReasonCode::SourceDisconnected,
    };
    let mut r = simple_health_observation(
        component_ref.as_str(),
        src.owner,
        HealthComponentType::IndexSource,
        src.health,
        reason,
        disposition_for_reconcilable(src.health),
        now,
    );
    r.source_generation = Some(src.source_generation.clone());
    r.last_healthy_at_ms = src.last_success_at_ms;
    r
}

fn provider_observation(e: &ProviderHealthEntry, now: i64) -> (r: HealthObservation)
    ensures
        r@ == provider_view(*e, now),
{
    let h = parse_provider_health(e.health_state.as_str());
    simple_health_observation(
        e.provider_id.as_str(),
        e.owner,
        HealthComponentType::Provider,
        h,
        state_reason_for_health(h, HealthReasonCode::ProviderDegraded, HealthReasonCode::ProviderUnavailable),
        disposition_for_reconcilable(h),
        now,
    )
}

fn audit_observation(failures: u64, now: i64) -> (r: HealthObservation)
    ensures
        r@ == audit_view(failures, now),
{
    let healthy = failures == 0;
    let mut r = simple_health_observation(
        "audit:portusd",
        None,
        HealthComponentType::Audit,
        if healthy {
            HealthState::Healthy
        } else {
            HealthState::Degraded
        },
        if healthy {
            HealthReasonCode::Ready
        } else {
            HealthReasonCode::AuditWriteFailed
        },
        if healthy {
            RecoveryDisposition::Observe
        } else {
            RecoveryDisposition::AdministratorRequired
        },
        now,
    );
    let mut details: Vec<SafeDetail> = Vec::new();
    details.push(SafeDetail { key: String::from_str("write_failures"), value: decimal_text(failures) });
    r.safe_details = details;
    assert(r@.safe_details =~= seq![("write_failures"@, decimal_chars(failures as nat))]);
    r
}

/// The observations the runtime makes of itself and its subsystems, before
/// the probes' observations are added.
pub fn runtime_health_observations(inputs: &HealthInputs, now: i64) -> (r: Vec<HealthObservation>)
    ensures
        views(r@) == runtime_observations(*inputs, now),
{
    let mut out: Vec<HealthObservation> = Vec::new();
    out.push(runtime_health_observation(inputs.readiness, now));
    out.push(state_health_observation(inputs.database, now));
    let reg = inputs.provider_registry;
    out.push(
        simple_health_observation(
            "provider-registry:system",
            None,
            HealthComponentType::ProviderRegistry,
            reg,
            state_reason_for_health(reg, HealthReasonCode::ProviderDegraded, HealthReasonCode::ProviderUnavailable),
            disposition_for_reconcilable(reg),
            now,
        ),
    );
    let pol = inputs.policy;
    out.push(
        simple_health_observation(
            "policy:system",
            None,
            HealthComponentType::Policy,
            pol,
            match pol {
                HealthState::Healthy => HealthReasonCode::Ready,
                HealthState::Unknown => HealthReasonCode::NotProbed,
                _ => HealthReasonCode::PolicyUnavailable,
            },
            match pol {
                HealthState::Healthy | HealthState::Unknown => RecoveryDisposition::Observe,
                _ => RecoveryDisposition::AdministratorRequired,
            },
            now,
        ),
    );
    let (ih, ir, id) = match inputs.index {
        IndexHealthState::Healthy => (HealthState::Healthy, HealthReasonCode::Ready, RecoveryDisposition::Observe),
        IndexHealthState::Degraded => (
            HealthState::Degraded,
            HealthReasonCode::SourceDisconnected,
            RecoveryDisposition::Reconcile,
        ),
        IndexHealthState::Unavailable => (
            HealthState::Unavailable,
            HealthReasonCode::SourceDisconnected,
            RecoveryDisposition::Reconcile,
        ),
        IndexHealthState::Initializing | IndexHealthState::Rebuilding => (
            HealthState::Unknown,
            HealthReasonCode::ReconciliationRequired,
            RecoveryDisposition::Reconcile,
        ),
    };
    out.push(simple_health_observation("index:system", None, HealthComponentType::Index, ih, ir, id, now));
    let ghost head = seq![
        runtime_view(inputs.readiness, now),
        state_view(inputs.database, now),
        registry_view(inputs.provider_registry, now),
        policy_view(inputs.policy, now),
        index_view(inputs.index, now),
    ];
    assert(views(out@) =~= head);
    let mut i: usize = 0;
    while i < inputs.index_sources.len()
        invariant
            i <= inputs.index_sources@.len(),
            views(out@) =~= head + source_views(inputs.index_sources@.take(i as int), now),
        decreases inputs.index_sources@.len() - i,
    {
        let ghost before = views(out@);
        let o = index_source_observation(&inputs.index_sources[i], now);
        out.push(o);
        assert(views(out@) =~= before.push(o@));
        assert(inputs.index_sources@.take(i + 1) =~= inputs.index_sources@.take(i as int).push(
            inputs.index_sources@[i as int],
        ));
        assert(source_views(inputs.index_sources@.take(i + 1), now) =~= source_views(
            inputs.index_sources@.take(i as int),
            now,
        ).push(index_source_view(inputs.index_sources@[i as int], now)));
        i = i + 1;
    }
    assert(inputs.index_sources@.take(i as int) =~= inputs.index_sources@);
    let ghost mid = head + source_views(inputs.index_sources@, now);
    let mut k: usize = 0;
    while k < inputs.providers.len()
        invariant
            k <= inputs.providers@.len(),
            views(out@) =~= mid + provider_views(inputs.providers@.take(k as int), now),
        decreases inputs.providers@.len() - k,
    {
        let ghost before = views(out@);
        let o = provider_observation(&inputs.providers[k], now);
        out.push(o);
        assert(views(out@) =~= before.push(o@));
        assert(inputs.providers@.take(k + 1) =~= inputs.providers@.take(k as int).push(
            inputs.providers@[k as int],
        ));
        assert(provider_views(inputs.providers@.take(k + 1), now) =~= provider_views(
            inputs.providers@.take(k as int),
            now,
        ).push(provider_view(inputs.providers@[k as int], now)));
        k = k + 1;
    }
    assert(inputs.providers@.take(k as int) =~= inputs.providers@);
    let ready = inputs.task_ready;
    out.push(
        simple_health_observation(
            "task-runtime:portusd",
            None,
            HealthComponentType::TaskRuntime,
            if ready {
                HealthState::Healthy
            } else {
                HealthState::Unavailable
            },
            if ready {
                HealthReasonCode::Ready
            } else {
                HealthReasonCode::StatusUnavailable
            },
            RecoveryDisposition::Observe,
            now,
        ),
    );
    out.push(audit_observation(inputs.audit_failures, now));
    assert(views(out@) =~= runtime_observations(*inputs, now));
    out
}

/// The catalogue a caller sees: the runtime's own observations followed by
/// the probes', ordered by component reference, only those the caller may
/// see, the first observation of each reference.
pub fn health_catalogue(
    inputs: &HealthInputs,
    probes: &Vec<HealthObservation>,
    principal: Principal,
    now: i64,
) -> (r: Vec<HealthObservation>)
    ensures
        catalogue_of(runtime_observations(*inputs, now) + views(probes@), principal, views(r@)),
{
    let mut all = runtime_health_observations(inputs, now);
    let ghost base = views(all@);
    let mut i: usize = 0;
    while i < probes.len()
        invariant
            i <= probes@.len(),
            base == runtime_observations(*inputs, now),
            views(all@) =~= base + views(probes@.take(i as int)),
        decreases probes@.len() - i,
    {
        let ghost before = views(all@);
        let o = probes[i].duplicate();
        all.push(o);
        assert(views(all@) =~= before.push(o@));
        assert(probes@.take(i + 1) =~= probes@.take(i as int).push(probes@[i as int]));
        assert(views(probes@.take(i + 1)) =~= views(probes@.take(i as int)).push(probes@[i as int]@));
        i = i + 1;
    }
    assert(probes@.take(i as int) =~= probes@);
    assemble_catalogue(&all, principal)
}

/// Whether any component needs attention.
pub fn catalogue_degraded(obs: &Vec<HealthObservation>) -> (r: bool)
    ensures
        r == exists|i: int| 0 <= i < obs@.len() && needs_attention(#[trigger] obs@[i].health_state),
{
    let mut i: usize = 0;
    while i < obs.len()
        invariant
            i <= obs@.len(),
            forall|j: int| 0 <= j < i ==> !needs_attention(#[trigger] obs@[j].health_state),
        decreases obs@.len() - i,
    {
        let h = obs[i].health_state;
        if h == HealthState::Degraded || h == HealthState::Unavailable {
            return true;
        }
        i = i + 1;
    }
    false
}

/// The position of the observation with this component reference, if any.
pub fn find_component(obs: &Vec<HealthObservation>, component_ref: &str) -> (r: Option<usize>)
    ensures
        match r {
            Some(i) => i < obs@.len() && ref_key(obs@[i as int]@) == component_ref.spec_bytes() && forall|j: int|
                0 <= j < i ==> ref_key(#[trigger] obs@[j]@) != component_ref.spec_bytes(),
            None => forall|j: int| 0 <= j < obs@.len() ==> ref_key(#[trigger] obs@[j]@) != component_ref.spec_bytes(),
        },
{
    let mut i: usize = 0;
    while i < obs.len()
        invariant
            i <= obs@.len(),
            forall|j: int| 0 <= j < i ==> ref_key(#[trigger] obs@[j]@) != component_ref.spec_bytes(),
        decreases obs@.len() - i,
    {
        if bytes_equal(observation_key(&obs[i]), component_ref.as_bytes()) {
            return Some(i);
        }
        i = i + 1;
    }
    None
}

/// The observations that need attention, in catalogue order.
pub open spec fn attention_only(s: Seq<HealthObservationView>) -> Seq<HealthObservationView>
    decreases s.len(),
{
    if s.len() == 0 {
        s
    } else if needs_attention(s.last().health_state) {
        attention_only(s.drop_last()).push(s.last())
    } else {
        attention_only(s.drop_last())
    }
}

pub fn degraded_components(obs: Vec<HealthObservation>) -> (r: Vec<HealthObservation>)
    ensures
        views(r@) == attention_only(views(obs@)),
{
    let mut r: Vec<HealthObservation> = Vec::new();
    let mut i: usize = 0;
    assert(views(obs@).take(0) =~= Seq::<HealthObservationView>::empty());
    assert(views(r@) =~= Seq::<HealthObservationView>::empty());
    while i < obs.len()
        invariant
            i <= obs@.len(),
            views(r@) == attention_only(views(obs@).take(i as int)),
        decreases obs@.len() - i,
    {
        let ghost before = views(r@);
        assert(views(obs@).take(i + 1).drop_last() =~= views(obs@).take(i as int));
        let h = obs[i].health_state;
        if h == HealthState::Degraded || h == HealthState::Unavailable {
            let o = obs[i].duplicate();
            r.push(o);
            assert(views(r@) =~= before.push(o@));
        }
        i = i + 1;
    }
    assert(views(obs@).take(i as int) =~= views(obs@));
    r
}

pub open spec fn health_state_from(text: Seq<u8>) -> Option<HealthState> {
    if text == "healthy".spec_bytes() {
        Some(HealthState::Healthy)
    } else if text == "degraded".spec_bytes() {
        Some(HealthState::Degraded)
    } else if text == "unavailable".spec_bytes() {
        Some(HealthState::Unavailable)
    } else if text == "unknown".spec_bytes() {
        Some(HealthState::Unknown)
    } else {
        None
    }
}

/// Reads a stored health state.
pub fn parse_health_state(value: &str) -> (r: Option<HealthState>)
    ensures
        r == health_state_from(value.spec_bytes()),
{
    if str_equal(value, "healthy") {
        Some(HealthState::Healthy)
    } else if str_equal(value, "degraded") {
        Some(HealthState::Degraded)
    } else if str_equal(value, "unavailable") {
        Some(HealthState::Unavailable)
    } else if str_equal(value, "unknown") {
        Some(HealthState::Unknown)
    } else {
        None
    }
}

pub open spec fn disposition_from(text: Seq<u8>) -> Option<RecoveryDisposition> {
    if text == "observe".spec_bytes() {
        Some(RecoveryDisposition::Observe)
    } else if text == "reconcile".spec_bytes() {
        Some(RecoveryDisposition::Reconcile)
    } else if text == "restart".spec_bytes() {
        Some(RecoveryDisposition::Restart)
    } else if text == "repair".spec_bytes() {
        Some(RecoveryDisposition::Repair)
    } else if text == "administrator_required".spec_bytes() {
        Some(RecoveryDisposition::AdministratorRequired)
    } else if text == "terminal".spec_bytes() {
        Some(RecoveryDisposition::Terminal)
    } else {
        None
    }
}

/// Reads a stored recovery disposition.
pub fn parse_recovery_disposition(value: &str) -> (r: Option<RecoveryDisposition>)
    ensures
        r == disposition_from(value.spec_bytes()),
{
    if str_equal(value, "observe") {
        Some(RecoveryDisposition::Observe)
    } else if str_equal(value, "reconcile") {
        Some(RecoveryDisposition::Reconcile)
    } else if str_equal(value, "restart") {
        Some(RecoveryDisposition::Restart)
    } else if str_equal(value, "repair") {
        Some(RecoveryDisposition::Repair)
    } else if str_equal(value, "administrator_required") {
        Some(RecoveryDisposition::AdministratorRequired)
    } else if str_equal(value, "terminal") {
        Some(RecoveryDisposition::Terminal)
    } else {
        None
    }
}

/// A stored health reason code read back by its wire name.
pub open spec fn reason_code_from(text: Seq<u8>) -> Option<HealthReasonCode> {
    if text == "ready".spec_bytes() {
        Some(HealthReasonCode::Ready)
    } else if text == "starting".spec_bytes() {
        Some(HealthReasonCode::Starting)
    } else if text == "stopping".spec_bytes() {
        Some(HealthReasonCode::Stopping)
    } else if text == "not_probed".spec_bytes() {
        Some(HealthReasonCode::NotProbed)
    } else if text == "status_unavailable".spec_bytes() {
        Some(HealthReasonCode::StatusUnavailable)
    } else if text == "state_integrity_failed".spec_bytes() {
        Some(HealthReasonCode::StateIntegrityFailed)
    } else if text == "incompatible".spec_bytes() {
        Some(HealthReasonCode::Incompatible)
    } else if text == "provider_degraded".spec_bytes() {
        Some(HealthReasonCode::ProviderDegraded)
    } else if text == "provider_unavailable".spec_bytes() {
        Some(HealthReasonCode::ProviderUnavailable)
    } else if text == "policy_unavailable".spec_bytes() {
        Some(HealthReasonCode::PolicyUnavailable)
    } else if text == "source_disconnected".spec_bytes() {
        Some(HealthReasonCode::SourceDisconnected)
    } else if text == "reconciliation_required".spec_bytes() {
        Some(HealthReasonCode::ReconciliationRequired)
    } else if text == "audit_write_failed".spec_bytes() {
        Some(HealthReasonCode::AuditWriteFailed)
    } else if text == "ipc_failed".spec_bytes() {
        Some(HealthReasonCode::IpcFailed)
    } else if text == "resource_low".spec_bytes() {
        Some(HealthReasonCode::ResourceLow)
    } else if text == "resource_unavailable".spec_bytes() {
        Some(HealthReasonCode::ResourceUnavailable)
    } else if text == "service_not_running".spec_bytes() {
        Some(HealthReasonCode::ServiceNotRunning)
    } else {
        None
    }
}

/// Reads a stored health reason code.
pub fn parse_health_reason(value: &str) -> (r: Option<HealthReasonCode>)
    ensures
        r == reason_code_from(value.spec_bytes()),
{
    if str_equal(value, "ready") {
        Some(HealthReasonCode::Ready)
    } else if str_equal(value, "starting") {
        Some(HealthReasonCode::Starting)
    } else if str_equal(value, "stopping") {
        Some(HealthReasonCode::Stopping)
    } else if str_equal(value, "not_probed") {
        Some(HealthReasonCode::NotProbed)
    } else if str_equal(value, "status_unavailable") {
        Some(HealthReasonCode::StatusUnavailable)
    } else if str_equal(value, "state_integrity_failed") {
        Some(HealthReasonCode::StateIntegrityFailed)
    } else if str_equal(value, "incompatible") {
        Some(HealthReasonCode::Incompatible)
    } else if str_equal(value, "provider_degraded") {
        Some(HealthReasonCode::ProviderDegraded)
    } else if str_equal(value, "provider_unavailable") {
        Some(HealthReasonCode::ProviderUnavailable)
    } else if str_equal(value, "policy_unavailable") {
        Some(HealthReasonCode::PolicyUnavailable)
    } else if str_equal(value, "source_disconnected") {
        Some(HealthReasonCode::SourceDisconnected)
    } else if str_equal(value, "reconciliation_required") {
        Some(HealthReasonCode::ReconciliationRequired)
    } else if str_equal(value, "audit_write_failed") {
        Some(HealthReasonCode::AuditWriteFailed)
    } else if str_equal(value, "ipc_failed") {
        Some(HealthReasonCode::IpcFailed)
    } else if str_equal(value, "resource_low") {
        Some(HealthReasonCode::ResourceLow)
    } else if str_equal(value, "resource_unavailable") {
        Some(HealthReasonCode::ResourceUnavailable)
    } else if str_equal(value, "service_not_running") {
        Some(HealthReasonCode::ServiceNotRunning)
    } else {
        None
    }
}

/// Whether an observation changes what was stored before it: nothing was
/// stored, or the stored state, reason or disposition differs.
pub fn stored_health_changed(
    previous: Option<(HealthState, HealthReasonCode, RecoveryDisposition)>,
    o: &HealthObservation,
) -> (r: bool)
    ensures
        r == match previous {
            None => true,
            Some((s, c, d)) => s != o.health_state || c != o.reason_code || d != o.recovery_disposition,
        },
{
    match previous {
        None => true,
        Some((s, c, d)) => s != o.health_state || c != o.reason_code || d != o.recovery_disposition,
    }
}

/// Why an observation or a recovery attempt cannot be stored.
#[derive(Clone, Copy, Debug, PartialEq, Eq, Structural)]
pub enum HealthProblem {
    ComponentRef,
    Summary,
    Source,
    SecretText,
    SourceGeneration,
    SecretGeneration,
    TooManyDetails,
    DetailKey,
    DetailValue,
    SecretDetail,
    DetailsTooLarge,
    AttemptNumber,
    RecoverySummary,
    SecretRecoverySummary,
}

/// Non-blank, at most `max` bytes, with no NUL or line break.
pub open spec fn text_line_ok(c: Seq<char>, max: nat) -> bool {
    !blank(c) && encode_utf8(c).len() <= max && !has_control_break(encode_utf8(c))
}

pub open spec fn text_secret(c: Seq<char>) -> bool {
    text_secret_like(encode_utf8(c))
}

/// The first problem among an observation's safe details from `i` on.
pub open spec fn details_problem(d: Seq<(Seq<char>, Seq<char>)>, i: int) -> Option<HealthProblem>
    decreases d.len() - i,
{
    if i < 0 || i >= d.len() {
        None
    } else if !text_line_ok(d[i].0, MAX_HEALTH_DETAIL_KEY_BYTES as nat) {
        Some(HealthProblem::DetailKey)
    } else if !text_line_ok(d[i].1, MAX_HEALTH_DETAIL_VALUE_BYTES as nat) {
        Some(HealthProblem::DetailValue)
    } else if key_secret_like(encode_utf8(d[i].0)) || text_secret(d[i].1) {
        Some(HealthProblem::SecretDetail)
    } else {
        details_problem(d, i + 1)
    }
}

/// The first check an observation fails, in the order the store checks them.
pub open spec fn observation_problem(o: HealthObservationView) -> Option<HealthProblem> {
    if !text_line_ok(o.component_ref, MAX_HEALTH_COMPONENT_REF_BYTES as nat) {
        Some(HealthProblem::ComponentRef)
    } else if !text_line_ok(o.summary, MAX_HEALTH_SUMMARY_BYTES as nat) {
        Some(HealthProblem::Summary)
    } else if !text_line_ok(o.source, MAX_HEALTH_SOURCE_BYTES as nat) {
        Some(HealthProblem::Source)
    } else if text_secret(o.summary) || text_secret(o.source) {
        Some(HealthProblem::SecretText)
    } else if o.source_generation is Some && !text_line_ok(
        o.source_generation->0,
        MAX_HEALTH_GENERATION_BYTES as nat,
    ) {
        Some(HealthProblem::SourceGeneration)
    } else if o.source_generation is Some && text_secret(o.source_generation->0) {
        Some(HealthProblem::SecretGeneration)
    } else if o.safe_details.len() > MAX_HEALTH_DETAILS {
        Some(HealthProblem::TooManyDetails)
    } else if details_problem(o.safe_details, 0) is Some {
        details_problem(o.safe_details, 0)
    } else if string_map_json_len(o.safe_details) > MAX_HEALTH_DETAILS_JSON_BYTES {
        Some(HealthProblem::DetailsTooLarge)
    } else {
        None
    }
}

fn line_ok(s: &String, max: usize) -> (r: bool)
    ensures
        r == text_line_ok(s@, max as nat),
{
    check_single_line_text(s.as_str(), max)
}

fn secret_text(s: &String) -> (r: bool)
    ensures
        r == text_secret(s@),
{
    secret_like_text(s.as_str())
}

/// Checks an observation before it is stored: bounded single-line text, no
/// secret-shaped material, at most sixteen details whose JSON encoding (an
/// object of strings) fits its bound.
pub fn validate_observation(o: &HealthObservation) -> (r: Result<(), HealthProblem>)
    ensures
        match observation_problem(o@) {
            Some(p) => r == Err::<(), HealthProblem>(p),
            None => r is Ok,
        },
{
    if !line_ok(&o.component_ref, MAX_HEALTH_COMPONENT_REF_BYTES) {
        return Err(HealthProblem::ComponentRef);
    }
    if !line_ok(&o.summary, MAX_HEALTH_SUMMARY_BYTES) {
        return Err(HealthProblem::Summary);
    }
    if !line_ok(&o.source, MAX_HEALTH_SOURCE_BYTES) {
        return Err(HealthProblem::Source);
    }
    if secret_text(&o.summary) || secret_text(&o.source) {
        return Err(HealthProblem::SecretText);
    }
    if let Some(g) = &o.source_generation {
        if !line_ok(g, MAX_HEALTH_GENERATION_BYTES) {
            return Err(HealthProblem::SourceGeneration);
        }
        if secret_text(g) {
            return Err(HealthProblem::SecretGeneration);
        }
    }
    if o.safe_details.len() > MAX_HEALTH_DETAILS {
        return Err(HealthProblem::TooManyDetails);
    }
    let ghost d = o@.safe_details;
    let mut i: usize = 0;
    while i < o.safe_details.len()
        invariant
            d == o@.safe_details,
            d.len() == o.safe_details@.len(),
            i <= d.len(),
            details_problem(d, 0) == details_problem(d, i as int),
            observation_problem(o@) == (if details_problem(d, 0) is Some {
                details_problem(d, 0)
            } else if string_map_json_len(d) > MAX_HEALTH_DETAILS_JSON_BYTES {
                Some(HealthProblem::DetailsTooLarge)
            } else {
                None
            }),
        decreases d.len() - i,
    {
        let detail = &o.safe_details[i];
        assert(d[i as int] == (detail.key@, detail.value@));
        if !line_ok(&detail.key, MAX_HEALTH_DETAIL_KEY_BYTES) {
            return Err(HealthProblem::DetailKey);
        }
        if !line_ok(&detail.value, MAX_HEALTH_DETAIL_VALUE_BYTES) {
            return Err(HealthProblem::DetailValue);
        }
        if secret_like_key(detail.key.as_str()) || secret_text(&detail.value) {
            return Err(HealthProblem::SecretDetail);
        }
        i = i + 1;
    }
    let mut pairs: Vec<(String, String)> = Vec::new();
    let mut j: usize = 0;
    while j < o.safe_details.len()
        invariant
            d == o@.safe_details,
            d.len() == o.safe_details@.len(),
            j <= d.len(),
            pairs@.map_values(|p: (String, String)| (p.0@, p.1@)) =~= d.take(j as int),
        decreases d.len() - j,
    {
        let detail = &o.safe_details[j];
        assert(d[j as int] == (detail.key@, detail.value@));
        pairs.push((detail.key.clone(), detail.value.clone()));
        assert(d.take(j + 1) =~= d.take(j as int).push(d[j as int]));
        j = j + 1;
    }
    assert(d.take(d.len() as int) =~= d);
    if string_map_json_len_capped(&pairs, MAX_HEALTH_DETAILS_JSON_BYTES) > MAX_HEALTH_DETAILS_JSON_BYTES {
        return Err(HealthProblem::DetailsTooLarge);
    }
    Ok(())
}

pub open spec fn recovery_attempt_problem(
    component_ref: Seq<char>,
    attempt_number: u32,
    safe_summary: Option<Seq<char>>,
) -> Option<HealthProblem> {
    if !text_line_ok(component_ref, MAX_HEALTH_COMPONENT_REF_BYTES as nat) {
        Some(HealthProblem::ComponentRef)
    } else if attempt_number == 0 {
        Some(HealthProblem::AttemptNumber)
    } else if safe_summary is Some && !text_line_ok(safe_summary->0, MAX_HEALTH_SUMMARY_BYTES as nat) {
        Some(HealthProblem::RecoverySummary)
    } else if safe_summary is Some && text_secret(safe_summary->0) {
        Some(HealthProblem::SecretRecoverySummary)
    } else {
        None
    }
}

/// Checks a recovery attempt before it is stored: attempts are numbered from
/// one and their summary is bounded, single-line and free of secrets.
pub fn validate_recovery_attempt(
    component_ref: &String,
    attempt_number: u32,
    safe_summary: &Option<String>,
) -> (r: Result<(), HealthProblem>)
    ensures
        match recovery_attempt_problem(component_ref@, attempt_number, opt_text(*safe_summary)) {
            Some(p) => r == Err::<(), HealthProblem>(p),
            None => r is Ok,
        },
{
    if !line_ok(component_ref, MAX_HEALTH_COMPONENT_REF_BYTES) {
        return Err(HealthProblem::ComponentRef);
    }
    if attempt_number == 0 {
        return Err(HealthProblem::AttemptNumber);
    }
    if let Some(summary) = safe_summary {
        if !line_ok(summary, MAX_HEALTH_SUMMARY_BYTES) {
            return Err(HealthProblem::RecoverySummary);
        }
        if secret_text(summary) {
            return Err(HealthProblem::SecretRecoverySummary);
        }
    }
    Ok(())
}

/// A health change is recorded as a significant event when there was no
/// earlier observation or its state, reason or disposition differs.
pub open spec fn health_change(previous: Option<HealthObservationView>, o: HealthObservationView) -> bool {
    match previous {
        None => true,
        Some(p) => p.health_state != o.health_state || p.reason_code != o.reason_code
            || p.recovery_disposition != o.recovery_disposition,
    }
}

pub fn health_changed(previous: Option<&HealthObservation>, o: &HealthObservation) -> (r: bool)
    ensures
        r == health_change(
            match previous {
                Some(p) => Some(p@),
                None => None,
            },
            o@,
        ),
{
    match previous {
        None => true,
        Some(p) => p.health_state != o.health_state || p.reason_code != o.reason_code
            || p.recovery_disposition != o.recovery_disposition,
    }
}

proof fn lemma_entry_is_first_visible(
    s: Seq<HealthObservationView>,
    p: Principal,
    r: Seq<HealthObservationView>,
    j: int,
) -> (w: int)
    requires
        catalogue_of(s, p, r),
        0 <= j < r.len(),
    ensures
        0 <= w < s.len(),
        visible_to(s[w], p),
        r[j] == s[w],
        forall|v: int| 0 <= v < w && visible_to(s[v], p) ==> ref_key(#[trigger] s[v]) != ref_key(s[w]),
{
    reveal(entries_first_visible);
    reveal(first_visible);
    assert(has_witness(s, p, s.len() as int, r[j]));
    choose|w: int| #[trigger] witnessed_by(s, p, s.len() as int, r[j], w)
}

proof fn lemma_covered(s: Seq<HealthObservationView>, p: Principal, r: Seq<HealthObservationView>, w: int) -> (j: int)
    requires
        catalogue_of(s, p, r),
        0 <= w < s.len(),
        visible_to(s[w], p),
    ensures
        0 <= j < r.len(),
        ref_key(r[j]) == ref_key(s[w]),
{
    reveal(covers_visible);
    assert(s[w] == s[w]);
    choose|j: int| #![trigger r[j]] 0 <= j < r.len() && ref_key(r[j]) == ref_key(s[w])
}

/// Law: every entry of a catalogue is visible to the caller it was assembled
/// for, and no component reference occurs twice.
pub proof fn law_catalogue_visible_and_distinct(
    s: Seq<HealthObservationView>,
    p: Principal,
    r: Seq<HealthObservationView>,
)
    requires
        catalogue_of(s, p, r),
    ensures
        forall|j: int| 0 <= j < r.len() ==> visible_to(#[trigger] r[j], p),
        forall|i: int, j: int| 0 <= i < j < r.len() ==> ref_key(#[trigger] r[i]) != ref_key(#[trigger] r[j]),
{
    assert forall|j: int| 0 <= j < r.len() implies visible_to(#[trigger] r[j], p) by {
        let w = lemma_entry_is_first_visible(s, p, r, j);
    }
    assert forall|i: int, j: int| 0 <= i < j < r.len() implies ref_key(#[trigger] r[i]) != ref_key(#[trigger] r[j]) by {
        lemma_bytes_lt_asymmetric(ref_key(r[i]), ref_key(r[j]));
    }
}

proof fn lemma_same_key_same_entry(
    s: Seq<HealthObservationView>,
    p: Principal,
    r1: Seq<HealthObservationView>,
    r2: Seq<HealthObservationView>,
    a: int,
    b: int,
)
    requires
        catalogue_of(s, p, r1),
        catalogue_of(s, p, r2),
        0 <= a < r1.len(),
        0 <= b < r2.len(),
        ref_key(r1[a]) == ref_key(r2[b]),
    ensures
        r1[a] == r2[b],
{
    let w1 = lemma_entry_is_first_visible(s, p, r1, a);
    let w2 = lemma_entry_is_first_visible(s, p, r2, b);
    if w1 < w2 {
        assert(ref_key(s[w1]) != ref_key(s[w2]));
    } else if w2 < w1 {
        assert(ref_key(s[w2]) != ref_key(s[w1]));
    }
}

proof fn lemma_catalogues_agree_below(
    s: Seq<HealthObservationView>,
    p: Principal,
    r1: Seq<HealthObservationView>,
    r2: Seq<HealthObservationView>,
    k: int,
)
    requires
        catalogue_of(s, p, r1),
        catalogue_of(s, p, r2),
        0 <= k <= r1.len(),
        k <= r2.len(),
    ensures
        forall|j: int| 0 <= j < k ==> r1[j] == r2[j],
    decreases k,
{
    if k > 0 {
        lemma_catalogues_agree_below(s, p, r1, r2, k - 1);
        let j = k - 1;
        let k1 = ref_key(r1[j]);
        let k2 = ref_key(r2[j]);
        if k1 != k2 {
            lemma_bytes_lt_total(k1, k2);
            if bytes_lt(k1, k2) {
                let w = lemma_entry_is_first_visible(s, p, r1, j);
                let m = lemma_covered(s, p, r2, w);
                if m < j {
                    assert(r1[m] == r2[m]);
                    lemma_bytes_lt_asymmetric(ref_key(r1[m]), ref_key(r1[j]));
                } else if m > j {
                    lemma_bytes_lt_transitive(k1, k2, ref_key(r2[m]));
                    lemma_bytes_lt_asymmetric(k1, ref_key(r2[m]));
                }
            } else {
                let w = lemma_entry_is_first_visible(s, p, r2, j);
                let m = lemma_covered(s, p, r1, w);
                if m < j {
                    assert(r1[m] == r2[m]);
                    lemma_bytes_lt_asymmetric(ref_key(r2[m]), ref_key(r2[j]));
                } else if m > j {
                    lemma_bytes_lt_transitive(k2, k1, ref_key(r1[m]));
                    lemma_bytes_lt_asymmetric(k2, ref_key(r1[m]));
                }
            }
        }
        lemma_same_key_same_entry(s, p, r1, r2, j, j);
    }
}

proof fn lemma_catalogue_not_shorter(
    s: Seq<HealthObservationView>,
    p: Principal,
    r1: Seq<HealthObservationView>,
    r2: Seq<HealthObservationView>,
)
    requires
        catalogue_of(s, p, r1),
        catalogue_of(s, p, r2),
    ensures
        r2.len() <= r1.len(),
{
    if r1.len() < r2.len() {
        let n = r1.len() as int;
        lemma_catalogues_agree_below(s, p, r1, r2, n);
        let w = lemma_entry_is_first_visible(s, p, r2, n);
        let m = lemma_covered(s, p, r1, w);
        assert(r1[m] == r2[m]);
        lemma_bytes_lt_asymmetric(ref_key(r2[m]), ref_key(r2[n]));
    }
}

/// Law: the catalogue a caller sees is determined by the observations alone:
/// two catalogues of the same observations for the same caller are equal.
pub proof fn law_catalogue_is_determined(
    s: Seq<HealthObservationView>,
    p: Principal,
    r1: Seq<HealthObservationView>,
    r2: Seq<HealthObservationView>,
)
    requires
        catalogue_of(s, p, r1),
        catalogue_of(s, p, r2),
    ensures
        r1 == r2,
{
    lemma_catalogue_not_shorter(s, p, r1, r2);
    lemma_catalogue_not_shorter(s, p, r2, r1);
    lemma_catalogues_agree_below(s, p, r1, r2, r1.len() as int);
    assert(r1 =~= r2);
}

/// Law: a provider's health reaches no observation but its own. Two runtimes
/// that differ only in what one provider reports make the same observations
/// everywhere except at that provider's entry, which depends on that provider
/// alone; the runtime's own observation depends on its readiness alone.
pub proof fn law_provider_health_is_contained(a: HealthInputs, b: HealthInputs, now: i64, i: int)
    requires
        a.readiness == b.readiness,
        a.database == b.database,
        a.provider_registry == b.provider_registry,
        a.policy == b.policy,
        a.index == b.index,
        a.index_sources@ == b.index_sources@,
        a.task_ready == b.task_ready,
        a.audit_failures == b.audit_failures,
        a.providers@.len() == b.providers@.len(),
        0 <= i < a.providers@.len(),
        forall|j: int| 0 <= j < a.providers@.len() && j != i ==> a.providers@[j] == b.providers@[j],
    ensures
        runtime_observations(a, now).len() == runtime_observations(b, now).len(),
        forall|k: int|
            0 <= k < runtime_observations(a, now).len() && k != 5 + a.index_sources@.len() + i
                ==> #[trigger] runtime_observations(a, now)[k] == runtime_observations(b, now)[k],
        runtime_observations(a, now)[0] == runtime_view(a.readiness, now),
        runtime_observations(a, now)[5 + a.index_sources@.len() + i] == provider_view(a.providers@[i], now),
{
    let pa = provider_views(a.providers@, now);
    let pb = provider_views(b.providers@, now);
    assert forall|j: int| 0 <= j < pa.len() && j != i implies pa[j] == pb[j] by {
        assert(a.providers@[j] == b.providers@[j]);
    }
    let head = seq![
        runtime_view(a.readiness, now),
        state_view(a.database, now),
        registry_view(a.provider_registry, now),
        policy_view(a.policy, now),
        index_view(a.index, now),
    ];
    let srcs = source_views(a.index_sources@, now);
    let tail = seq![task_runtime_view(a.task_ready, now), audit_view(a.audit_failures, now)];
    let ra = runtime_observations(a, now);
    let rb = runtime_observations(b, now);
    assert(ra == head + srcs + pa + tail);
    assert(rb == head + srcs + pb + tail);
    let n = head.len() + srcs.len();
    assert forall|k: int| 0 <= k < ra.len() && k != 5 + a.index_sources@.len() + i implies #[trigger] ra[k]
        == rb[k] by {
        if k < n {
            assert(ra[k] == (head + srcs)[k]);
            assert(rb[k] == (head + srcs)[k]);
        } else if k < n + pa.len() {
            assert(ra[k] == pa[k - n]);
            assert(rb[k] == pb[k - n]);
        } else {
            assert(ra[k] == tail[k - n - pa.len()]);
            assert(rb[k] == tail[k - n - pb.len()]);
        }
    }
    assert(ra[n + i] == pa[i]);
}

} // verus!
