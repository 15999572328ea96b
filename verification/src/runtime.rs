//! The runtime's own lifecycle and the request checks that every method
//! shares before it touches state.
use vstd::prelude::*;
use vstd::string::StringSliceAdditionalSpecFns;
use crate::artifact::{ArtifactAvailabilityState, ArtifactCleanupEligibility, check_owner_or_root, owner_or_root};
use crate::ids::Principal;
use crate::index::{Freshness, HealthState};
use crate::task::TaskError;
use crate::text::{ascii_bytes, str_equal};
use crate::index_query::relevant_source_spec;
use crate::visual::{IndexResourceType, IndexSourceKind, PolicyEffect};

verus! {

pub const DEFAULT_MAX_CONNECTIONS: usize = 64;

/// Where the runtime is in its life: it serves requests only while `Ready`.
#[derive(Clone, Copy, Debug, PartialEq, Eq, Structural)]
pub enum RuntimeReadiness {
    Starting,
    Ready,
    Stopping,
}

/// The byte the readiness is stored as.
pub open spec fn readiness_code(r: RuntimeReadiness) -> u8 {
    match r {
        RuntimeReadiness::Starting => 0,
        RuntimeReadiness::Ready => 1,
        RuntimeReadiness::Stopping => 2,
    }
}

pub open spec fn readiness_name(r: RuntimeReadiness) -> Seq<char> {
    match r {
        RuntimeReadiness::Starting => "starting"@,
        RuntimeReadiness::Ready => "ready"@,
        RuntimeReadiness::Stopping => "stopping"@,
    }
}

impl RuntimeReadiness {
    /// Reads a stored readiness byte; any unknown byte reads as `Starting`.
    pub fn from_u8(value: u8) -> (r: RuntimeReadiness)
        ensures
            r == (if value == 1 {
                RuntimeReadiness::Ready
            } else if value == 2 {
                RuntimeReadiness::Stopping
            } else {
                RuntimeReadiness::Starting
            }),
            value <= 2 ==> readiness_code(r) == value,
    {
        match value {
            1 => RuntimeReadiness::Ready,
            2 => RuntimeReadiness::Stopping,
            _ => RuntimeReadiness::Starting,
        }
    }

    pub fn code(&self) -> (r: u8)
        ensures
            r == readiness_code(*self),
    {
        match self {
            RuntimeReadiness::Starting => 0,
            RuntimeReadiness::Ready => 1,
            RuntimeReadiness::Stopping => 2,
        }
    }

    /// The runtime is healthy exactly while it is ready.
    pub fn health_state(&self) -> (r: HealthState)
        ensures
            r == (if *self is Ready {
                HealthState::Healthy
            } else {
                HealthState::Unavailable
            }),
    {
        match self {
            RuntimeReadiness::Ready => HealthState::Healthy,
            _ => HealthState::Unavailable,
        }
    }
}

/// Law: storing a readiness and reading it back gives the same readiness.
pub proof fn law_readiness_code_round_trip(r: RuntimeReadiness)
    ensures
        (if readiness_code(r) == 1 {
            RuntimeReadiness::Ready
        } else if readiness_code(r) == 2 {
            RuntimeReadiness::Stopping
        } else {
            RuntimeReadiness::Starting
        }) == r,
{
}

/// The readiness as the wire reports it.
pub fn readiness_wire(readiness: RuntimeReadiness) -> (r: &'static str)
    ensures
        r@ == readiness_name(readiness),
        r.spec_bytes() == ascii_bytes(readiness_name(readiness)),
{
    broadcast use vstd::string::is_ascii_spec_bytes;

    match readiness {
        RuntimeReadiness::Starting => {
            proof {
                reveal_strlit("starting");
                assert(vstd::string::is_ascii("starting"));
                assert("starting".spec_bytes() =~= ascii_bytes("starting"@));
            }
            "starting"
        },
        RuntimeReadiness::Ready => {
            proof {
                reveal_strlit("ready");
                assert(vstd::string::is_ascii("ready"));
                assert("ready".spec_bytes() =~= ascii_bytes("ready"@));
            }
            "ready"
        },
        RuntimeReadiness::Stopping => {
            proof {
                reveal_strlit("stopping");
                assert(vstd::string::is_ascii("stopping"));
                assert("stopping".spec_bytes() =~= ascii_bytes("stopping"@));
            }
            "stopping"
        },
    }
}

/// The methods the runtime serves over its local socket.
#[derive(Clone, Copy, Debug, PartialEq, Eq, Structural)]
pub enum RuntimeMethod {
    Ping,
    RuntimeStatus,
    StateStatus,
    CapabilityList,
    CapabilityShow,
    CapabilityProviderList,
    CapabilityProviderShow,
    IndexQuery,
    IndexShow,
    IndexTopology,
    IndexRefresh,
    IndexRescan,
    IndexReconcile,
    IndexRebuild,
    PolicyEffective,
    PolicyCheck,
    HealthList,
    HealthShow,
    HealthDegraded,
    ArtifactList,
    ArtifactShow,
    IndexStatus,
    TaskList,
    TaskShow,
    TaskEvents,
    TaskCancel,
}

/// Which method a request's method name selects; other names select none.
pub open spec fn method_from(name: Seq<u8>) -> Option<RuntimeMethod> {
    if name == "runtime.ping".spec_bytes() {
        Some(RuntimeMethod::Ping)
    } else if name == "runtime.status".spec_bytes() {
        Some(RuntimeMethod::RuntimeStatus)
    } else if name == "state.status".spec_bytes() {
        Some(RuntimeMethod::StateStatus)
    } else if name == "capability.list".spec_bytes() {
        Some(RuntimeMethod::CapabilityList)
    } else if name == "capability.show".spec_bytes() {
        Some(RuntimeMethod::CapabilityShow)
    } else if name == "capability.provider.list".spec_bytes() {
        Some(RuntimeMethod::CapabilityProviderList)
    } else if name == "capability.provider.show".spec_bytes() {
        Some(RuntimeMethod::CapabilityProviderShow)
    } else if name == "index.query".spec_bytes() {
        Some(RuntimeMethod::IndexQuery)
    } else if name == "index.show".spec_bytes() {
        Some(RuntimeMethod::IndexShow)
    } else if name == "index.topology".spec_bytes() {
        Some(RuntimeMethod::IndexTopology)
    } else if name == "index.refresh".spec_bytes() {
        Some(RuntimeMethod::IndexRefresh)
    } else if name == "index.rescan".spec_bytes() {
        Some(RuntimeMethod::IndexRescan)
    } else if name == "index.reconcile".spec_bytes() {
        Some(RuntimeMethod::IndexReconcile)
    } else if name == "index.rebuild".spec_bytes() {
        Some(RuntimeMethod::IndexRebuild)
    } else if name == "policy.effective".spec_bytes() {
        Some(RuntimeMethod::PolicyEffective)
    } else if name == "policy.check".spec_bytes() {
        Some(RuntimeMethod::PolicyCheck)
    } else if name == "health.list".spec_bytes() {
        Some(RuntimeMethod::HealthList)
    } else if name == "health.show".spec_bytes() {
        Some(RuntimeMethod::HealthShow)
    } else if name == "health.degraded".spec_bytes() {
        Some(RuntimeMethod::HealthDegraded)
    } else if name == "artifact.list".spec_bytes() {
        Some(RuntimeMethod::ArtifactList)
    } else if name == "artifact.show".spec_bytes() {
        Some(RuntimeMethod::ArtifactShow)
    } else if name == "index.status".spec_bytes() {
        Some(RuntimeMethod::IndexStatus)
    } else if name == "task.list".spec_bytes() {
        Some(RuntimeMethod::TaskList)
    } else if name == "task.show".spec_bytes() {
        Some(RuntimeMethod::TaskShow)
    } else if name == "task.events".spec_bytes() {
        Some(RuntimeMethod::TaskEvents)
    } else if name == "task.cancel".spec_bytes() {
        Some(RuntimeMethod::TaskCancel)
    } else {
        None
    }
}

impl RuntimeMethod {
    pub fn parse(method: &str) -> (r: Option<RuntimeMethod>)
        ensures
            r == method_from(method.spec_bytes()),
    {
        if str_equal(method, "runtime.ping") {
            Some(RuntimeMethod::Ping)
        } else if str_equal(method, "runtime.status") {
            Some(RuntimeMethod::RuntimeStatus)
        } else if str_equal(method, "state.status") {
            Some(RuntimeMethod::StateStatus)
        } else if str_equal(method, "capability.list") {
            Some(RuntimeMethod::CapabilityList)
        } else if str_equal(method, "capability.show") {
            Some(RuntimeMethod::CapabilityShow)
        } else if str_equal(method, "capability.provider.list") {
            Some(RuntimeMethod::CapabilityProviderList)
        } else if str_equal(method, "capability.provider.show") {
            Some(RuntimeMethod::CapabilityProviderShow)
        } else if str_equal(method, "index.query") {
            Some(RuntimeMethod::IndexQuery)
        } else if str_equal(method, "index.show") {
            Some(RuntimeMethod::IndexShow)
        } else if str_equal(method, "index.topology") {
            Some(RuntimeMethod::IndexTopology)
        } else if str_equal(method, "index.refresh") {
            Some(RuntimeMethod::IndexRefresh)
        } else if str_equal(method, "index.rescan") {
            Some(RuntimeMethod::IndexRescan)
        } else if str_equal(method, "index.reconcile") {
            Some(RuntimeMethod::IndexReconcile)
        } else if str_equal(method, "index.rebuild") {
            Some(RuntimeMethod::IndexRebuild)
        } else if str_equal(method, "policy.effective") {
            Some(RuntimeMethod::PolicyEffective)
        } else if str_equal(method, "policy.check") {
            Some(RuntimeMethod::PolicyCheck)
        } else if str_equal(method, "health.list") {
            Some(RuntimeMethod::HealthList)
        } else if str_equal(method, "health.show") {
            Some(RuntimeMethod::HealthShow)
        } else if str_equal(method, "health.degraded") {
            Some(RuntimeMethod::HealthDegraded)
        } else if str_equal(method, "artifact.list") {
            Some(RuntimeMethod::ArtifactList)
        } else if str_equal(method, "artifact.show") {
            Some(RuntimeMethod::ArtifactShow)
        } else if str_equal(method, "index.status") {
            Some(RuntimeMethod::IndexStatus)
        } else if str_equal(method, "task.list") {
            Some(RuntimeMethod::TaskList)
        } else if str_equal(method, "task.show") {
            Some(RuntimeMethod::TaskShow)
        } else if str_equal(method, "task.events") {
            Some(RuntimeMethod::TaskEvents)
        } else if str_equal(method, "task.cancel") {
            Some(RuntimeMethod::TaskCancel)
        } else {
            None
        }
    }
}

/// The error codes the runtime answers with.
#[derive(Clone, Copy, Debug, PartialEq, Eq, Structural)]
pub enum SemanticErrorCode {
    InvalidRequest,
    IncompatibleProtocol,
    NotFound,
    PermissionDenied,
    ApprovalRequired,
    PreconditionFailed,
    Conflict,
    StaleResource,
    Unsupported,
    Unavailable,
    SourceUnavailable,
    Timeout,
    Cancelled,
    Interrupted,
    Internal,
}

/// Why a request was refused before it reached state: each carries the
/// error code the caller receives.
#[derive(Clone, Copy, Debug, PartialEq, Eq, Structural)]
pub enum RequestProblem {
    LimitOutOfRange,
    FilterInvalid,
    ResourceRefInvalid,
    UnknownIndexDomain,
    TopologyDepthOutOfRange,
    CapabilityIdInvalid,
    CapabilityCursorInvalid,
    NamedDomainRequired,
    RootOnly,
}

pub open spec fn problem_code(p: RequestProblem) -> SemanticErrorCode {
    match p {
        RequestProblem::RootOnly => SemanticErrorCode::PermissionDenied,
        _ => SemanticErrorCode::InvalidRequest,
    }
}

pub fn request_problem_code(p: RequestProblem) -> (r: SemanticErrorCode)
    ensures
        r == problem_code(p),
{
    match p {
        RequestProblem::RootOnly => SemanticErrorCode::PermissionDenied,
        _ => SemanticErrorCode::InvalidRequest,
    }
}

pub const MAX_PAGE_LIMIT: u16 = 200;
pub const MAX_RESOURCE_REF_BYTES: usize = 1024;
pub const MAX_CAPABILITY_ID_BYTES: usize = 96;

/// A page holds between one and two hundred items.
pub fn validate_limit(limit: u16) -> (r: Result<(), RequestProblem>)
    ensures
        r == (if 1 <= limit <= MAX_PAGE_LIMIT {
            Ok::<(), RequestProblem>(())
        } else {
            Err(RequestProblem::LimitOutOfRange)
        }),
{
    if 1 <= limit && limit <= MAX_PAGE_LIMIT {
        Ok(())
    } else {
        Err(RequestProblem::LimitOutOfRange)
    }
}

/// An optional filter, when given, is between one and `max_bytes` bytes.
pub fn validate_optional_filter(value: &Option<String>, max_bytes: usize) -> (r: Result<
    (),
    RequestProblem,
>)
    ensures
        r == (if match value {
            None => true,
            Some(v) => 0 < v@.len() && vstd::utf8::encode_utf8(v@).len() <= max_bytes,
        } {
            Ok::<(), RequestProblem>(())
        } else {
            Err(RequestProblem::FilterInvalid)
        }),
{
    match value {
        None => Ok(()),
        Some(v) => {
            let n = v.as_str().as_bytes().len();
            proof {
                if v@.len() == 0 {
                    assert(vstd::utf8::encode_utf8(v@) =~= Seq::<u8>::empty());
                }
                if v@.len() > 0 {
                    vstd::utf8::encode_utf8_first_scalar(v@);
                }
            }
            if n == 0 || n > max_bytes {
                Err(RequestProblem::FilterInvalid)
            } else {
                Ok(())
            }
        },
    }
}

/// A resource reference is between one and 1024 bytes.
pub fn validate_resource_ref(value: &str) -> (r: Result<(), RequestProblem>)
    ensures
        r == (if 0 < value.spec_bytes().len() <= MAX_RESOURCE_REF_BYTES {
            Ok::<(), RequestProblem>(())
        } else {
            Err(RequestProblem::ResourceRefInvalid)
        }),
{
    let n = value.as_bytes().len();
    if n == 0 || n > MAX_RESOURCE_REF_BYTES {
        Err(RequestProblem::ResourceRefInvalid)
    } else {
        Ok(())
    }
}

/// A topology walk goes one to six relations deep and returns a valid page.
pub fn validate_topology(depth: u8, limit: u16) -> (r: Result<(), RequestProblem>)
    ensures
        r == (if !(1 <= depth <= 6) {
            Err::<(), RequestProblem>(RequestProblem::TopologyDepthOutOfRange)
        } else if !(1 <= limit <= MAX_PAGE_LIMIT) {
            Err(RequestProblem::LimitOutOfRange)
        } else {
            Ok(())
        }),
{
    if depth < 1 || depth > 6 {
        return Err(RequestProblem::TopologyDepthOutOfRange);
    }
    validate_limit(limit)
}

/// A capability id is between one and 96 bytes.
pub fn validate_capability_id(value: &str) -> (r: Result<(), RequestProblem>)
    ensures
        r == (if 0 < value.spec_bytes().len() <= MAX_CAPABILITY_ID_BYTES {
            Ok::<(), RequestProblem>(())
        } else {
            Err(RequestProblem::CapabilityIdInvalid)
        }),
{
    let n = value.as_bytes().len();
    if n == 0 || n > MAX_CAPABILITY_ID_BYTES {
        Err(RequestProblem::CapabilityIdInvalid)
    } else {
        Ok(())
    }
}

/// A capability page cursor is at most 96 bytes.
pub fn validate_capability_cursor(cursor: &Option<String>) -> (r: Result<(), RequestProblem>)
    ensures
        r == (if match cursor {
            None => true,
            Some(c) => vstd::utf8::encode_utf8(c@).len() <= MAX_CAPABILITY_ID_BYTES,
        } {
            Ok::<(), RequestProblem>(())
        } else {
            Err(RequestProblem::CapabilityCursorInvalid)
        }),
{
    match cursor {
        None => Ok(()),
        Some(c) => if c.as_str().as_bytes().len() > MAX_CAPABILITY_ID_BYTES {
            Err(RequestProblem::CapabilityCursorInvalid)
        } else {
            Ok(())
        },
    }
}

/// The part of the index a rescan or reconciliation covers.
#[derive(Clone, Copy, Debug, PartialEq, Eq, Structural)]
pub enum IndexRescanDomain {
    Applications,
    Runtime,
    Providers,
    Services,
    All,
}

pub open spec fn domain_from(name: Seq<u8>) -> Option<IndexRescanDomain> {
    if name == "applications".spec_bytes() {
        Some(IndexRescanDomain::Applications)
    } else if name == "runtime".spec_bytes() {
        Some(IndexRescanDomain::Runtime)
    } else if name == "providers".spec_bytes() {
        Some(IndexRescanDomain::Providers)
    } else if name == "services".spec_bytes() {
        Some(IndexRescanDomain::Services)
    } else if name == "all".spec_bytes() {
        Some(IndexRescanDomain::All)
    } else {
        None
    }
}

pub fn parse_index_domain(value: &str) -> (r: Result<IndexRescanDomain, RequestProblem>)
    ensures
        match domain_from(value.spec_bytes()) {
            Some(d) => r == Ok::<IndexRescanDomain, RequestProblem>(d),
            None => r == Err::<IndexRescanDomain, RequestProblem>(RequestProblem::UnknownIndexDomain),
        },
{
    if str_equal(value, "applications") {
        Ok(IndexRescanDomain::Applications)
    } else if str_equal(value, "runtime") {
        Ok(IndexRescanDomain::Runtime)
    } else if str_equal(value, "providers") {
        Ok(IndexRescanDomain::Providers)
    } else if str_equal(value, "services") {
        Ok(IndexRescanDomain::Services)
    } else if str_equal(value, "all") {
        Ok(IndexRescanDomain::All)
    } else {
        Err(RequestProblem::UnknownIndexDomain)
    }
}

/// A rescan names one domain; `all` is what reconciliation is for.
pub fn rescan_domain(value: &str) -> (r: Result<IndexRescanDomain, RequestProblem>)
    ensures
        match domain_from(value.spec_bytes()) {
            Some(IndexRescanDomain::All) => r == Err::<IndexRescanDomain, RequestProblem>(
                RequestProblem::NamedDomainRequired,
            ),
            Some(d) => r == Ok::<IndexRescanDomain, RequestProblem>(d),
            None => r == Err::<IndexRescanDomain, RequestProblem>(RequestProblem::UnknownIndexDomain),
        },
{
    let d = parse_index_domain(value)?;
    if d == IndexRescanDomain::All {
        Err(RequestProblem::NamedDomainRequired)
    } else {
        Ok(d)
    }
}

/// Whether reconciling `domain` also gathers the provider registry.
pub fn domain_includes_providers(domain: IndexRescanDomain) -> (r: bool)
    ensures
        r == (domain is Providers || domain is All),
{
    matches!(domain, IndexRescanDomain::Providers | IndexRescanDomain::All)
}

/// Rebuilding the derived index is reserved to root.
pub fn authorize_index_rebuild(caller: Principal) -> (r: Result<(), RequestProblem>)
    ensures
        r == (if caller.uid == 0 {
            Ok::<(), RequestProblem>(())
        } else {
            Err(RequestProblem::RootOnly)
        }),
{
    if caller.uid != 0 {
        Err(RequestProblem::RootOnly)
    } else {
        Ok(())
    }
}

/// The domain that observes resources of each type.
pub open spec fn refresh_domain_spec(t: IndexResourceType) -> IndexRescanDomain {
    match t {
        IndexResourceType::ApplicationDefinition => IndexRescanDomain::Applications,
        IndexResourceType::OpenRcService => IndexRescanDomain::Services,
        IndexResourceType::ProviderRegistration | IndexResourceType::ProviderResource
        | IndexResourceType::RegisteredCapability => IndexRescanDomain::Providers,
        _ => IndexRescanDomain::Runtime,
    }
}

/// The rescan domain that reconciles a source kind: application definitions
/// on their own, the live desktop sources (processes, windows, the window
/// manager and their correlation) together as the runtime, services on their
/// own, and providers on their own.
pub open spec fn source_domain(k: IndexSourceKind) -> IndexRescanDomain {
    match k {
        IndexSourceKind::Applications => IndexRescanDomain::Applications,
        IndexSourceKind::OpenRc => IndexRescanDomain::Services,
        IndexSourceKind::Providers => IndexRescanDomain::Providers,
        IndexSourceKind::Proc | IndexSourceKind::X11 | IndexSourceKind::I3
        | IndexSourceKind::Correlation => IndexRescanDomain::Runtime,
    }
}

/// Law: refreshing a resource rescans exactly the domain of the source that
/// observes its type (the source a query of that type consults), never every
/// domain at once.
pub proof fn law_refresh_rescans_the_observing_source(t: IndexResourceType)
    ensures
        relevant_source_spec(None, Some(t)) is Some,
        refresh_domain_spec(t) == source_domain(relevant_source_spec(None, Some(t))->0),
        refresh_domain_spec(t) != IndexRescanDomain::All,
{
}

/// Why a refresh of one index resource cannot answer with a current view.
#[derive(Clone, Copy, Debug, PartialEq, Eq, Structural)]
pub enum RefreshProblem {
    NotVisible,
    Historical,
    ChangedDuringRefresh,
    GoneAfterRefresh,
}

pub open spec fn refresh_problem_code(p: RefreshProblem) -> SemanticErrorCode {
    match p {
        RefreshProblem::NotVisible => SemanticErrorCode::NotFound,
        _ => SemanticErrorCode::StaleResource,
    }
}

/// The error code a refused refresh answers with: an invisible resource is
/// not found; a historical or vanished one is stale.
pub fn refresh_error_code(p: RefreshProblem) -> (r: SemanticErrorCode)
    ensures
        r == refresh_problem_code(p),
{
    match p {
        RefreshProblem::NotVisible => SemanticErrorCode::NotFound,
        _ => SemanticErrorCode::StaleResource,
    }
}

/// Before a refresh: the resource must be visible and not historical; the
/// answer is the domain to reconcile.
pub fn refresh_plan(
    resource: Option<(IndexResourceType, Freshness)>,
) -> (r: Result<IndexRescanDomain, RefreshProblem>)
    ensures
        match resource {
            None => r == Err::<IndexRescanDomain, RefreshProblem>(RefreshProblem::NotVisible),
            Some((t, f)) => if f is Historical {
                r == Err::<IndexRescanDomain, RefreshProblem>(RefreshProblem::Historical)
            } else {
                r == Ok::<IndexRescanDomain, RefreshProblem>(refresh_domain_spec(t))
            },
        },
{
    match resource {
        None => Err(RefreshProblem::NotVisible),
        Some((t, f)) => {
            if f == Freshness::Historical {
                return Err(RefreshProblem::Historical);
            }
            Ok(
                match t {
                    IndexResourceType::ApplicationDefinition => IndexRescanDomain::Applications,
                    IndexResourceType::OpenRcService => IndexRescanDomain::Services,
                    IndexResourceType::ProviderRegistration | IndexResourceType::ProviderResource
                    | IndexResourceType::RegisteredCapability => IndexRescanDomain::Providers,
                    _ => IndexRescanDomain::Runtime,
                },
            )
        },
    }
}

/// After a refresh: the same handle must still name a current resource.
pub fn refresh_outcome(after: Option<Freshness>) -> (r: Result<(), RefreshProblem>)
    ensures
        r == (match after {
            None => Err::<(), RefreshProblem>(RefreshProblem::GoneAfterRefresh),
            Some(f) => if f is Historical {
                Err(RefreshProblem::ChangedDuringRefresh)
            } else {
                Ok(())
            },
        }),
{
    match after {
        None => Err(RefreshProblem::GoneAfterRefresh),
        Some(f) => if f == Freshness::Historical {
            Err(RefreshProblem::ChangedDuringRefresh)
        } else {
            Ok(())
        },
    }
}

/// A source that is degraded, unavailable or unknown makes what it feeds
/// degraded.
pub open spec fn source_not_healthy(h: HealthState) -> bool {
    !(h is Healthy)
}

/// Whether any of these source healths is not healthy.
pub fn any_source_not_healthy(healths: &Vec<HealthState>) -> (r: bool)
    ensures
        r == exists|i: int| 0 <= i < healths@.len() && source_not_healthy(#[trigger] healths@[i]),
{
    let mut i: usize = 0;
    while i < healths.len()
        invariant
            i <= healths@.len(),
            forall|j: int| 0 <= j < i ==> !source_not_healthy(#[trigger] healths@[j]),
        decreases healths@.len() - i,
    {
        if healths[i] != HealthState::Healthy {
            return true;
        }
        i = i + 1;
    }
    false
}

/// The index state a caller sees: a healthy index is reported degraded to a
/// caller one of whose own sources is not healthy.
pub open spec fn caller_index_state(
    state_healthy: bool,
    owned_source_healths: Seq<HealthState>,
) -> bool {
    state_healthy && exists|i: int| 0 <= i < owned_source_healths.len() && source_not_healthy(
        #[trigger] owned_source_healths[i],
    )
}

pub fn caller_sees_degraded_index(state_healthy: bool, owned_source_healths: &Vec<HealthState>) -> (r: bool)
    ensures
        r == caller_index_state(state_healthy, owned_source_healths@),
{
    state_healthy && any_source_not_healthy(owned_source_healths)
}

/// The audit domain of the methods whose dispatch is audited.
#[derive(Clone, Copy, Debug, PartialEq, Eq, Structural)]
pub enum AuditDomain {
    Task,
    Index,
    Policy,
    Provider,
    Visual,
}

#[derive(Clone, Copy, Debug, PartialEq, Eq, Structural)]
pub enum AuditOutcome {
    Succeeded,
    Denied,
    ApprovalRequired,
    Cancelled,
    Interrupted,
    Failed,
}

/// Only task cancellation and index rebuilds are audited at dispatch.
pub fn audited_domain(method: Option<RuntimeMethod>) -> (r: Option<AuditDomain>)
    ensures
        r == (match method {
            Some(RuntimeMethod::TaskCancel) => Some(AuditDomain::Task),
            Some(RuntimeMethod::IndexRebuild) => Some(AuditDomain::Index),
            _ => None,
        }),
{
    match method {
        Some(RuntimeMethod::TaskCancel) => Some(AuditDomain::Task),
        Some(RuntimeMethod::IndexRebuild) => Some(AuditDomain::Index),
        _ => None,
    }
}

pub open spec fn outcome_for(result: Option<SemanticErrorCode>) -> AuditOutcome {
    match result {
        None => AuditOutcome::Succeeded,
        Some(SemanticErrorCode::PermissionDenied) => AuditOutcome::Denied,
        Some(SemanticErrorCode::ApprovalRequired) => AuditOutcome::ApprovalRequired,
        Some(SemanticErrorCode::Cancelled) => AuditOutcome::Cancelled,
        Some(SemanticErrorCode::Interrupted) => AuditOutcome::Interrupted,
        Some(_) => AuditOutcome::Failed,
    }
}

/// The audit outcome of a dispatched request: `None` when it succeeded, else
/// the code it failed with.
pub fn dispatch_outcome(error: Option<SemanticErrorCode>) -> (r: AuditOutcome)
    ensures
        r == outcome_for(error),
{
    match error {
        None => AuditOutcome::Succeeded,
        Some(SemanticErrorCode::PermissionDenied) => AuditOutcome::Denied,
        Some(SemanticErrorCode::ApprovalRequired) => AuditOutcome::ApprovalRequired,
        Some(SemanticErrorCode::Cancelled) => AuditOutcome::Cancelled,
        Some(SemanticErrorCode::Interrupted) => AuditOutcome::Interrupted,
        Some(_) => AuditOutcome::Failed,
    }
}

/// A policy check is audited with the decision's effect.
pub fn policy_check_outcome(effect: PolicyEffect) -> (r: AuditOutcome)
    ensures
        r == (match effect {
            PolicyEffect::Allow => AuditOutcome::Succeeded,
            PolicyEffect::Prompt => AuditOutcome::ApprovalRequired,
            PolicyEffect::Reject => AuditOutcome::Denied,
        }),
{
    match effect {
        PolicyEffect::Allow => AuditOutcome::Succeeded,
        PolicyEffect::Prompt => AuditOutcome::ApprovalRequired,
        PolicyEffect::Reject => AuditOutcome::Denied,
    }
}

/// A task operation failed either with a lifecycle refusal or because state
/// or the managed backend could not be reached.
#[derive(Clone, Copy, Debug, PartialEq, Eq, Structural)]
pub enum TaskFailure {
    Refused(TaskError),
    Unreachable,
}

pub open spec fn task_failure_code(f: TaskFailure) -> SemanticErrorCode {
    match f {
        TaskFailure::Unreachable => SemanticErrorCode::Unavailable,
        TaskFailure::Refused(e) => match e {
            TaskError::NotFound => SemanticErrorCode::NotFound,
            TaskError::PreconditionFailed { .. } => SemanticErrorCode::PreconditionFailed,
            TaskError::InvalidTransition { .. } => SemanticErrorCode::Conflict,
            TaskError::InvalidSpec(_) => SemanticErrorCode::InvalidRequest,
            _ => SemanticErrorCode::Unsupported,
        },
    }
}

/// The error code a task failure is answered with.
pub fn task_error(f: TaskFailure) -> (r: SemanticErrorCode)
    ensures
        r == task_failure_code(f),
{
    match f {
        TaskFailure::Unreachable => SemanticErrorCode::Unavailable,
        TaskFailure::Refused(e) => match e {
            TaskError::NotFound => SemanticErrorCode::NotFound,
            TaskError::PreconditionFailed { .. } => SemanticErrorCode::PreconditionFailed,
            TaskError::InvalidTransition { .. } => SemanticErrorCode::Conflict,
            TaskError::InvalidSpec(_) => SemanticErrorCode::InvalidRequest,
            _ => SemanticErrorCode::Unsupported,
        },
    }
}

/// Only the index has an automatic recovery adapter.
pub fn recovery_supported(component_ref: &str) -> (r: bool)
    ensures
        r == (component_ref.spec_bytes() == "index:system".spec_bytes()),
{
    str_equal(component_ref, "index:system")
}

/// The status the runtime keeps for a subsystem it loads at start (policy,
/// provider registry): a health and a reason.
#[derive(Clone, Copy, Debug, PartialEq, Eq, Structural)]
pub enum SubsystemReason {
    NotLoaded,
    NotReconciled,
    Ready,
    LoadFailed,
    ReconciliationFailed,
    LockPoisoned,
}

/// After loading policy: healthy when the snapshot was installed, degraded
/// when it failed to load, unavailable when it could not be installed.
pub fn policy_status_after_load(loaded: bool, installed: bool) -> (r: (HealthState, SubsystemReason))
    ensures
        r == (if !loaded {
            (HealthState::Degraded, SubsystemReason::LoadFailed)
        } else if installed {
            (HealthState::Healthy, SubsystemReason::Ready)
        } else {
            (HealthState::Unavailable, SubsystemReason::LockPoisoned)
        }),
{
    if !loaded {
        (HealthState::Degraded, SubsystemReason::LoadFailed)
    } else if installed {
        (HealthState::Healthy, SubsystemReason::Ready)
    } else {
        (HealthState::Unavailable, SubsystemReason::LockPoisoned)
    }
}

/// After reconciling the provider manifests: healthy with the reconciled
/// count, or degraded with the count of providers still active.
pub fn registry_status_after_reconcile(
    reconciled: Option<usize>,
    observed_active: usize,
) -> (r: (HealthState, SubsystemReason, usize))
    ensures
        r == (match reconciled {
            Some(n) => (HealthState::Healthy, SubsystemReason::Ready, n),
            None => (HealthState::Degraded, SubsystemReason::ReconciliationFailed, observed_active),
        }),
{
    match reconciled {
        Some(n) => (HealthState::Healthy, SubsystemReason::Ready, n),
        None => (HealthState::Degraded, SubsystemReason::ReconciliationFailed, observed_active),
    }
}

/// A provider resource's availability as an artifact locator sees it.
pub open spec fn provider_artifact_availability(state: Option<Seq<u8>>) -> ArtifactAvailabilityState {
    match state {
        Some(s) => if s == "available".spec_bytes() {
            ArtifactAvailabilityState::Available
        } else if s == "unavailable".spec_bytes() {
            ArtifactAvailabilityState::Unavailable
        } else if s == "stale".spec_bytes() || s == "removed".spec_bytes() {
            ArtifactAvailabilityState::Missing
        } else {
            ArtifactAvailabilityState::Unavailable
        },
        None => ArtifactAvailabilityState::Missing,
    }
}

pub fn artifact_availability_from_provider(state: Option<&str>) -> (r: ArtifactAvailabilityState)
    ensures
        r == provider_artifact_availability(
            match state {
                Some(s) => Some(s.spec_bytes()),
                None => None,
            },
        ),
{
    match state {
        None => ArtifactAvailabilityState::Missing,
        Some(s) => if str_equal(s, "available") {
            ArtifactAvailabilityState::Available
        } else if str_equal(s, "unavailable") {
            ArtifactAvailabilityState::Unavailable
        } else if str_equal(s, "stale") || str_equal(s, "removed") {
            ArtifactAvailabilityState::Missing
        } else {
            ArtifactAvailabilityState::Unavailable
        },
    }
}

/// Why content cleanup of an artifact was refused.
#[derive(Clone, Copy, Debug, PartialEq, Eq, Structural)]
pub enum CleanupRefusal {
    NotVisible,
    NotOwner,
    Blocked(ArtifactCleanupEligibility),
    UnsupportedLocator,
}

/// The checks before content cleanup: the artifact is visible, the caller owns
/// it or is root, it is eligible now, and its content lies on the filesystem.
pub fn cleanup_precheck(
    visible_owner: Option<Principal>,
    caller: Principal,
    eligibility: ArtifactCleanupEligibility,
    filesystem: bool,
) -> (r: Result<(), CleanupRefusal>)
    ensures
        r == (match visible_owner {
            None => Err::<(), CleanupRefusal>(CleanupRefusal::NotVisible),
            Some(owner) => if !owner_or_root(owner, caller) {
                Err(CleanupRefusal::NotOwner)
            } else if !(eligibility is Eligible) {
                Err(CleanupRefusal::Blocked(eligibility))
            } else if !filesystem {
                Err(CleanupRefusal::UnsupportedLocator)
            } else {
                Ok(())
            },
        }),
{
    match visible_owner {
        None => Err(CleanupRefusal::NotVisible),
        Some(owner) => {
            if !check_owner_or_root(owner, caller) {
                return Err(CleanupRefusal::NotOwner);
            }
            if eligibility != ArtifactCleanupEligibility::Eligible {
                return Err(CleanupRefusal::Blocked(eligibility));
            }
            if !filesystem {
                return Err(CleanupRefusal::UnsupportedLocator);
            }
            Ok(())
        },
    }
}

/// Why the runtime configuration was refused.
#[derive(Clone, Copy, Debug, PartialEq, Eq, Structural)]
pub enum ConfigProblem {
    ZeroFrameLimit,
    ZeroConnectionLimit,
    RuntimeDirectoryMissing,
}

/// Checks the configuration's limits and whether the socket's directory
/// exists.
pub fn validate_config(
    max_frame_bytes: usize,
    max_connections: usize,
    socket_directory_exists: bool,
) -> (r: Result<(), ConfigProblem>)
    ensures
        r == (if max_frame_bytes == 0 {
            Err::<(), ConfigProblem>(ConfigProblem::ZeroFrameLimit)
        } else if max_connections == 0 {
            Err(ConfigProblem::ZeroConnectionLimit)
        } else if !socket_directory_exists {
            Err(ConfigProblem::RuntimeDirectoryMissing)
        } else {
            Ok(())
        }),
{
    if max_frame_bytes == 0 {
        return Err(ConfigProblem::ZeroFrameLimit);
    }
    if max_connections == 0 {
        return Err(ConfigProblem::ZeroConnectionLimit);
    }
    if !socket_directory_exists {
        return Err(ConfigProblem::RuntimeDirectoryMissing);
    }
    Ok(())
}

#[derive(Clone, Copy, Debug, PartialEq, Eq, Structural)]
pub enum IndexSourceMode {
    NativeLinux,
    Disabled,
}

#[derive(Clone, Copy, Debug, PartialEq, Eq, Structural)]
pub enum HealthProbeMode {
    NativeLinux,
    Disabled,
}

/// The number of connections being served. A daemon that serves
/// connections from several threads holds the count behind one lock, so each
/// acquire and release is one step on this value.
pub struct ConnectionCount {
    active: usize,
}

impl View for ConnectionCount {
    type V = nat;

    closed spec fn view(&self) -> nat {
        self.active as nat
    }
}

impl ConnectionCount {
    pub fn new() -> (r: ConnectionCount)
        ensures
            r@ == 0,
    {
        ConnectionCount { active: 0 }
    }

    pub fn active(&self) -> (r: usize)
        ensures
            r == self@,
    {
        self.active
    }
}

/// The right to serve one connection; giving it back frees its slot.
pub struct ConnectionPermit {
    slot: (),
}

impl ConnectionPermit {
    /// Takes a slot when fewer than `limit` connections are being served.
    pub fn acquire(count: &mut ConnectionCount, limit: usize) -> (r: Option<ConnectionPermit>)
        ensures
            old(count)@ < limit ==> r is Some && final(count)@ == old(count)@ + 1,
            old(count)@ >= limit ==> r is None && final(count)@ == old(count)@,
            final(count)@ == count_after_arrival(old(count)@, limit as nat),
    {
        if count.active >= limit {
            return None;
        }
        count.active = count.active + 1;
        Some(ConnectionPermit { slot: () })
    }

    pub fn release(self, count: &mut ConnectionCount)
        requires
            old(count)@ > 0,
        ensures
            final(count)@ == old(count)@ - 1,
            final(count)@ == count_after_departure(old(count)@),
    {
        count.active = count.active - 1;
    }
}

/// The count after a connection arrives: it is served only below the limit.
pub open spec fn count_after_arrival(active: nat, limit: nat) -> nat {
    if active < limit {
        active + 1
    } else {
        active
    }
}

/// The count after a served connection ends.
pub open spec fn count_after_departure(active: nat) -> nat {
    if active > 0 {
        (active - 1) as nat
    } else {
        0
    }
}

/// The count after a run of connection events starting from none: `true` is
/// an arrival, `false` the end of a served connection.
pub open spec fn count_after_events(events: Seq<bool>, limit: nat) -> nat
    decreases events.len(),
{
    if events.len() == 0 {
        0
    } else {
        let before = count_after_events(events.drop_last(), limit);
        if events.last() {
            count_after_arrival(before, limit)
        } else {
            count_after_departure(before)
        }
    }
}

/// Law: whatever connections arrive and end, the number served never exceeds
/// the limit.
pub proof fn law_connections_bounded(events: Seq<bool>, limit: nat)
    ensures
        count_after_events(events, limit) <= limit,
    decreases events.len(),
{
    if events.len() > 0 {
        law_connections_bounded(events.drop_last(), limit);
    }
}

/// What an audited dispatch names as its target.
#[derive(Clone, Copy, Debug, PartialEq, Eq, Structural)]
pub enum AuditTargetKind {
    /// The `task_id` parameter.
    TaskId,
    /// The `artifact_id` parameter.
    ArtifactId,
    /// The derived index itself, `index:derived`.
    DerivedIndex,
}

pub fn audit_target(method: Option<RuntimeMethod>) -> (r: Option<AuditTargetKind>)
    ensures
        r == (match method {
            Some(RuntimeMethod::TaskCancel) => Some(AuditTargetKind::TaskId),
            Some(RuntimeMethod::ArtifactShow) => Some(AuditTargetKind::ArtifactId),
            Some(RuntimeMethod::IndexRebuild) => Some(AuditTargetKind::DerivedIndex),
            _ => None,
        }),
{
    match method {
        Some(RuntimeMethod::TaskCancel) => Some(AuditTargetKind::TaskId),
        Some(RuntimeMethod::ArtifactShow) => Some(AuditTargetKind::ArtifactId),
        Some(RuntimeMethod::IndexRebuild) => Some(AuditTargetKind::DerivedIndex),
        _ => None,
    }
}

} // verus!
