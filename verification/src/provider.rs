//! The provider registry's rules: what a registration, a runtime status and a
//! set of provider-owned resources must satisfy before they are stored, and
//! how the registry is summarised and paged.
use vstd::prelude::*;
use vstd::string::{StringExecFns, StringSliceAdditionalSpecFns};
use vstd::utf8::encode_utf8;
use crate::ids::Principal;
use crate::safety::{secret_like_text, text_secret_like};
use crate::text::{
    bytes_equal, decimal_chars, decimal_text, has_control_break, str_equal, contains_control_break,
};

verus! {

pub const MAX_PROVIDER_RUNTIME_REASON_BYTES: usize = 256;
pub const MAX_PROVIDER_RESOURCE_VIEWS: usize = 1024;
pub const MAX_PROVIDER_CAPABILITY_ID_BYTES: usize = 128;
pub const MAX_PROVIDER_RESOURCE_TYPE_BYTES: usize = 96;

pub struct ProviderInterfaceSpec {
    pub interface_id: String,
    pub interface_type: String,
    pub contract_version: u32,
    pub target: String,
    pub structured_output: bool,
}

pub struct ProviderCapabilitySpec {
    pub capability_id: String,
    pub contract_version: u32,
    pub interface_ids: Vec<String>,
}

pub struct ProviderResourceTypeSpec {
    pub resource_type: String,
    pub authority: String,
    pub lifetime: String,
}

pub struct ProviderInterfaceView {
    pub interface_id: String,
    pub interface_type: String,
    pub contract_version: u32,
    pub target: String,
    pub structured_output: bool,
}

pub struct ProviderCapabilityView {
    pub capability_id: String,
    pub contract_version: u32,
    pub availability_state: String,
    pub reason_code: Option<String>,
    pub interfaces: Vec<String>,
}

pub struct ProviderResourceTypeView {
    pub resource_type: String,
    pub authority: String,
    pub lifetime: String,
}

/// One page of a registry listing and the cursor of the next page, if any.
pub struct ProviderPage<T> {
    pub items: Vec<T>,
    pub next_cursor: Option<String>,
}

/// The status a provider integration reports for one declared capability.
pub struct ProviderCapabilityRuntimeSpec {
    pub capability_id: String,
    pub availability_state: String,
    pub reason_code: Option<String>,
}

/// The dynamic state a provider integration reports.
pub struct ProviderRuntimeStatusSpec {
    pub compatibility_state: String,
    pub health_state: String,
    pub health_reason: Option<String>,
    pub capabilities: Vec<ProviderCapabilityRuntimeSpec>,
}

/// The exact identity of a provider-owned resource: provider registration,
/// resource type, resource id and, when the provider has one, generation.
pub struct ProviderResourceRef {
    pub provider_registration_id: String,
    pub resource_type: String,
    pub resource_id: String,
    pub generation: Option<String>,
}

/// One resource a provider reports as currently existing.
pub struct ProviderResourceRuntimeSpec {
    pub reference: ProviderResourceRef,
    pub availability_state: String,
}

/// Why the registry refused a registration, status or resource set.
#[derive(Clone, Copy, Debug, PartialEq, Eq, Structural)]
pub enum ProviderProblem {
    SystemProviderWithOwner,
    UserProviderWithoutOwner,
    UnknownScope,
    CompatibilityState,
    HealthState,
    ReasonInvalid,
    ReasonSecretLike,
    CapabilityId,
    CapabilityAvailability,
    RepeatedCapability,
    UndeclaredCapability,
    ResourceType,
    ResourceOutOfScope,
    DuplicateResource,
    TooManyResources,
    InconsistentOwner,
}

pub open spec fn bytes_of(s: String) -> Seq<u8> {
    encode_utf8(s@)
}

pub open spec fn scope_problem(scope: Seq<u8>, owner: Option<Principal>) -> Option<ProviderProblem> {
    if scope == "system".spec_bytes() {
        if owner is Some {
            Some(ProviderProblem::SystemProviderWithOwner)
        } else {
            None
        }
    } else if scope == "user".spec_bytes() {
        if owner is None {
            Some(ProviderProblem::UserProviderWithoutOwner)
        } else {
            None
        }
    } else {
        Some(ProviderProblem::UnknownScope)
    }
}

/// A system provider has no owner; a user provider has one.
pub fn validate_scope_owner(scope: &str, owner: Option<Principal>) -> (r: Result<(), ProviderProblem>)
    ensures
        match scope_problem(scope.spec_bytes(), owner) {
            Some(p) => r == Err::<(), ProviderProblem>(p),
            None => r is Ok,
        },
{
    if str_equal(scope, "system") {
        if owner.is_some() {
            Err(ProviderProblem::SystemProviderWithOwner)
        } else {
            Ok(())
        }
    } else if str_equal(scope, "user") {
        if owner.is_none() {
            Err(ProviderProblem::UserProviderWithoutOwner)
        } else {
            Ok(())
        }
    } else {
        Err(ProviderProblem::UnknownScope)
    }
}

pub open spec fn reason_problem(reason: Option<Seq<u8>>) -> Option<ProviderProblem> {
    match reason {
        None => None,
        Some(b) => if b.len() == 0 || b.len() > MAX_PROVIDER_RUNTIME_REASON_BYTES || has_control_break(b) {
            Some(ProviderProblem::ReasonInvalid)
        } else if text_secret_like(b) {
            Some(ProviderProblem::ReasonSecretLike)
        } else {
            None
        },
    }
}

pub open spec fn opt_bytes(s: Option<String>) -> Option<Seq<u8>> {
    match s {
        Some(t) => Some(bytes_of(t)),
        None => None,
    }
}

/// A reason, when given, is 1..=256 bytes, one line, and not secret-shaped.
pub fn validate_runtime_reason(value: Option<&str>) -> (r: Result<(), ProviderProblem>)
    ensures
        match reason_problem(
            match value {
                Some(v) => Some(v.spec_bytes()),
                None => None,
            },
        ) {
            Some(p) => r == Err::<(), ProviderProblem>(p),
            None => r is Ok,
        },
{
    match value {
        None => Ok(()),
        Some(v) => {
            let n = v.as_bytes().len();
            if n == 0 || n > MAX_PROVIDER_RUNTIME_REASON_BYTES || contains_control_break(v) {
                return Err(ProviderProblem::ReasonInvalid);
            }
            if secret_like_text(v) {
                return Err(ProviderProblem::ReasonSecretLike);
            }
            Ok(())
        },
    }
}

pub open spec fn compatibility_ok(b: Seq<u8>) -> bool {
    b == "compatible".spec_bytes() || b == "incompatible".spec_bytes() || b == "unknown".spec_bytes()
}

pub open spec fn provider_health_ok(b: Seq<u8>) -> bool {
    b == "healthy".spec_bytes() || b == "degraded".spec_bytes() || b == "unavailable".spec_bytes()
        || b == "unknown".spec_bytes()
}

pub open spec fn availability_ok(b: Seq<u8>) -> bool {
    b == "available".spec_bytes() || b == "degraded".spec_bytes() || b == "unavailable".spec_bytes()
        || b == "unknown".spec_bytes()
}

pub open spec fn capability_status_problem(c: ProviderCapabilityRuntimeSpec) -> Option<ProviderProblem> {
    if bytes_of(c.capability_id).len() == 0 || bytes_of(c.capability_id).len() > MAX_PROVIDER_CAPABILITY_ID_BYTES {
        Some(ProviderProblem::CapabilityId)
    } else if !availability_ok(bytes_of(c.availability_state)) {
        Some(ProviderProblem::CapabilityAvailability)
    } else {
        reason_problem(opt_bytes(c.reason_code))
    }
}

/// The first problem among the capability statuses from `i` on.
pub open spec fn capabilities_problem(caps: Seq<ProviderCapabilityRuntimeSpec>, i: int) -> Option<ProviderProblem>
    decreases caps.len() - i,
{
    if i < 0 || i >= caps.len() {
        None
    } else if capability_status_problem(caps[i]) is Some {
        capability_status_problem(caps[i])
    } else {
        capabilities_problem(caps, i + 1)
    }
}

pub open spec fn runtime_status_problem(spec: ProviderRuntimeStatusSpec) -> Option<ProviderProblem> {
    if !compatibility_ok(bytes_of(spec.compatibility_state)) {
        Some(ProviderProblem::CompatibilityState)
    } else if !provider_health_ok(bytes_of(spec.health_state)) {
        Some(ProviderProblem::HealthState)
    } else if reason_problem(opt_bytes(spec.health_reason)) is Some {
        reason_problem(opt_bytes(spec.health_reason))
    } else {
        capabilities_problem(spec.capabilities@, 0)
    }
}

fn opt_str(s: &Option<String>) -> (r: Option<&str>)
    ensures
        match r {
            Some(v) => s is Some && v.spec_bytes() == bytes_of(s->0),
            None => s is None,
        },
{
    match s {
        Some(t) => Some(t.as_str()),
        None => None,
    }
}

/// Checks a provider's runtime status before it is stored.
pub fn validate_provider_runtime_status(spec: &ProviderRuntimeStatusSpec) -> (r: Result<(), ProviderProblem>)
    ensures
        match runtime_status_problem(*spec) {
            Some(p) => r == Err::<(), ProviderProblem>(p),
            None => r is Ok,
        },
{
    let c = spec.compatibility_state.as_str();
    if !(str_equal(c, "compatible") || str_equal(c, "incompatible") || str_equal(c, "unknown")) {
        return Err(ProviderProblem::CompatibilityState);
    }
    let h = spec.health_state.as_str();
    if !(str_equal(h, "healthy") || str_equal(h, "degraded") || str_equal(h, "unavailable") || str_equal(
        h,
        "unknown",
    )) {
        return Err(ProviderProblem::HealthState);
    }
    validate_runtime_reason(opt_str(&spec.health_reason))?;
    let caps = &spec.capabilities;
    let mut i: usize = 0;
    while i < caps.len()
        invariant
            i <= caps@.len(),
            caps@ == spec.capabilities@,
            runtime_status_problem(*spec) == capabilities_problem(caps@, i as int),
        decreases caps@.len() - i,
    {
        let cap = &caps[i];
        let n = cap.capability_id.as_str().as_bytes().len();
        if n == 0 || n > MAX_PROVIDER_CAPABILITY_ID_BYTES {
            return Err(ProviderProblem::CapabilityId);
        }
        let a = cap.availability_state.as_str();
        if !(str_equal(a, "available") || str_equal(a, "degraded") || str_equal(a, "unavailable")
            || str_equal(a, "unknown")) {
            return Err(ProviderProblem::CapabilityAvailability);
        }
        validate_runtime_reason(opt_str(&cap.reason_code))?;
        i = i + 1;
    }
    Ok(())
}

/// The first capability, in report order, that repeats an earlier one or
/// that the registration does not declare; `declared[i]` says whether
/// capability `i` is declared.
pub open spec fn capability_update_problem(ids: Seq<Seq<u8>>, declared: Seq<bool>, i: int) -> Option<ProviderProblem>
    decreases ids.len() - i,
{
    if i < 0 || i >= ids.len() {
        None
    } else if exists|j: int| 0 <= j < i && ids[j] == ids[i] {
        Some(ProviderProblem::RepeatedCapability)
    } else if !declared[i] {
        Some(ProviderProblem::UndeclaredCapability)
    } else {
        capability_update_problem(ids, declared, i + 1)
    }
}

pub open spec fn capability_ids(caps: Seq<ProviderCapabilityRuntimeSpec>) -> Seq<Seq<u8>> {
    caps.map_values(|c: ProviderCapabilityRuntimeSpec| bytes_of(c.capability_id))
}

/// Decides whether a runtime status's capabilities can be applied: none may
/// repeat and each must be declared by the registration.
pub fn check_capability_updates(
    caps: &Vec<ProviderCapabilityRuntimeSpec>,
    declared: &Vec<bool>,
) -> (r: Result<(), ProviderProblem>)
    requires
        declared@.len() == caps@.len(),
    ensures
        match capability_update_problem(capability_ids(caps@), declared@, 0) {
            Some(p) => r == Err::<(), ProviderProblem>(p),
            None => r is Ok,
        },
{
    let ghost ids = capability_ids(caps@);
    let mut i: usize = 0;
    while i < caps.len()
        invariant
            i <= caps@.len(),
            declared@.len() == caps@.len(),
            ids == capability_ids(caps@),
            capability_update_problem(ids, declared@, 0) == capability_update_problem(ids, declared@, i as int),
        decreases caps@.len() - i,
    {
        let key = caps[i].capability_id.as_str().as_bytes();
        let mut j: usize = 0;
        while j < i
            invariant
                j <= i,
                i < caps@.len(),
                ids == capability_ids(caps@),
                key@ == ids[i as int],
                declared@.len() == caps@.len(),
                capability_update_problem(ids, declared@, 0) == capability_update_problem(ids, declared@, i as int),
                forall|k: int| 0 <= k < j ==> ids[k] != ids[i as int],
            decreases i - j,
        {
            if bytes_equal(caps[j].capability_id.as_str().as_bytes(), key) {
                assert(ids[j as int] == ids[i as int]);
                return Err(ProviderProblem::RepeatedCapability);
            }
            j = j + 1;
        }
        if !declared[i] {
            return Err(ProviderProblem::UndeclaredCapability);
        }
        i = i + 1;
    }
    Ok(())
}

pub open spec fn ref_text(r: ProviderResourceRef) -> (Seq<u8>, Seq<u8>, Seq<u8>, Seq<u8>) {
    (
        bytes_of(r.provider_registration_id),
        bytes_of(r.resource_type),
        bytes_of(r.resource_id),
        match r.generation {
            Some(g) => bytes_of(g),
            None => Seq::empty(),
        },
    )
}

/// The identity a resource is deduplicated by: its id and its generation (an
/// absent generation counting as the empty one).
pub open spec fn resource_identity(r: ProviderResourceRuntimeSpec) -> (Seq<u8>, Seq<u8>) {
    (ref_text(r.reference).2, ref_text(r.reference).3)
}

pub open spec fn resource_in_scope(provider_id: Seq<u8>, resource_type: Seq<u8>, r: ProviderResourceRuntimeSpec) -> bool {
    ref_text(r.reference).0 == provider_id && ref_text(r.reference).1 == resource_type && (bytes_of(
        r.availability_state,
    ) == "available".spec_bytes() || bytes_of(r.availability_state) == "unavailable".spec_bytes())
}

/// The first problem of a resource set from `i` on: a resource outside the
/// reconciled provider and type, or one repeating an earlier identity.
pub open spec fn resources_problem(
    provider_id: Seq<u8>,
    resource_type: Seq<u8>,
    rs: Seq<ProviderResourceRuntimeSpec>,
    i: int,
) -> Option<ProviderProblem>
    decreases rs.len() - i,
{
    if i < 0 || i >= rs.len() {
        None
    } else if !resource_in_scope(provider_id, resource_type, rs[i]) {
        Some(ProviderProblem::ResourceOutOfScope)
    } else if exists|j: int| 0 <= j < i && resource_identity(rs[j]) == resource_identity(rs[i]) {
        Some(ProviderProblem::DuplicateResource)
    } else {
        resources_problem(provider_id, resource_type, rs, i + 1)
    }
}

pub open spec fn resource_set_problem(
    provider_id: Seq<u8>,
    resource_type: Seq<u8>,
    rs: Seq<ProviderResourceRuntimeSpec>,
) -> Option<ProviderProblem> {
    if resource_type.len() == 0 || resource_type.len() > MAX_PROVIDER_RESOURCE_TYPE_BYTES {
        Some(ProviderProblem::ResourceType)
    } else {
        resources_problem(provider_id, resource_type, rs, 0)
    }
}

fn generation_bytes(r: &ProviderResourceRef) -> (b: &[u8])
    ensures
        b@ == ref_text(*r).3,
{
    match &r.generation {
        Some(g) => g.as_str().as_bytes(),
        None => {
            let e = "";
            proof {
                reveal_strlit("");
                assert(e.spec_bytes() =~= Seq::<u8>::empty()) by {
                    assert(e@.len() == 0);
                };
            }
            e.as_bytes()
        },
    }
}

/// Checks a provider's current resource set before reconciliation: the type
/// is 1..=96 bytes, every resource belongs to this provider and type with a
/// plain availability, and no identity repeats.
pub fn check_resource_set(
    provider_id: &str,
    resource_type: &str,
    resources: &Vec<ProviderResourceRuntimeSpec>,
) -> (r: Result<(), ProviderProblem>)
    ensures
        match resource_set_problem(provider_id.spec_bytes(), resource_type.spec_bytes(), resources@) {
            Some(p) => r == Err::<(), ProviderProblem>(p),
            None => r is Ok,
        },
{
    let n = resource_type.as_bytes().len();
    if n == 0 || n > MAX_PROVIDER_RESOURCE_TYPE_BYTES {
        return Err(ProviderProblem::ResourceType);
    }
    let ghost pid = provider_id.spec_bytes();
    let ghost rt = resource_type.spec_bytes();
    let mut i: usize = 0;
    while i < resources.len()
        invariant
            i <= resources@.len(),
            pid == provider_id.spec_bytes(),
            rt == resource_type.spec_bytes(),
            resource_set_problem(pid, rt, resources@) == resources_problem(pid, rt, resources@, i as int),
        decreases resources@.len() - i,
    {
        let res = &resources[i];
        let a = res.availability_state.as_str();
        if !str_equal(res.reference.provider_registration_id.as_str(), provider_id) || !str_equal(
            res.reference.resource_type.as_str(),
            resource_type,
        ) || !(str_equal(a, "available") || str_equal(a, "unavailable")) {
            return Err(ProviderProblem::ResourceOutOfScope);
        }
        let id = res.reference.resource_id.as_str().as_bytes();
        let gen = generation_bytes(&res.reference);
        let mut j: usize = 0;
        while j < i
            invariant
                j <= i,
                i < resources@.len(),
                id@ == resource_identity(resources@[i as int]).0,
                gen@ == resource_identity(resources@[i as int]).1,
                forall|k: int| 0 <= k < j ==> resource_identity(#[trigger] resources@[k]) != resource_identity(resources@[i as int]),
                resource_in_scope(pid, rt, resources@[i as int]),
                pid == provider_id.spec_bytes(),
                rt == resource_type.spec_bytes(),
                resource_set_problem(pid, rt, resources@) == resources_problem(pid, rt, resources@, i as int),
            decreases i - j,
        {
            let other = &resources[j];
            if bytes_equal(other.reference.resource_id.as_str().as_bytes(), id) && bytes_equal(
                generation_bytes(&other.reference),
                gen,
            ) {
                assert(resource_identity(resources@[j as int]) == resource_identity(resources@[i as int]));
                return Err(ProviderProblem::DuplicateResource);
            }
            j = j + 1;
        }
        i = i + 1;
    }
    Ok(())
}

/// A stored owner has both ids or neither.
pub fn owner_from_columns(uid: Option<u32>, gid: Option<u32>) -> (r: Result<Option<Principal>, ProviderProblem>)
    ensures
        r == (match (uid, gid) {
            (Some(u), Some(g)) => Ok::<Option<Principal>, ProviderProblem>(Some(Principal { uid: u, gid: g })),
            (None, None) => Ok(None),
            _ => Err(ProviderProblem::InconsistentOwner),
        }),
{
    match (uid, gid) {
        (Some(u), Some(g)) => Ok(Some(Principal::new(u, g))),
        (None, None) => Ok(None),
        _ => Err(ProviderProblem::InconsistentOwner),
    }
}

/// A resource listing holds at most 1024 views; one more means the bound was
/// exceeded.
pub fn check_resource_view_count(fetched: usize) -> (r: Result<(), ProviderProblem>)
    ensures
        r == (if fetched > MAX_PROVIDER_RESOURCE_VIEWS {
            Err::<(), ProviderProblem>(ProviderProblem::TooManyResources)
        } else {
            Ok(())
        }),
{
    if fetched > MAX_PROVIDER_RESOURCE_VIEWS {
        Err(ProviderProblem::TooManyResources)
    } else {
        Ok(())
    }
}

/// The summary of a set of contract versions: `none` for no version, the
/// version itself when all agree, `mixed` otherwise.
pub open spec fn version_summary_spec(v: Seq<u32>) -> Seq<char> {
    if v.len() == 0 {
        "none"@
    } else if forall|i: int| 0 <= i < v.len() ==> #[trigger] v[i] == v[0] {
        decimal_chars(v[0] as nat)
    } else {
        "mixed"@
    }
}

pub fn version_summary(versions: &Vec<u32>) -> (r: String)
    ensures
        r@ == version_summary_spec(versions@),
{
    if versions.len() == 0 {
        return String::from_str("none");
    }
    let first = versions[0];
    let mut i: usize = 1;
    while i < versions.len()
        invariant
            1 <= i <= versions@.len(),
            first == versions@[0],
            forall|j: int| 0 <= j < i ==> versions@[j] == first,
        decreases versions@.len() - i,
    {
        if versions[i] != first {
            return String::from_str("mixed");
        }
        i = i + 1;
    }
    decimal_text(first as u64)
}

/// The system providers whose manifests were not seen: they are tombstoned.
pub open spec fn manifest_seen(seen: Seq<Seq<u8>>, id: Seq<u8>) -> bool {
    exists|j: int| 0 <= j < seen.len() && seen[j] == id
}

pub open spec fn texts(v: Seq<String>) -> Seq<Seq<u8>> {
    v.map_values(|s: String| bytes_of(s))
}

/// The positions of the active manifests that are missing from `seen`, in
/// order.
pub fn missing_manifests(active: &Vec<String>, seen: &Vec<String>) -> (r: Vec<usize>)
    ensures
        forall|a: int, b: int| 0 <= a < b < r@.len() ==> #[trigger] r@[a] < #[trigger] r@[b],
        forall|k: int| 0 <= k < r@.len() ==> #[trigger] r@[k] < active@.len() && !manifest_seen(texts(seen@), texts(active@)[r@[k] as int]),
        forall|i: int| 0 <= i < active@.len() && !manifest_seen(texts(seen@), #[trigger] texts(active@)[i]) ==> exists|k: int| 0 <= k < r@.len() && r@[k] == i,
{
    let mut r: Vec<usize> = Vec::new();
    let mut i: usize = 0;
    while i < active.len()
        invariant
            i <= active@.len(),
            forall|a: int, b: int| 0 <= a < b < r@.len() ==> #[trigger] r@[a] < #[trigger] r@[b],
            forall|k: int| 0 <= k < r@.len() ==> #[trigger] r@[k] < i && !manifest_seen(texts(seen@), texts(active@)[r@[k] as int]),
            forall|x: int| 0 <= x < i && !manifest_seen(texts(seen@), #[trigger] texts(active@)[x]) ==> exists|k: int| 0 <= k < r@.len() && r@[k] == x,
        decreases active@.len() - i,
    {
        let id = active[i].as_str().as_bytes();
        assert(id@ == texts(active@)[i as int]);
        let mut found = false;
        let mut j: usize = 0;
        while j < seen.len()
            invariant
                j <= seen@.len(),
                id@ == texts(active@)[i as int],
                found <==> exists|k: int| 0 <= k < j && texts(seen@)[k] == id@,
            decreases seen@.len() - j,
        {
            if bytes_equal(seen[j].as_str().as_bytes(), id) {
                assert(texts(seen@)[j as int] == id@);
                found = true;
            }
            j = j + 1;
        }
        if !found {
            let ghost before = r@;
            r.push(i);
            assert forall|x: int| 0 <= x < i + 1 && !manifest_seen(texts(seen@), #[trigger] texts(active@)[x]) implies exists|k: int| 0 <= k < r@.len() && r@[k] == x by {
                if x < i {
                    let k = choose|k: int| 0 <= k < before.len() && before[k] == x;
                    assert(r@[k] == x);
                } else {
                    assert(r@[before.len() as int] == x);
                }
            }
        }
        i = i + 1;
    }
    r
}

/// Cuts a listing fetched with one extra item to the page limit; returns
/// whether a next page exists.
pub fn truncate_page<T>(items: &mut Vec<T>, limit: usize) -> (more: bool)
    ensures
        more == (old(items)@.len() > limit),
        final(items)@ == (if more {
            old(items)@.take(limit as int)
        } else {
            old(items)@
        }),
{
    if items.len() > limit {
        items.truncate(limit);
        true
    } else {
        false
    }
}

} // verus!
