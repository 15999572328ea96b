//! The stored references to provider-owned resources and their
//! reconciliation: a provider reports the resources of one type that currently
//! exist for one owner; every stored reference it no longer reports becomes
//! stale, and a reported resource is recorded under its exact identity (id and
//! generation). A new generation is a new reference: a stale one is never
//! rebound to a replacement.
use vstd::prelude::*;
use vstd::string::StringSliceAdditionalSpecFns;
use crate::ids::Principal;
use crate::provider::{
    bytes_of, check_resource_set, ref_text, resource_identity, resource_in_scope,
    resource_set_problem, resources_problem, ProviderProblem, ProviderResourceRuntimeSpec,
};
use crate::text::{bytes_equal, str_equal};

verus! {

/// The stored availability of a provider resource reference.
#[derive(Clone, Copy, Debug, PartialEq, Eq, Structural)]
pub enum ResourceAvailability {
    Available,
    Stale,
    Unavailable,
    Removed,
}

/// One stored reference to a provider-owned resource.
pub struct StoredResourceRef {
    pub provider_id: String,
    pub owner: Option<Principal>,
    pub resource_type: String,
    pub resource_id: String,
    /// The stored generation; the empty text stands for none.
    pub generation: String,
    pub availability: ResourceAvailability,
}

/// The model of a stored reference: its text fields as bytes.
pub struct StoredRefView {
    pub provider_id: Seq<u8>,
    pub owner: Option<Principal>,
    pub resource_type: Seq<u8>,
    pub resource_id: Seq<u8>,
    pub generation: Seq<u8>,
    pub availability: ResourceAvailability,
}

impl View for StoredResourceRef {
    type V = StoredRefView;

    open spec fn view(&self) -> StoredRefView {
        StoredRefView {
            provider_id: bytes_of(self.provider_id),
            owner: self.owner,
            resource_type: bytes_of(self.resource_type),
            resource_id: bytes_of(self.resource_id),
            generation: bytes_of(self.generation),
            availability: self.availability,
        }
    }
}

pub open spec fn stored_views(rows: Seq<StoredResourceRef>) -> Seq<StoredRefView> {
    rows.map_values(|r: StoredResourceRef| r@)
}

/// The identity a reference is stored under.
pub open spec fn stored_key(r: StoredRefView) -> (Seq<u8>, Seq<u8>, Seq<u8>, Seq<u8>) {
    (r.provider_id, r.resource_type, r.resource_id, r.generation)
}

/// The identity a reported resource is stored under.
pub open spec fn observed_key(o: ProviderResourceRuntimeSpec) -> (Seq<u8>, Seq<u8>, Seq<u8>, Seq<u8>) {
    ref_text(o.reference)
}

/// A reported resource is available or, for anything else the checks let
/// through, unavailable.
pub open spec fn availability_of(o: ProviderResourceRuntimeSpec) -> ResourceAvailability {
    if bytes_of(o.availability_state) == "available".spec_bytes() {
        ResourceAvailability::Available
    } else {
        ResourceAvailability::Unavailable
    }
}

/// The position of the first reported resource from `i` on with this
/// identity, or -1.
pub open spec fn observed_at(obs: Seq<ProviderResourceRuntimeSpec>, key: (Seq<u8>, Seq<u8>, Seq<u8>, Seq<u8>), i: int) -> int
    decreases obs.len() - i,
{
    if i < 0 || i >= obs.len() {
        -1
    } else if observed_key(obs[i]) == key {
        i
    } else {
        observed_at(obs, key, i + 1)
    }
}

/// The references a reconciliation covers: this provider, type and owner,
/// not removed.
pub open spec fn in_reconciled_scope(
    r: StoredRefView,
    provider_id: Seq<u8>,
    resource_type: Seq<u8>,
    owner: Option<Principal>,
) -> bool {
    r.provider_id == provider_id && r.resource_type == resource_type && r.owner == owner
        && r.availability != ResourceAvailability::Removed
}

/// A stored reference after reconciliation: a reported one takes the report's
/// owner and availability; an unreported one in scope becomes stale; any other
/// is left as it was.
pub open spec fn reconciled_row(
    r: StoredRefView,
    provider_id: Seq<u8>,
    resource_type: Seq<u8>,
    owner: Option<Principal>,
    obs: Seq<ProviderResourceRuntimeSpec>,
) -> StoredRefView {
    let j = observed_at(obs, stored_key(r), 0);
    if j >= 0 {
        StoredRefView { owner: owner, availability: availability_of(obs[j]), ..r }
    } else if in_reconciled_scope(r, provider_id, resource_type, owner) {
        StoredRefView { availability: ResourceAvailability::Stale, ..r }
    } else {
        r
    }
}

pub open spec fn key_stored(rows: Seq<StoredRefView>, key: (Seq<u8>, Seq<u8>, Seq<u8>, Seq<u8>)) -> bool {
    exists|i: int| 0 <= i < rows.len() && stored_key(#[trigger] rows[i]) == key
}

/// The reference a reported resource is first stored as.
pub open spec fn inserted_row(o: ProviderResourceRuntimeSpec, owner: Option<Principal>) -> StoredRefView {
    StoredRefView {
        provider_id: ref_text(o.reference).0,
        owner: owner,
        resource_type: ref_text(o.reference).1,
        resource_id: ref_text(o.reference).2,
        generation: ref_text(o.reference).3,
        availability: availability_of(o),
    }
}

/// The references added for the first `n` reports whose identity is not
/// stored yet, in report order.
pub open spec fn inserted_rows(
    rows: Seq<StoredRefView>,
    obs: Seq<ProviderResourceRuntimeSpec>,
    owner: Option<Principal>,
    n: int,
) -> Seq<StoredRefView>
    decreases n,
{
    if n <= 0 {
        Seq::empty()
    } else {
        let before = inserted_rows(rows, obs, owner, n - 1);
        if key_stored(rows, observed_key(obs[n - 1])) {
            before
        } else {
            before.push(inserted_row(obs[n - 1], owner))
        }
    }
}

/// The stored references after a reconciliation: the existing ones in place,
/// then the new ones.
pub open spec fn reconciled_refs(
    rows: Seq<StoredRefView>,
    provider_id: Seq<u8>,
    resource_type: Seq<u8>,
    owner: Option<Principal>,
    obs: Seq<ProviderResourceRuntimeSpec>,
) -> Seq<StoredRefView> {
    rows.map_values(|r: StoredRefView| reconciled_row(r, provider_id, resource_type, owner, obs))
        + inserted_rows(rows, obs, owner, obs.len() as int)
}

fn duplicate_ref(r: &StoredResourceRef) -> (d: StoredResourceRef)
    ensures
        d@ == r@,
{
    StoredResourceRef {
        provider_id: r.provider_id.clone(),
        owner: r.owner,
        resource_type: r.resource_type.clone(),
        resource_id: r.resource_id.clone(),
        generation: r.generation.clone(),
        availability: r.availability,
    }
}

fn observed_generation_bytes(o: &ProviderResourceRuntimeSpec) -> (b: &[u8])
    ensures
        b@ == ref_text(o.reference).3,
{
    match &o.reference.generation {
        Some(g) => g.as_str().as_bytes(),
        None => {
            let e = "";
            proof {
                reveal_strlit("");
                assert(e.spec_bytes() =~= Seq::<u8>::empty()) by {
                    assert(e@.len() == 0);
                };
            }
            e.as_bytes()
        },
    }
}

fn keys_equal(r: &StoredResourceRef, o: &ProviderResourceRuntimeSpec) -> (eq: bool)
    ensures
        eq == (stored_key(r@) == observed_key(*o)),
{
    let a = bytes_equal(r.provider_id.as_str().as_bytes(), o.reference.provider_registration_id.as_str().as_bytes());
    let b = bytes_equal(r.resource_type.as_str().as_bytes(), o.reference.resource_type.as_str().as_bytes());
    let c = bytes_equal(r.resource_id.as_str().as_bytes(), o.reference.resource_id.as_str().as_bytes());
    let d = bytes_equal(r.generation.as_str().as_bytes(), observed_generation_bytes(o));
    a && b && c && d
}

fn availability_from_report(o: &ProviderResourceRuntimeSpec) -> (a: ResourceAvailability)
    ensures
        a == availability_of(*o),
{
    if str_equal(o.availability_state.as_str(), "available") {
        ResourceAvailability::Available
    } else {
        ResourceAvailability::Unavailable
    }
}

fn find_observed(obs: &Vec<ProviderResourceRuntimeSpec>, r: &StoredResourceRef) -> (j: Option<usize>)
    ensures
        match j {
            Some(k) => k < obs@.len() && observed_at(obs@, stored_key(r@), 0) == k,
            None => observed_at(obs@, stored_key(r@), 0) == -1,
        },
{
    let ghost key = stored_key(r@);
    let mut k: usize = 0;
    while k < obs.len()
        invariant
            k <= obs@.len(),
            key == stored_key(r@),
            observed_at(obs@, key, 0) == observed_at(obs@, key, k as int),
        decreases obs@.len() - k,
    {
        if keys_equal(r, &obs[k]) {
            return Some(k);
        }
        k = k + 1;
    }
    None
}

fn is_stored(rows: &Vec<StoredResourceRef>, o: &ProviderResourceRuntimeSpec) -> (b: bool)
    ensures
        b == key_stored(stored_views(rows@), observed_key(*o)),
{
    let ghost views = stored_views(rows@);
    let mut i: usize = 0;
    while i < rows.len()
        invariant
            i <= rows@.len(),
            views == stored_views(rows@),
            forall|k: int| 0 <= k < i ==> stored_key(#[trigger] views[k]) != observed_key(*o),
        decreases rows@.len() - i,
    {
        if keys_equal(&rows[i], o) {
            assert(stored_key(views[i as int]) == observed_key(*o));
            return true;
        }
        i = i + 1;
    }
    false
}

fn new_ref(o: &ProviderResourceRuntimeSpec, owner: Option<Principal>) -> (r: StoredResourceRef)
    ensures
        r@ == inserted_row(*o, owner),
{
    let generation = match &o.reference.generation {
        Some(g) => g.clone(),
        None => {
            let e = String::new();
            proof {
                assert(vstd::utf8::encode_utf8(e@) =~= Seq::<u8>::empty());
            }
            e
        },
    };
    StoredResourceRef {
        provider_id: o.reference.provider_registration_id.clone(),
        owner,
        resource_type: o.reference.resource_type.clone(),
        resource_id: o.reference.resource_id.clone(),
        generation,
        availability: availability_from_report(o),
    }
}

/// Reconciles the stored references with one provider's report of the
/// resources of `resource_type` that currently exist for `owner`. A report
/// that fails the resource-set checks changes nothing and is refused with its
/// problem.
pub fn reconcile_resource_refs(
    rows: &Vec<StoredResourceRef>,
    provider_id: &str,
    resource_type: &str,
    owner: Option<Principal>,
    observed: &Vec<ProviderResourceRuntimeSpec>,
) -> (r: Result<Vec<StoredResourceRef>, ProviderProblem>)
    ensures
        match resource_set_problem(provider_id.spec_bytes(), resource_type.spec_bytes(), observed@) {
            Some(p) => r == Err::<Vec<StoredResourceRef>, ProviderProblem>(p),
            None => r matches Ok(out) && stored_views(out@) == reconciled_refs(
                stored_views(rows@),
                provider_id.spec_bytes(),
                resource_type.spec_bytes(),
                owner,
                observed@,
            ),
        },
{
    match check_resource_set(provider_id, resource_type, observed) {
        Err(p) => {
            return Err(p);
        },
        Ok(()) => {},
    }
    let ghost pid = provider_id.spec_bytes();
    let ghost rt = resource_type.spec_bytes();
    let ghost views = stored_views(rows@);
    let mut out: Vec<StoredResourceRef> = Vec::new();
    let mut i: usize = 0;
    while i < rows.len()
        invariant
            i <= rows@.len(),
            pid == provider_id.spec_bytes(),
            rt == resource_type.spec_bytes(),
            views == stored_views(rows@),
            out@.len() == i,
            forall|k: int| 0 <= k < i ==> (#[trigger] out@[k])@ == reconciled_row(views[k], pid, rt, owner, observed@),
        decreases rows@.len() - i,
    {
        let row = &rows[i];
        let updated = match find_observed(observed, row) {
            Some(j) => {
                let mut d = duplicate_ref(row);
                d.owner = owner;
                d.availability = availability_from_report(&observed[j]);
                d
            },
            None => {
                let scoped = str_equal(row.provider_id.as_str(), provider_id) && str_equal(
                    row.resource_type.as_str(),
                    resource_type,
                ) && row.owner == owner && row.availability != ResourceAvailability::Removed;
                let mut d = duplicate_ref(row);
                if scoped {
                    d.availability = ResourceAvailability::Stale;
                }
                d
            },
        };
        out.push(updated);
        i = i + 1;
    }
    let ghost head = out@;
    let mut j: usize = 0;
    while j < observed.len()
        invariant
            j <= observed@.len(),
            views == stored_views(rows@),
            out@.len() == rows@.len() + inserted_rows(views, observed@, owner, j as int).len(),
            forall|k: int| 0 <= k < rows@.len() ==> (#[trigger] out@[k])@ == reconciled_row(views[k], pid, rt, owner, observed@),
            forall|k: int|
                0 <= k < inserted_rows(views, observed@, owner, j as int).len() ==> (#[trigger] out@[rows@.len() + k])@
                    == inserted_rows(views, observed@, owner, j as int)[k],
        decreases observed@.len() - j,
    {
        let o = &observed[j];
        if !is_stored(rows, o) {
            let n = new_ref(o, owner);
            out.push(n);
        }
        j = j + 1;
    }
    let ghost expected = reconciled_refs(views, pid, rt, owner, observed@);
    assert(stored_views(out@) =~= expected) by {
        assert forall|k: int| 0 <= k < out@.len() implies #[trigger] stored_views(out@)[k] == expected[k] by {
            if k < rows@.len() {
            } else {
                assert(out@[rows@.len() + (k - rows@.len())] == out@[k]);
            }
        }
    }
    Ok(out)
}

/// Law: reconciliation never rewrites a stored identity: every stored
/// reference keeps its provider, type, id and generation, so a resource that
/// reappears under a new generation is a new reference and never takes over
/// the old one.
pub proof fn law_resource_identity_never_rebound(
    rows: Seq<StoredRefView>,
    provider_id: Seq<u8>,
    resource_type: Seq<u8>,
    owner: Option<Principal>,
    obs: Seq<ProviderResourceRuntimeSpec>,
    i: int,
)
    requires
        0 <= i < rows.len(),
    ensures
        stored_key(reconciled_refs(rows, provider_id, resource_type, owner, obs)[i]) == stored_key(rows[i]),
{
}

/// Law: a stored reference of the reconciled provider, type and owner that
/// the report no longer lists becomes stale; one outside that scope that the
/// report does not list is left exactly as it was.
pub proof fn law_unreported_resources_go_stale(
    rows: Seq<StoredRefView>,
    provider_id: Seq<u8>,
    resource_type: Seq<u8>,
    owner: Option<Principal>,
    obs: Seq<ProviderResourceRuntimeSpec>,
    i: int,
)
    requires
        0 <= i < rows.len(),
        forall|j: int| 0 <= j < obs.len() ==> observed_key(#[trigger] obs[j]) != stored_key(rows[i]),
    ensures
        in_reconciled_scope(rows[i], provider_id, resource_type, owner) ==> reconciled_refs(
            rows,
            provider_id,
            resource_type,
            owner,
            obs,
        )[i].availability == ResourceAvailability::Stale,
        !in_reconciled_scope(rows[i], provider_id, resource_type, owner) ==> reconciled_refs(
            rows,
            provider_id,
            resource_type,
            owner,
            obs,
        )[i] == rows[i],
{
    lemma_not_observed(obs, stored_key(rows[i]), 0);
}

proof fn lemma_not_observed(obs: Seq<ProviderResourceRuntimeSpec>, key: (Seq<u8>, Seq<u8>, Seq<u8>, Seq<u8>), i: int)
    requires
        0 <= i,
        forall|j: int| 0 <= j < obs.len() ==> observed_key(#[trigger] obs[j]) != key,
    ensures
        observed_at(obs, key, i) == -1,
    decreases obs.len() - i,
{
    if i < obs.len() {
        lemma_not_observed(obs, key, i + 1);
    }
}

proof fn lemma_observed_at_is_unique(obs: Seq<ProviderResourceRuntimeSpec>, i: int, j: int)
    requires
        0 <= i <= j < obs.len(),
        forall|a: int, b: int| 0 <= a < b < obs.len() ==> observed_key(#[trigger] obs[a]) != observed_key(#[trigger] obs[b]),
    ensures
        observed_at(obs, observed_key(obs[j]), i) == j,
    decreases j - i,
{
    if i < j {
        lemma_observed_at_is_unique(obs, i + 1, j);
    }
}

proof fn lemma_inserted_present(
    rows: Seq<StoredRefView>,
    obs: Seq<ProviderResourceRuntimeSpec>,
    owner: Option<Principal>,
    n: int,
    j: int,
)
    requires
        0 <= j < n <= obs.len(),
        !key_stored(rows, observed_key(obs[j])),
    ensures
        exists|k: int| 0 <= k < inserted_rows(rows, obs, owner, n).len() && #[trigger] inserted_rows(rows, obs, owner, n)[k]
            == inserted_row(obs[j], owner),
    decreases n,
{
    let before = inserted_rows(rows, obs, owner, n - 1);
    if j == n - 1 {
        assert(inserted_rows(rows, obs, owner, n)[before.len() as int] == inserted_row(obs[j], owner));
    } else {
        lemma_inserted_present(rows, obs, owner, n - 1, j);
        let k = choose|k: int| 0 <= k < before.len() && #[trigger] before[k] == inserted_row(obs[j], owner);
        assert(inserted_rows(rows, obs, owner, n)[k] == before[k]);
    }
}

/// Resource sets that pass the checks hold each identity once.
proof fn lemma_checked_keys_distinct(
    provider_id: Seq<u8>,
    resource_type: Seq<u8>,
    obs: Seq<ProviderResourceRuntimeSpec>,
    i: int,
)
    requires
        0 <= i,
        resources_problem(provider_id, resource_type, obs, i) is None,
    ensures
        forall|a: int, b: int| 0 <= a < b < obs.len() && i <= b ==> observed_key(#[trigger] obs[a]) != observed_key(
            #[trigger] obs[b],
        ),
    decreases obs.len() - i,
{
    if i < obs.len() {
        lemma_checked_keys_distinct(provider_id, resource_type, obs, i + 1);
        assert forall|a: int| 0 <= a < i implies observed_key(#[trigger] obs[a]) != observed_key(obs[i]) by {
            if observed_key(obs[a]) == observed_key(obs[i]) {
                assert(resource_identity(obs[a]) == resource_identity(obs[i]));
            }
        }
    }
}

/// Law: after a report passes the checks, every resource it lists is stored
/// under its exact identity with the reported availability and owner.
pub proof fn law_reported_resources_recorded(
    rows: Seq<StoredRefView>,
    provider_id: Seq<u8>,
    resource_type: Seq<u8>,
    owner: Option<Principal>,
    obs: Seq<ProviderResourceRuntimeSpec>,
    j: int,
)
    requires
        resource_set_problem(provider_id, resource_type, obs) is None,
        0 <= j < obs.len(),
    ensures
        exists|k: int|
            0 <= k < reconciled_refs(rows, provider_id, resource_type, owner, obs).len() && {
                let r = #[trigger] reconciled_refs(rows, provider_id, resource_type, owner, obs)[k];
                &&& stored_key(r) == observed_key(obs[j])
                &&& r.availability == availability_of(obs[j])
                &&& r.owner == owner
            },
{
    lemma_checked_keys_distinct(provider_id, resource_type, obs, 0);
    let out = reconciled_refs(rows, provider_id, resource_type, owner, obs);
    let key = observed_key(obs[j]);
    if key_stored(rows, key) {
        let i = choose|i: int| 0 <= i < rows.len() && stored_key(#[trigger] rows[i]) == key;
        lemma_observed_at_is_unique(obs, 0, j);
        assert(out[i] == reconciled_row(rows[i], provider_id, resource_type, owner, obs));
    } else {
        lemma_inserted_present(rows, obs, owner, obs.len() as int, j);
        let ins = inserted_rows(rows, obs, owner, obs.len() as int);
        let k = choose|k: int| 0 <= k < ins.len() && #[trigger] ins[k] == inserted_row(obs[j], owner);
        assert(out[rows.len() + k] == ins[k]);
    }
}

} // verus!
