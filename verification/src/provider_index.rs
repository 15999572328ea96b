//! The provider registry as an index source: every active system provider
//! becomes a registration observation followed by one observation per
//! declared capability, every system provider-owned resource becomes a
//! resource observation, and each capability and resource is related to its
//! provider. Handles stay stable across status probes because the source
//! generation does not change.
use vstd::prelude::*;
use vstd::string::{StringExecFns, StringSliceAdditionalSpecFns};
use crate::ids::Principal;
use crate::index::{Freshness, HealthState};
use crate::provider::bytes_of;
use crate::runtime::SubsystemReason;
use crate::text::str_equal;
use crate::visual::{IndexResourceType, IndexSourceKind};

verus! {

pub const PROVIDER_SOURCE_ID: &'static str = "providers";
pub const PROVIDER_SOURCE_GENERATION: &'static str = "provider-registry-v1";

/// One capability of a registration, as the registry lists it.
pub struct BatchCapability {
    pub capability_id: String,
    pub contract_version: u32,
    pub availability_state: String,
}

/// One registration, as the registry lists it; `detail_visible` says whether
/// its full view could be read.
pub struct BatchRegistration {
    pub provider_id: String,
    pub provider_type: String,
    pub display_label: String,
    pub scope: String,
    pub health_state: String,
    pub compatibility_state: String,
    pub detail_visible: bool,
    pub capabilities: Vec<BatchCapability>,
}

/// One provider-owned resource; `encoded_reference` is its reference in the
/// wire encoding, which the caller produces with the protocol's own types.
pub struct BatchResource {
    pub encoded_reference: String,
    pub provider_id: String,
    pub provider_scope: String,
    pub owner: Option<Principal>,
    pub availability_state: String,
    pub updated_at_ms: i64,
}

/// Which input an observation describes, so its metadata can be written.
#[derive(Clone, Copy, Debug, PartialEq, Eq, Structural)]
pub enum MetadataSource {
    Registration(usize),
    Capability(usize, usize),
    Resource(usize),
}

/// One observation of the provider source. Its source is always
/// `PROVIDER_SOURCE_ID` at `PROVIDER_SOURCE_GENERATION`, its authoritative
/// reference is its native identity, and its control path is the registered
/// provider.
pub struct BatchObservation {
    pub resource_type: IndexResourceType,
    pub native_identity: String,
    pub owner: Option<Principal>,
    pub freshness: Freshness,
    pub observed_at_ms: i64,
    pub metadata: MetadataSource,
}

#[derive(Clone, Copy, Debug, PartialEq, Eq, Structural)]
pub enum ProviderRelationKind {
    ProviderCapability,
    ProviderResource,
}

/// One authoritative relation from a provider to what it owns.
pub struct BatchRelation {
    pub from_ref: String,
    pub to_ref: String,
    pub kind: ProviderRelationKind,
    pub observed_at_ms: i64,
}

/// The provider source's status as one index source among the others.
pub struct ProviderSourceStatus {
    pub source_id: String,
    pub source_kind: IndexSourceKind,
    pub owner: Option<Principal>,
    pub source_generation: String,
    pub health: HealthState,
    pub reason: SubsystemReason,
    pub last_attempt_at_ms: i64,
    pub last_success_at_ms: Option<i64>,
}

/// The provider source's report: its status and what it observed.
pub struct ProviderBatch {
    pub status: ProviderSourceStatus,
    pub observations: Vec<BatchObservation>,
    pub relations: Vec<BatchRelation>,
}

pub struct ObservationView {
    pub resource_type: IndexResourceType,
    pub native_identity: Seq<char>,
    pub owner: Option<Principal>,
    pub freshness: Freshness,
    pub observed_at_ms: i64,
    pub metadata: MetadataSource,
}

impl View for BatchObservation {
    type V = ObservationView;

    open spec fn view(&self) -> ObservationView {
        ObservationView {
            resource_type: self.resource_type,
            native_identity: self.native_identity@,
            owner: self.owner,
            freshness: self.freshness,
            observed_at_ms: self.observed_at_ms,
            metadata: self.metadata,
        }
    }
}

pub struct RelationView {
    pub from_ref: Seq<char>,
    pub to_ref: Seq<char>,
    pub kind: ProviderRelationKind,
    pub observed_at_ms: i64,
}

impl View for BatchRelation {
    type V = RelationView;

    open spec fn view(&self) -> RelationView {
        RelationView {
            from_ref: self.from_ref@,
            to_ref: self.to_ref@,
            kind: self.kind,
            observed_at_ms: self.observed_at_ms,
        }
    }
}

pub open spec fn obs_views(s: Seq<BatchObservation>) -> Seq<ObservationView> {
    s.map_values(|o: BatchObservation| o@)
}

pub open spec fn rel_views(s: Seq<BatchRelation>) -> Seq<RelationView> {
    s.map_values(|o: BatchRelation| o@)
}

pub open spec fn is_system(scope: String) -> bool {
    bytes_of(scope) == "system".spec_bytes()
}

pub open spec fn included(reg: BatchRegistration) -> bool {
    is_system(reg.scope) && reg.detail_visible
}

pub open spec fn capability_ref(reg: BatchRegistration, cap: BatchCapability) -> Seq<char> {
    "provider-capability:"@ + reg.provider_id@ + ":"@ + cap.capability_id@
}

pub open spec fn registration_obs(i: int, reg: BatchRegistration, now: i64) -> ObservationView {
    ObservationView {
        resource_type: IndexResourceType::ProviderRegistration,
        native_identity: reg.provider_id@,
        owner: None,
        freshness: Freshness::Recent,
        observed_at_ms: now,
        metadata: MetadataSource::Registration(i as usize),
    }
}

pub open spec fn capability_obs(i: int, j: int, reg: BatchRegistration, now: i64) -> ObservationView {
    ObservationView {
        resource_type: IndexResourceType::RegisteredCapability,
        native_identity: capability_ref(reg, reg.capabilities@[j]),
        owner: None,
        freshness: Freshness::Recent,
        observed_at_ms: now,
        metadata: MetadataSource::Capability(i as usize, j as usize),
    }
}

pub open spec fn capability_rel(reg: BatchRegistration, j: int, now: i64) -> RelationView {
    RelationView {
        from_ref: reg.provider_id@,
        to_ref: capability_ref(reg, reg.capabilities@[j]),
        kind: ProviderRelationKind::ProviderCapability,
        observed_at_ms: now,
    }
}

/// A registration's observations: itself, then its capabilities in order.
pub open spec fn registration_block(i: int, reg: BatchRegistration, now: i64) -> Seq<ObservationView> {
    seq![registration_obs(i, reg, now)] + Seq::new(
        reg.capabilities@.len(),
        |j: int| capability_obs(i, j, reg, now),
    )
}

pub open spec fn registration_relations(reg: BatchRegistration, now: i64) -> Seq<RelationView> {
    Seq::new(reg.capabilities@.len(), |j: int| capability_rel(reg, j, now))
}

pub open spec fn registrations_obs(regs: Seq<BatchRegistration>, n: int, now: i64) -> Seq<ObservationView>
    decreases n,
{
    if n <= 0 {
        Seq::empty()
    } else if included(regs[n - 1]) {
        registrations_obs(regs, n - 1, now) + registration_block(n - 1, regs[n - 1], now)
    } else {
        registrations_obs(regs, n - 1, now)
    }
}

pub open spec fn registrations_rels(regs: Seq<BatchRegistration>, n: int, now: i64) -> Seq<RelationView>
    decreases n,
{
    if n <= 0 {
        Seq::empty()
    } else if included(regs[n - 1]) {
        registrations_rels(regs, n - 1, now) + registration_relations(regs[n - 1], now)
    } else {
        registrations_rels(regs, n - 1, now)
    }
}

/// A resource's freshness from its stored availability.
pub open spec fn resource_freshness(availability: Seq<u8>) -> Freshness {
    if availability == "available".spec_bytes() {
        Freshness::Recent
    } else if availability == "stale".spec_bytes() {
        Freshness::Stale
    } else if availability == "unavailable".spec_bytes() {
        Freshness::Unavailable
    } else {
        Freshness::Historical
    }
}

pub open spec fn resource_ref(res: BatchResource) -> Seq<char> {
    "provider-resource:"@ + res.encoded_reference@
}

pub open spec fn resource_obs(k: int, res: BatchResource) -> ObservationView {
    ObservationView {
        resource_type: IndexResourceType::ProviderResource,
        native_identity: resource_ref(res),
        owner: res.owner,
        freshness: resource_freshness(bytes_of(res.availability_state)),
        observed_at_ms: res.updated_at_ms,
        metadata: MetadataSource::Resource(k as usize),
    }
}

pub open spec fn resource_rel(res: BatchResource) -> RelationView {
    RelationView {
        from_ref: res.provider_id@,
        to_ref: resource_ref(res),
        kind: ProviderRelationKind::ProviderResource,
        observed_at_ms: res.updated_at_ms,
    }
}

pub open spec fn resources_obs(rs: Seq<BatchResource>, n: int) -> Seq<ObservationView>
    decreases n,
{
    if n <= 0 {
        Seq::empty()
    } else if is_system(rs[n - 1].provider_scope) {
        resources_obs(rs, n - 1).push(resource_obs(n - 1, rs[n - 1]))
    } else {
        resources_obs(rs, n - 1)
    }
}

pub open spec fn resources_rels(rs: Seq<BatchResource>, n: int) -> Seq<RelationView>
    decreases n,
{
    if n <= 0 {
        Seq::empty()
    } else if is_system(rs[n - 1].provider_scope) {
        resources_rels(rs, n - 1).push(resource_rel(rs[n - 1]))
    } else {
        resources_rels(rs, n - 1)
    }
}

pub fn freshness_of_availability(availability: &str) -> (r: Freshness)
    ensures
        r == resource_freshness(availability.spec_bytes()),
{
    if str_equal(availability, "available") {
        Freshness::Recent
    } else if str_equal(availability, "stale") {
        Freshness::Stale
    } else if str_equal(availability, "unavailable") {
        Freshness::Unavailable
    } else {
        Freshness::Historical
    }
}

fn registration_observations(i: usize, reg: &BatchRegistration, now: i64) -> (r: (
    Vec<BatchObservation>,
    Vec<BatchRelation>,
))
    ensures
        obs_views(r.0@) == registration_block(i as int, *reg, now),
        rel_views(r.1@) == registration_relations(*reg, now),
{
    let mut obs: Vec<BatchObservation> = Vec::new();
    let mut rels: Vec<BatchRelation> = Vec::new();
    obs.push(
        BatchObservation {
            resource_type: IndexResourceType::ProviderRegistration,
            native_identity: reg.provider_id.clone(),
            owner: None,
            freshness: Freshness::Recent,
            observed_at_ms: now,
            metadata: MetadataSource::Registration(i),
        },
    );
    let caps = &reg.capabilities;
    let mut j: usize = 0;
    while j < caps.len()
        invariant
            j <= caps@.len(),
            caps@ == reg.capabilities@,
            obs_views(obs@) =~= seq![registration_obs(i as int, *reg, now)] + Seq::new(
                j as nat,
                |k: int| capability_obs(i as int, k, *reg, now),
            ),
            rel_views(rels@) =~= Seq::new(j as nat, |k: int| capability_rel(*reg, k, now)),
        decreases caps@.len() - j,
    {
        let mut cref = String::from_str("provider-capability:");
        cref.append(reg.provider_id.as_str());
        cref.append(":");
        cref.append(caps[j].capability_id.as_str());
        let ghost before_obs = obs_views(obs@);
        let ghost before_rels = rel_views(rels@);
        let o = BatchObservation {
            resource_type: IndexResourceType::RegisteredCapability,
            native_identity: cref.clone(),
            owner: None,
            freshness: Freshness::Recent,
            observed_at_ms: now,
            metadata: MetadataSource::Capability(i, j),
        };
        assert(o@ == capability_obs(i as int, j as int, *reg, now));
        obs.push(o);
        let rel = BatchRelation {
            from_ref: reg.provider_id.clone(),
            to_ref: cref,
            kind: ProviderRelationKind::ProviderCapability,
            observed_at_ms: now,
        };
        assert(rel@ == capability_rel(*reg, j as int, now));
        rels.push(rel);
        assert(obs_views(obs@) =~= before_obs.push(capability_obs(i as int, j as int, *reg, now)));
        assert(rel_views(rels@) =~= before_rels.push(capability_rel(*reg, j as int, now)));
        j = j + 1;
    }
    (obs, rels)
}

fn resource_observation(k: usize, res: &BatchResource) -> (r: (BatchObservation, BatchRelation))
    ensures
        r.0@ == resource_obs(k as int, *res),
        r.1@ == resource_rel(*res),
{
    let mut rref = String::from_str("provider-resource:");
    rref.append(res.encoded_reference.as_str());
    let o = BatchObservation {
        resource_type: IndexResourceType::ProviderResource,
        native_identity: rref.clone(),
        owner: res.owner,
        freshness: freshness_of_availability(res.availability_state.as_str()),
        observed_at_ms: res.updated_at_ms,
        metadata: MetadataSource::Resource(k),
    };
    let rel = BatchRelation {
        from_ref: res.provider_id.clone(),
        to_ref: rref,
        kind: ProviderRelationKind::ProviderResource,
        observed_at_ms: res.updated_at_ms,
    };
    (o, rel)
}

/// The provider source's report at `now`: the system-wide source `providers`
/// at generation `provider-registry-v1` with the registry's health and reason
/// (attempted now, and succeeded now unless it is unavailable), the
/// observations of the included registrations followed by those of the system
/// resources, and their relations in the same order.
pub fn provider_index_batch(
    registry_health: HealthState,
    registry_reason: SubsystemReason,
    registrations: &Vec<BatchRegistration>,
    resources: &Vec<BatchResource>,
    now: i64,
) -> (r: ProviderBatch)
    ensures
        r.status.source_id@ == "providers"@,
        r.status.source_kind == IndexSourceKind::Providers,
        r.status.owner is None,
        r.status.source_generation@ == "provider-registry-v1"@,
        r.status.health == registry_health,
        r.status.reason == registry_reason,
        r.status.last_attempt_at_ms == now,
        r.status.last_success_at_ms == (if registry_health is Unavailable {
            None
        } else {
            Some(now)
        }),
        obs_views(r.observations@) == registrations_obs(registrations@, registrations@.len() as int, now)
            + resources_obs(resources@, resources@.len() as int),
        rel_views(r.relations@) == registrations_rels(registrations@, registrations@.len() as int, now)
            + resources_rels(resources@, resources@.len() as int),
{
    let mut observations: Vec<BatchObservation> = Vec::new();
    let mut relations: Vec<BatchRelation> = Vec::new();
    let mut i: usize = 0;
    while i < registrations.len()
        invariant
            i <= registrations@.len(),
            obs_views(observations@) =~= registrations_obs(registrations@, i as int, now),
            rel_views(relations@) =~= registrations_rels(registrations@, i as int, now),
        decreases registrations@.len() - i,
    {
        let reg = &registrations[i];
        if reg.detail_visible && str_equal(reg.scope.as_str(), "system") {
            let (mut o, mut rl) = registration_observations(i, reg, now);
            let ghost before_o = obs_views(observations@);
            let ghost before_r = rel_views(relations@);
            let ghost block_o = obs_views(o@);
            let ghost block_r = rel_views(rl@);
            observations.append(&mut o);
            relations.append(&mut rl);
            assert(obs_views(observations@) =~= before_o + block_o);
            assert(rel_views(relations@) =~= before_r + block_r);
        }
        i = i + 1;
    }
    let ghost regs_o = obs_views(observations@);
    let ghost regs_r = rel_views(relations@);
    let mut k: usize = 0;
    while k < resources.len()
        invariant
            k <= resources@.len(),
            regs_o == registrations_obs(registrations@, registrations@.len() as int, now),
            regs_r == registrations_rels(registrations@, registrations@.len() as int, now),
            obs_views(observations@) =~= regs_o + resources_obs(resources@, k as int),
            rel_views(relations@) =~= regs_r + resources_rels(resources@, k as int),
        decreases resources@.len() - k,
    {
        let res = &resources[k];
        if str_equal(res.provider_scope.as_str(), "system") {
            let (o, rl) = resource_observation(k, res);
            let ghost before_o = obs_views(observations@);
            let ghost before_r = rel_views(relations@);
            observations.push(o);
            relations.push(rl);
            assert(obs_views(observations@) =~= before_o.push(resource_obs(k as int, *res)));
            assert(rel_views(relations@) =~= before_r.push(resource_rel(*res)));
        }
        k = k + 1;
    }
    let status = ProviderSourceStatus {
        source_id: String::from_str(PROVIDER_SOURCE_ID),
        source_kind: IndexSourceKind::Providers,
        owner: None,
        source_generation: String::from_str(PROVIDER_SOURCE_GENERATION),
        health: registry_health,
        reason: registry_reason,
        last_attempt_at_ms: now,
        last_success_at_ms: if registry_health != HealthState::Unavailable {
            Some(now)
        } else {
            None
        },
    };
    ProviderBatch {
        status,
        observations,
        relations,
    }
}

} // verus!
