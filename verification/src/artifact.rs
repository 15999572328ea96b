//! Artifact rules: what a registration may declare, who may see an artifact,
//! who may change it, and when its content may be cleaned up.
use vstd::prelude::*;
use vstd::string::StringSliceAdditionalSpecFns;
use vstd::utf8::encode_utf8;
use crate::ids::Principal;
use crate::json::{string_map_json_len, string_map_json_len_capped};
use crate::safety::{key_secret_like, text_secret_like, secret_like_text, safe_metadata_key, metadata_key_ok};
use crate::text::{str_equal, has_line_break, contains_line_break, lower_hex_bytes, check_lower_hex};

verus! {

pub const MAX_ARTIFACT_LIST_PAGE: u16 = 200;
pub const MAX_ARTIFACT_METADATA_FIELDS: usize = 16;
pub const MAX_ARTIFACT_METADATA_JSON_BYTES: usize = 8192;
pub const MAX_ARTIFACT_SHARED_PRINCIPALS: usize = 64;
pub const MAX_ARTIFACT_TEXT_BYTES: usize = 4096;
pub const MAX_ARTIFACT_DISPLAY_BYTES: usize = 256;
pub const MAX_ARTIFACT_MEDIA_BYTES: usize = 128;
pub const MAX_ARTIFACT_HOLDER_REF_BYTES: usize = 512;
pub const MAX_ARTIFACT_METADATA_VALUE_BYTES: usize = 512;

#[derive(Clone, Copy, Debug, PartialEq, Eq, Structural)]
pub enum ArtifactConfidentiality {
    Private,
    Shared,
    Public,
}

#[derive(Clone, Copy, Debug, PartialEq, Eq, Structural)]
pub enum ArtifactRetentionKind {
    Temporary,
    Retained,
    Until,
}

#[derive(Clone, Copy, Debug, PartialEq, Eq, Structural)]
pub enum ArtifactCleanupAuthority {
    Nobody,
    Portus,
    Task,
    Provider,
}

#[derive(Clone, Copy, Debug, PartialEq, Eq, Structural)]
pub enum ArtifactAvailabilityState {
    Available,
    Missing,
    Removed,
    Unavailable,
}

#[derive(Clone, Copy, Debug, PartialEq, Eq, Structural)]
pub enum ArtifactIntegrityKind {
    Verified,
    Mismatch,
    ProviderAuthoritative,
    Unverified,
    NotApplicable,
}

#[derive(Clone, Copy, Debug, PartialEq, Eq, Structural)]
pub enum ArtifactLocatorKind {
    Filesystem,
    ProviderResource,
}

#[derive(Clone, Copy, Debug, PartialEq, Eq, Structural)]
pub enum ArtifactCleanupEligibility {
    Eligible,
    NoCleanupAuthority,
    Retained,
    NotExpired,
    Held,
    ActiveTaskRelationship,
    ContentNotAvailable,
}

/// Decides whether an artifact's content may be cleaned up now. `held` says
/// whether some hold on it is still active, `active_task` whether a related
/// task is still live.
pub open spec fn cleanup_eligibility_spec(
    authority: ArtifactCleanupAuthority,
    retention: ArtifactRetentionKind,
    expires_at_ms: Option<i64>,
    availability: ArtifactAvailabilityState,
    held: bool,
    active_task: bool,
    now_ms: i64,
) -> ArtifactCleanupEligibility {
    if authority is Nobody {
        ArtifactCleanupEligibility::NoCleanupAuthority
    } else if retention is Retained {
        ArtifactCleanupEligibility::Retained
    } else if retention is Until && (expires_at_ms is None || expires_at_ms->0 > now_ms) {
        ArtifactCleanupEligibility::NotExpired
    } else if !(availability is Available) {
        ArtifactCleanupEligibility::ContentNotAvailable
    } else if held {
        ArtifactCleanupEligibility::Held
    } else if active_task {
        ArtifactCleanupEligibility::ActiveTaskRelationship
    } else {
        ArtifactCleanupEligibility::Eligible
    }
}

pub fn cleanup_eligibility(
    authority: ArtifactCleanupAuthority,
    retention: ArtifactRetentionKind,
    expires_at_ms: Option<i64>,
    availability: ArtifactAvailabilityState,
    held: bool,
    active_task: bool,
    now_ms: i64,
) -> (r: ArtifactCleanupEligibility)
    ensures
        r == cleanup_eligibility_spec(
            authority,
            retention,
            expires_at_ms,
            availability,
            held,
            active_task,
            now_ms,
        ),
{
    if authority == ArtifactCleanupAuthority::Nobody {
        return ArtifactCleanupEligibility::NoCleanupAuthority;
    }
    match retention {
        ArtifactRetentionKind::Retained => {
            return ArtifactCleanupEligibility::Retained;
        },
        ArtifactRetentionKind::Until => {
            let not_expired = match expires_at_ms {
                None => true,
                Some(e) => e > now_ms,
            };
            if not_expired {
                return ArtifactCleanupEligibility::NotExpired;
            }
        },
        ArtifactRetentionKind::Temporary => {},
    }
    if availability != ArtifactAvailabilityState::Available {
        return ArtifactCleanupEligibility::ContentNotAvailable;
    }
    if held {
        return ArtifactCleanupEligibility::Held;
    }
    if active_task {
        return ArtifactCleanupEligibility::ActiveTaskRelationship;
    }
    ArtifactCleanupEligibility::Eligible
}

/// Law: content is eligible for cleanup only when some authority may clean it,
/// it is not kept indefinitely, any expiry has passed, it is present, nothing
/// holds it and no live task depends on it.
pub proof fn law_cleanup_requires_every_release(
    authority: ArtifactCleanupAuthority,
    retention: ArtifactRetentionKind,
    expires_at_ms: Option<i64>,
    availability: ArtifactAvailabilityState,
    held: bool,
    active_task: bool,
    now_ms: i64,
)
    ensures
        cleanup_eligibility_spec(authority, retention, expires_at_ms, availability, held, active_task, now_ms)
            == ArtifactCleanupEligibility::Eligible <==> {
            &&& !(authority is Nobody)
            &&& !(retention is Retained)
            &&& (retention is Until ==> expires_at_ms is Some && expires_at_ms->0 <= now_ms)
            &&& availability is Available
            &&& !held
            &&& !active_task
        },
{
}

/// A hold is active while it has no expiry or its expiry is still ahead.
pub open spec fn hold_active(expires_at_ms: Option<i64>, now_ms: i64) -> bool {
    match expires_at_ms {
        None => true,
        Some(e) => e > now_ms,
    }
}

pub fn any_hold_active(holds: &Vec<Option<i64>>, now_ms: i64) -> (r: bool)
    ensures
        r == exists|i: int| 0 <= i < holds@.len() && hold_active(#[trigger] holds@[i], now_ms),
{
    let mut i: usize = 0;
    while i < holds.len()
        invariant
            i <= holds@.len(),
            forall|j: int| 0 <= j < i ==> !hold_active(#[trigger] holds@[j], now_ms),
        decreases holds@.len() - i,
    {
        let active = match holds[i] {
            None => true,
            Some(e) => e > now_ms,
        };
        if active {
            assert(hold_active(holds@[i as int], now_ms));
            return true;
        }
        i = i + 1;
    }
    false
}

/// Who may read an artifact: root, its owner, anyone when it is public, and
/// the principals it was explicitly shared with when it is shared.
pub open spec fn artifact_visible(
    owner: Principal,
    confidentiality: ArtifactConfidentiality,
    grants: Seq<Principal>,
    viewer: Principal,
) -> bool {
    ||| viewer.uid == 0
    ||| owner == viewer
    ||| confidentiality is Public
    ||| (confidentiality is Shared && grants.contains(viewer))
}

pub fn check_artifact_visible(
    owner: Principal,
    confidentiality: ArtifactConfidentiality,
    grants: &Vec<Principal>,
    viewer: Principal,
) -> (r: bool)
    ensures
        r == artifact_visible(owner, confidentiality, grants@, viewer),
{
    if viewer.uid == 0 || owner == viewer || confidentiality == ArtifactConfidentiality::Public {
        return true;
    }
    if confidentiality != ArtifactConfidentiality::Shared {
        return false;
    }
    let mut i: usize = 0;
    while i < grants.len()
        invariant
            confidentiality == ArtifactConfidentiality::Shared,
            i <= grants@.len(),
            forall|j: int| 0 <= j < i ==> grants@[j] != viewer,
        decreases grants@.len() - i,
    {
        if grants[i] == viewer {
            assert(grants@[i as int] == viewer);
            assert(grants@.contains(viewer));
            return true;
        }
        i = i + 1;
    }
    false
}

/// Law: a private artifact is visible only to its owner and root.
pub proof fn law_private_artifacts_stay_private(owner: Principal, grants: Seq<Principal>, viewer: Principal)
    ensures
        artifact_visible(owner, ArtifactConfidentiality::Private, grants, viewer) <==> (viewer.uid
            == 0 || owner == viewer),
{
}

/// Only the owner or root may change an artifact's holds, relationships or
/// registration.
pub open spec fn owner_or_root(owner: Principal, caller: Principal) -> bool {
    caller.uid == 0 || caller == owner
}

pub fn check_owner_or_root(owner: Principal, caller: Principal) -> (r: bool)
    ensures
        r == owner_or_root(owner, caller),
{
    caller.uid == 0 || caller == owner
}

/// A hold's holder reference is 1..=512 bytes without line breaks.
pub open spec fn holder_ref_ok(r: &str) -> bool {
    r.spec_bytes().len() > 0 && r.spec_bytes().len() <= MAX_ARTIFACT_HOLDER_REF_BYTES
        && !has_line_break(r.spec_bytes())
}

pub fn check_holder_ref(r: &str) -> (ok: bool)
    ensures
        ok == holder_ref_ok(r),
{
    let n = r.as_bytes().len();
    n > 0 && n <= MAX_ARTIFACT_HOLDER_REF_BYTES && !contains_line_break(r)
}

/// Why a registration was refused.
#[derive(Clone, Copy, Debug, PartialEq, Eq, Structural)]
pub enum ArtifactProblem {
    NegativeTimestamp,
    UntilNeedsExpiry,
    ExpiryOnlyForUntil,
    GrantsNeedShared,
    TooManyShares,
    DuplicateShare,
    MetadataTooLarge,
    UnsafeMetadata,
    UnsafeReference,
    UnsafeDisplayName,
    InvalidMediaType,
    InvalidSha256,
    ProviderAuthorityOnFilesystem,
    PortusAuthorityOnProviderResource,
    FilesystemNeedsVerifiedDigest,
    NotOwner,
    InvalidHolderRef,
    TaskOwnerMismatch,
    ProviderResourceUnusable,
    NegativeObservationTime,
}

/// The declared fields of an artifact registration that the rules read.
pub struct ArtifactRegistrationSpec {
    pub owner: Principal,
    pub confidentiality: ArtifactConfidentiality,
    pub retention_kind: ArtifactRetentionKind,
    pub expires_at_ms: Option<i64>,
    pub created_at_ms: i64,
    pub registered_at_ms: i64,
    pub shared_with: Vec<Principal>,
    /// Key/value pairs of the safe metadata, in key order.
    pub safe_metadata: Vec<(String, String)>,
    pub project_ref: Option<String>,
    pub cleanup_ref: Option<String>,
    pub safe_display_name: Option<String>,
    pub media_type: Option<String>,
    pub sha256: Option<String>,
    pub size_bytes: Option<u64>,
    pub locator: ArtifactLocatorKind,
    pub cleanup_authority: ArtifactCleanupAuthority,
    pub integrity_kind: ArtifactIntegrityKind,
}

pub open spec fn bytes_of(s: String) -> Seq<u8> {
    encode_utf8(s@)
}

/// Bytes of the safe metadata's JSON encoding, an object of strings.
pub open spec fn metadata_json_len(md: Seq<(String, String)>) -> nat {
    string_map_json_len(md.map_values(|p: (String, String)| (p.0@, p.1@)))
}

pub open spec fn distinct_principals(s: Seq<Principal>) -> bool {
    forall|i: int, j: int| 0 <= i < j < s.len() ==> s[i] != s[j]
}

pub open spec fn metadata_value_ok(v: Seq<u8>) -> bool {
    v.len() <= MAX_ARTIFACT_METADATA_VALUE_BYTES && !has_line_break(v) && !text_secret_like(v)
}

pub open spec fn metadata_entry_ok(k: Seq<u8>, v: Seq<u8>) -> bool {
    k.len() > 0 && k.len() <= 64 && !has_line_break(k) && !key_secret_like(k) && metadata_value_ok(v)
}

pub open spec fn reference_ok(v: Seq<u8>) -> bool {
    v.len() > 0 && v.len() <= MAX_ARTIFACT_TEXT_BYTES && !has_line_break(v) && !text_secret_like(v)
}

pub open spec fn display_ok(v: Seq<u8>) -> bool {
    v.len() > 0 && v.len() <= MAX_ARTIFACT_DISPLAY_BYTES && !has_line_break(v) && !text_secret_like(v)
}

pub open spec fn media_ok(v: Seq<u8>) -> bool {
    v.len() > 0 && v.len() <= MAX_ARTIFACT_MEDIA_BYTES && !has_line_break(v)
}

pub open spec fn sha_ok(v: Seq<u8>) -> bool {
    v.len() == 64 && lower_hex_bytes(v)
}

pub open spec fn opt_ok(v: Option<String>, p: spec_fn(Seq<u8>) -> bool) -> bool {
    match v {
        Some(s) => p(bytes_of(s)),
        None => true,
    }
}

/// The first rule a registration breaks, in the order the rules are checked.
pub open spec fn registration_problem(s: ArtifactRegistrationSpec) -> Option<ArtifactProblem> {
    let md = s.safe_metadata@;
    if s.created_at_ms < 0 || s.registered_at_ms < 0 {
        Some(ArtifactProblem::NegativeTimestamp)
    } else if s.retention_kind is Until && s.expires_at_ms is None {
        Some(ArtifactProblem::UntilNeedsExpiry)
    } else if !(s.retention_kind is Until) && s.expires_at_ms is Some {
        Some(ArtifactProblem::ExpiryOnlyForUntil)
    } else if !(s.confidentiality is Shared) && s.shared_with@.len() > 0 {
        Some(ArtifactProblem::GrantsNeedShared)
    } else if s.shared_with@.len() > MAX_ARTIFACT_SHARED_PRINCIPALS {
        Some(ArtifactProblem::TooManyShares)
    } else if !distinct_principals(s.shared_with@) {
        Some(ArtifactProblem::DuplicateShare)
    } else if md.len() > MAX_ARTIFACT_METADATA_FIELDS || metadata_json_len(md)
        > MAX_ARTIFACT_METADATA_JSON_BYTES {
        Some(ArtifactProblem::MetadataTooLarge)
    } else if exists|i: int|
        0 <= i < md.len() && !metadata_entry_ok(bytes_of((#[trigger] md[i]).0), bytes_of(md[i].1)) {
        Some(ArtifactProblem::UnsafeMetadata)
    } else if !opt_ok(s.project_ref, |v: Seq<u8>| reference_ok(v)) || !opt_ok(
        s.cleanup_ref,
        |v: Seq<u8>| reference_ok(v),
    ) {
        Some(ArtifactProblem::UnsafeReference)
    } else if !opt_ok(s.safe_display_name, |v: Seq<u8>| display_ok(v)) {
        Some(ArtifactProblem::UnsafeDisplayName)
    } else if !opt_ok(s.media_type, |v: Seq<u8>| media_ok(v)) {
        Some(ArtifactProblem::InvalidMediaType)
    } else if !opt_ok(s.sha256, |v: Seq<u8>| sha_ok(v)) {
        Some(ArtifactProblem::InvalidSha256)
    } else if s.locator is Filesystem && s.cleanup_authority is Provider {
        Some(ArtifactProblem::ProviderAuthorityOnFilesystem)
    } else if s.locator is ProviderResource && (s.cleanup_authority is Portus
        || s.cleanup_authority is Task) {
        Some(ArtifactProblem::PortusAuthorityOnProviderResource)
    } else if s.locator is Filesystem && (!(s.integrity_kind is Verified) || s.sha256 is None
        || s.size_bytes is None) {
        Some(ArtifactProblem::FilesystemNeedsVerifiedDigest)
    } else {
        None
    }
}

fn check_reference(v: &Option<String>) -> (r: bool)
    ensures
        r == opt_ok(*v, |b: Seq<u8>| reference_ok(b)),
{
    match v {
        Some(s) => {
            let t = s.as_str();
            let n = t.as_bytes().len();
            n > 0 && n <= MAX_ARTIFACT_TEXT_BYTES && !contains_line_break(t) && !secret_like_text(t)
        },
        None => true,
    }
}

fn check_display(v: &Option<String>) -> (r: bool)
    ensures
        r == opt_ok(*v, |b: Seq<u8>| display_ok(b)),
{
    match v {
        Some(s) => {
            let t = s.as_str();
            let n = t.as_bytes().len();
            n > 0 && n <= MAX_ARTIFACT_DISPLAY_BYTES && !contains_line_break(t) && !secret_like_text(t)
        },
        None => true,
    }
}

fn check_media(v: &Option<String>) -> (r: bool)
    ensures
        r == opt_ok(*v, |b: Seq<u8>| media_ok(b)),
{
    match v {
        Some(s) => {
            let t = s.as_str();
            let n = t.as_bytes().len();
            n > 0 && n <= MAX_ARTIFACT_MEDIA_BYTES && !contains_line_break(t)
        },
        None => true,
    }
}

fn check_sha(v: &Option<String>) -> (r: bool)
    ensures
        r == opt_ok(*v, |b: Seq<u8>| sha_ok(b)),
{
    match v {
        Some(s) => {
            let t = s.as_str();
            t.as_bytes().len() == 64 && check_lower_hex(t)
        },
        None => true,
    }
}

fn check_distinct(s: &Vec<Principal>) -> (r: bool)
    ensures
        r == distinct_principals(s@),
{
    let mut i: usize = 0;
    while i < s.len()
        invariant
            i <= s@.len(),
            forall|a: int, b: int| 0 <= a < i && a < b < s@.len() ==> s@[a] != s@[b],
        decreases s@.len() - i,
    {
        let mut j: usize = i + 1;
        while j < s.len()
            invariant
                i < s@.len(),
                i + 1 <= j <= s@.len(),
                forall|a: int, b: int| 0 <= a < i && a < b < s@.len() ==> s@[a] != s@[b],
                forall|b: int| i < b < j ==> s@[i as int] != s@[b],
            decreases s@.len() - j,
        {
            if s[i] == s[j] {
                return false;
            }
            j = j + 1;
        }
        i = i + 1;
    }
    true
}

fn check_metadata(md: &Vec<(String, String)>) -> (r: bool)
    ensures
        r == forall|i: int|
            0 <= i < md@.len() ==> metadata_entry_ok(bytes_of((#[trigger] md@[i]).0), bytes_of(md@[i].1)),
{
    let mut i: usize = 0;
    while i < md.len()
        invariant
            i <= md@.len(),
            forall|j: int|
                0 <= j < i ==> metadata_entry_ok(bytes_of((#[trigger] md@[j]).0), bytes_of(md@[j].1)),
        decreases md@.len() - i,
    {
        let k = md[i].0.as_str();
        let v = md[i].1.as_str();
        let key_ok = safe_metadata_key(k);
        let value_ok = v.as_bytes().len() <= MAX_ARTIFACT_METADATA_VALUE_BYTES && !contains_line_break(v)
            && !secret_like_text(v);
        if !(key_ok && value_ok) {
            return false;
        }
        i = i + 1;
    }
    true
}

/// Checks a registration against every rule that needs no stored state.
pub fn validate_registration(s: &ArtifactRegistrationSpec) -> (r: Result<(), ArtifactProblem>)
    ensures
        match registration_problem(*s) {
            Some(p) => r == Err::<(), ArtifactProblem>(p),
            None => r is Ok,
        },
{
    if s.created_at_ms < 0 || s.registered_at_ms < 0 {
        return Err(ArtifactProblem::NegativeTimestamp);
    }
    match s.retention_kind {
        ArtifactRetentionKind::Until => if s.expires_at_ms.is_none() {
            return Err(ArtifactProblem::UntilNeedsExpiry);
        },
        _ => if s.expires_at_ms.is_some() {
            return Err(ArtifactProblem::ExpiryOnlyForUntil);
        },
    }
    if s.confidentiality != ArtifactConfidentiality::Shared && s.shared_with.len() > 0 {
        return Err(ArtifactProblem::GrantsNeedShared);
    }
    if s.shared_with.len() > MAX_ARTIFACT_SHARED_PRINCIPALS {
        return Err(ArtifactProblem::TooManyShares);
    }
    if !check_distinct(&s.shared_with) {
        return Err(ArtifactProblem::DuplicateShare);
    }
    if s.safe_metadata.len() > MAX_ARTIFACT_METADATA_FIELDS || string_map_json_len_capped(
        &s.safe_metadata,
        MAX_ARTIFACT_METADATA_JSON_BYTES,
    ) > MAX_ARTIFACT_METADATA_JSON_BYTES {
        return Err(ArtifactProblem::MetadataTooLarge);
    }
    if !check_metadata(&s.safe_metadata) {
        return Err(ArtifactProblem::UnsafeMetadata);
    }
    if !check_reference(&s.project_ref) || !check_reference(&s.cleanup_ref) {
        return Err(ArtifactProblem::UnsafeReference);
    }
    if !check_display(&s.safe_display_name) {
        return Err(ArtifactProblem::UnsafeDisplayName);
    }
    if !check_media(&s.media_type) {
        return Err(ArtifactProblem::InvalidMediaType);
    }
    if !check_sha(&s.sha256) {
        return Err(ArtifactProblem::InvalidSha256);
    }
    if s.locator == ArtifactLocatorKind::Filesystem && s.cleanup_authority
        == ArtifactCleanupAuthority::Provider {
        return Err(ArtifactProblem::ProviderAuthorityOnFilesystem);
    }
    if s.locator == ArtifactLocatorKind::ProviderResource && (s.cleanup_authority
        == ArtifactCleanupAuthority::Portus || s.cleanup_authority == ArtifactCleanupAuthority::Task) {
        return Err(ArtifactProblem::PortusAuthorityOnProviderResource);
    }
    if s.locator == ArtifactLocatorKind::Filesystem && (s.integrity_kind
        != ArtifactIntegrityKind::Verified || s.sha256.is_none() || s.size_bytes.is_none()) {
        return Err(ArtifactProblem::FilesystemNeedsVerifiedDigest);
    }
    Ok(())
}

/// State of a provider resource reference as the provider last reported it.
#[derive(Clone, Copy, Debug, PartialEq, Eq, Structural)]
pub enum ProviderResourceState {
    Available,
    Unavailable,
    Stale,
    Removed,
    Unknown,
}

/// A provider-backed artifact needs an active provider and a registered
/// resource reference that is neither stale nor removed and is unowned or
/// owned by the artifact's owner.
pub open spec fn provider_resource_usable(
    provider_active: bool,
    resource: Option<(Option<Principal>, ProviderResourceState)>,
    owner: Principal,
) -> bool {
    provider_active && match resource {
        Some((o, st)) => !(st is Stale) && !(st is Removed) && match o {
            None => true,
            Some(p) => p == owner,
        },
        None => false,
    }
}

pub fn check_provider_resource(
    provider_active: bool,
    resource: Option<(Option<Principal>, ProviderResourceState)>,
    owner: Principal,
) -> (r: bool)
    ensures
        r == provider_resource_usable(provider_active, resource, owner),
{
    if !provider_active {
        return false;
    }
    match resource {
        Some((o, st)) => {
            if st == ProviderResourceState::Stale || st == ProviderResourceState::Removed {
                return false;
            }
            match o {
                None => true,
                Some(p) => p == owner,
            }
        },
        None => false,
    }
}

/// An artifact may only be related to a task of the same principal.
pub fn check_task_owner(task_owner: Option<Principal>, artifact_owner: Principal) -> (r: Result<
    (),
    ArtifactProblem,
>)
    ensures
        r is Ok <==> task_owner == Some(artifact_owner),
        r is Err ==> r == Err::<(), ArtifactProblem>(ArtifactProblem::TaskOwnerMismatch),
{
    match task_owner {
        Some(t) => if t == artifact_owner {
            Ok(())
        } else {
            Err(ArtifactProblem::TaskOwnerMismatch)
        },
        None => Err(ArtifactProblem::TaskOwnerMismatch),
    }
}

/// Whether a new observation of an artifact changes what is recorded and so
/// is worth a significant event.
pub fn observation_changes(
    old_availability: ArtifactAvailabilityState,
    old_integrity: ArtifactIntegrityKind,
    availability: ArtifactAvailabilityState,
    integrity: ArtifactIntegrityKind,
) -> (r: bool)
    ensures
        r == (old_availability != availability || old_integrity != integrity),
{
    old_availability != availability || old_integrity != integrity
}

/// The availability a provider-backed artifact takes from the availability
/// its resource reference last reported: available and unavailable carry
/// over, a stale, removed or unregistered reference leaves the content
/// missing, and any other report leaves it unavailable.
pub open spec fn provider_reported_availability(reported: Option<Seq<u8>>) -> ArtifactAvailabilityState {
    match reported {
        None => ArtifactAvailabilityState::Missing,
        Some(b) => if b == "available".spec_bytes() {
            ArtifactAvailabilityState::Available
        } else if b == "unavailable".spec_bytes() {
            ArtifactAvailabilityState::Unavailable
        } else if b == "stale".spec_bytes() || b == "removed".spec_bytes() {
            ArtifactAvailabilityState::Missing
        } else {
            ArtifactAvailabilityState::Unavailable
        },
    }
}

pub open spec fn reported_bytes(reported: Option<&str>) -> Option<Seq<u8>> {
    match reported {
        Some(t) => Some(t.spec_bytes()),
        None => None,
    }
}

/// The observation to record when a provider-backed artifact is reconciled:
/// none for an artifact whose content was removed, else the availability its
/// resource reports, with the integrity it already had.
pub open spec fn provider_reconciliation(
    current: ArtifactAvailabilityState,
    integrity: ArtifactIntegrityKind,
    reported: Option<Seq<u8>>,
) -> Option<(ArtifactAvailabilityState, ArtifactIntegrityKind)> {
    if current is Removed {
        None
    } else {
        Some((provider_reported_availability(reported), integrity))
    }
}

pub fn reconcile_provider_artifact(
    current: ArtifactAvailabilityState,
    integrity: ArtifactIntegrityKind,
    reported: Option<&str>,
) -> (r: Option<(ArtifactAvailabilityState, ArtifactIntegrityKind)>)
    ensures
        r == provider_reconciliation(current, integrity, reported_bytes(reported)),
{
    if current == ArtifactAvailabilityState::Removed {
        return None;
    }
    let availability = match reported {
        None => ArtifactAvailabilityState::Missing,
        Some(t) => if str_equal(t, "available") {
            ArtifactAvailabilityState::Available
        } else if str_equal(t, "unavailable") {
            ArtifactAvailabilityState::Unavailable
        } else if str_equal(t, "stale") || str_equal(t, "removed") {
            ArtifactAvailabilityState::Missing
        } else {
            ArtifactAvailabilityState::Unavailable
        },
    };
    Some((availability, integrity))
}

/// Law: reconciling a provider-backed artifact never rewrites its integrity,
/// records nothing for content that was removed, and reports the content
/// available only when its resource does.
pub proof fn law_provider_reconcile_keeps_integrity(
    current: ArtifactAvailabilityState,
    integrity: ArtifactIntegrityKind,
    reported: Option<Seq<u8>>,
)
    ensures
        current is Removed <==> provider_reconciliation(current, integrity, reported) is None,
        provider_reconciliation(current, integrity, reported) matches Some((a, i)) ==> {
            &&& i == integrity
            &&& (a is Available <==> reported == Some("available".spec_bytes()))
        },
{
}

/// What the registered file holds when its cleanup is decided: exactly the
/// registered content (digest and size), nothing (it is already gone), or
/// something else.
#[derive(Clone, Copy, Debug, PartialEq, Eq, Structural)]
pub enum FileContentCheck {
    Matches,
    Missing,
    Differs,
}

/// What a permitted cleanup does.
#[derive(Clone, Copy, Debug, PartialEq, Eq, Structural)]
pub enum CleanupAction {
    /// Delete the file, which holds exactly the registered content, then
    /// record the content as removed.
    DeleteContent,
    /// The file is already gone: only record the content as removed.
    RecordRemoval,
}

/// Why a cleanup request was refused.
#[derive(Clone, Copy, Debug, PartialEq, Eq, Structural)]
pub enum CleanupRefusal {
    /// The caller is neither the owner nor root.
    NotOwner,
    /// The artifact is not eligible for cleanup now.
    Blocked(ArtifactCleanupEligibility),
    /// Provider-backed content is not cleaned up by the runtime.
    Unsupported,
    /// The file no longer holds the registered content, so it is not the
    /// file that was registered and is left alone.
    ExpectedTargetMismatch,
}

pub open spec fn cleanup_decision_spec(
    caller: Principal,
    owner: Principal,
    eligibility: ArtifactCleanupEligibility,
    locator: ArtifactLocatorKind,
    content: FileContentCheck,
) -> Result<CleanupAction, CleanupRefusal> {
    if !owner_or_root(owner, caller) {
        Err(CleanupRefusal::NotOwner)
    } else if !(eligibility is Eligible) {
        Err(CleanupRefusal::Blocked(eligibility))
    } else if locator is ProviderResource {
        Err(CleanupRefusal::Unsupported)
    } else {
        match content {
            FileContentCheck::Matches => Ok(CleanupAction::DeleteContent),
            FileContentCheck::Missing => Ok(CleanupAction::RecordRemoval),
            FileContentCheck::Differs => Err(CleanupRefusal::ExpectedTargetMismatch),
        }
    }
}

/// Whether and how the caller may clean up an artifact's content now: it
/// must own the artifact or be root, the artifact must be eligible, only
/// filesystem content is cleaned up by the runtime, and the file is deleted
/// only while it holds exactly the registered content.
pub fn cleanup_decision(
    caller: Principal,
    owner: Principal,
    eligibility: ArtifactCleanupEligibility,
    locator: ArtifactLocatorKind,
    content: FileContentCheck,
) -> (r: Result<CleanupAction, CleanupRefusal>)
    ensures
        r == cleanup_decision_spec(caller, owner, eligibility, locator, content),
{
    if !check_owner_or_root(owner, caller) {
        Err(CleanupRefusal::NotOwner)
    } else if eligibility != ArtifactCleanupEligibility::Eligible {
        Err(CleanupRefusal::Blocked(eligibility))
    } else if locator == ArtifactLocatorKind::ProviderResource {
        Err(CleanupRefusal::Unsupported)
    } else {
        match content {
            FileContentCheck::Matches => Ok(CleanupAction::DeleteContent),
            FileContentCheck::Missing => Ok(CleanupAction::RecordRemoval),
            FileContentCheck::Differs => Err(CleanupRefusal::ExpectedTargetMismatch),
        }
    }
}

/// Law: a file is deleted only for an eligible filesystem artifact, at the
/// request of its owner or of root, while it holds exactly the registered
/// content; a file with other content is never deleted.
pub proof fn law_cleanup_only_when_owned_and_eligible(
    caller: Principal,
    owner: Principal,
    eligibility: ArtifactCleanupEligibility,
    locator: ArtifactLocatorKind,
    content: FileContentCheck,
)
    ensures
        cleanup_decision_spec(caller, owner, eligibility, locator, content) is Ok ==> {
            &&& owner_or_root(owner, caller)
            &&& eligibility is Eligible
            &&& locator is Filesystem
        },
        cleanup_decision_spec(caller, owner, eligibility, locator, content) == Ok::<
            CleanupAction,
            CleanupRefusal,
        >(CleanupAction::DeleteContent) ==> content is Matches,
        content is Differs ==> cleanup_decision_spec(caller, owner, eligibility, locator, content) is Err,
{
}

#[derive(Clone, Copy, Debug, PartialEq, Eq, Structural)]
pub enum ArtifactType {
    File,
    Report,
    Release,
    DiagnosticBundle,
    Screenshot,
    Archive,
    Other,
}

pub open spec fn artifact_type_from(b: Seq<u8>) -> Option<ArtifactType> {
    if b == "file".spec_bytes() {
        Some(ArtifactType::File)
    } else if b == "report".spec_bytes() {
        Some(ArtifactType::Report)
    } else if b == "release".spec_bytes() {
        Some(ArtifactType::Release)
    } else if b == "diagnostic_bundle".spec_bytes() {
        Some(ArtifactType::DiagnosticBundle)
    } else if b == "screenshot".spec_bytes() {
        Some(ArtifactType::Screenshot)
    } else if b == "archive".spec_bytes() {
        Some(ArtifactType::Archive)
    } else if b == "other".spec_bytes() {
        Some(ArtifactType::Other)
    } else {
        None
    }
}

/// Reads a stored artifact type.
pub fn parse_artifact_type(value: &str) -> (r: Option<ArtifactType>)
    ensures
        r == artifact_type_from(value.spec_bytes()),
{
    if str_equal(value, "file") {
        Some(ArtifactType::File)
    } else if str_equal(value, "report") {
        Some(ArtifactType::Report)
    } else if str_equal(value, "release") {
        Some(ArtifactType::Release)
    } else if str_equal(value, "diagnostic_bundle") {
        Some(ArtifactType::DiagnosticBundle)
    } else if str_equal(value, "screenshot") {
        Some(ArtifactType::Screenshot)
    } else if str_equal(value, "archive") {
        Some(ArtifactType::Archive)
    } else if str_equal(value, "other") {
        Some(ArtifactType::Other)
    } else {
        None
    }
}

pub open spec fn confidentiality_from(b: Seq<u8>) -> Option<ArtifactConfidentiality> {
    if b == "private".spec_bytes() {
        Some(ArtifactConfidentiality::Private)
    } else if b == "shared".spec_bytes() {
        Some(ArtifactConfidentiality::Shared)
    } else if b == "public".spec_bytes() {
        Some(ArtifactConfidentiality::Public)
    } else {
        None
    }
}

/// Reads a stored confidentiality.
pub fn parse_confidentiality(value: &str) -> (r: Option<ArtifactConfidentiality>)
    ensures
        r == confidentiality_from(value.spec_bytes()),
{
    if str_equal(value, "private") {
        Some(ArtifactConfidentiality::Private)
    } else if str_equal(value, "shared") {
        Some(ArtifactConfidentiality::Shared)
    } else if str_equal(value, "public") {
        Some(ArtifactConfidentiality::Public)
    } else {
        None
    }
}

pub open spec fn retention_from(b: Seq<u8>) -> Option<ArtifactRetentionKind> {
    if b == "temporary".spec_bytes() {
        Some(ArtifactRetentionKind::Temporary)
    } else if b == "retained".spec_bytes() {
        Some(ArtifactRetentionKind::Retained)
    } else if b == "until".spec_bytes() {
        Some(ArtifactRetentionKind::Until)
    } else {
        None
    }
}

/// Reads a stored retention kind.
pub fn parse_retention(value: &str) -> (r: Option<ArtifactRetentionKind>)
    ensures
        r == retention_from(value.spec_bytes()),
{
    if str_equal(value, "temporary") {
        Some(ArtifactRetentionKind::Temporary)
    } else if str_equal(value, "retained") {
        Some(ArtifactRetentionKind::Retained)
    } else if str_equal(value, "until") {
        Some(ArtifactRetentionKind::Until)
    } else {
        None
    }
}

pub open spec fn availability_from(b: Seq<u8>) -> Option<ArtifactAvailabilityState> {
    if b == "available".spec_bytes() {
        Some(ArtifactAvailabilityState::Available)
    } else if b == "missing".spec_bytes() {
        Some(ArtifactAvailabilityState::Missing)
    } else if b == "unavailable".spec_bytes() {
        Some(ArtifactAvailabilityState::Unavailable)
    } else if b == "removed".spec_bytes() {
        Some(ArtifactAvailabilityState::Removed)
    } else {
        None
    }
}

/// Reads a stored availability state.
pub fn parse_availability(value: &str) -> (r: Option<ArtifactAvailabilityState>)
    ensures
        r == availability_from(value.spec_bytes()),
{
    if str_equal(value, "available") {
        Some(ArtifactAvailabilityState::Available)
    } else if str_equal(value, "missing") {
        Some(ArtifactAvailabilityState::Missing)
    } else if str_equal(value, "unavailable") {
        Some(ArtifactAvailabilityState::Unavailable)
    } else if str_equal(value, "removed") {
        Some(ArtifactAvailabilityState::Removed)
    } else {
        None
    }
}

pub open spec fn integrity_from(b: Seq<u8>) -> Option<ArtifactIntegrityKind> {
    if b == "verified".spec_bytes() {
        Some(ArtifactIntegrityKind::Verified)
    } else if b == "mismatch".spec_bytes() {
        Some(ArtifactIntegrityKind::Mismatch)
    } else if b == "provider_authoritative".spec_bytes() {
        Some(ArtifactIntegrityKind::ProviderAuthoritative)
    } else if b == "unverified".spec_bytes() {
        Some(ArtifactIntegrityKind::Unverified)
    } else if b == "not_applicable".spec_bytes() {
        Some(ArtifactIntegrityKind::NotApplicable)
    } else {
        None
    }
}

/// Reads a stored integrity kind.
pub fn parse_integrity(value: &str) -> (r: Option<ArtifactIntegrityKind>)
    ensures
        r == integrity_from(value.spec_bytes()),
{
    if str_equal(value, "verified") {
        Some(ArtifactIntegrityKind::Verified)
    } else if str_equal(value, "mismatch") {
        Some(ArtifactIntegrityKind::Mismatch)
    } else if str_equal(value, "provider_authoritative") {
        Some(ArtifactIntegrityKind::ProviderAuthoritative)
    } else if str_equal(value, "unverified") {
        Some(ArtifactIntegrityKind::Unverified)
    } else if str_equal(value, "not_applicable") {
        Some(ArtifactIntegrityKind::NotApplicable)
    } else {
        None
    }
}

pub open spec fn cleanup_authority_from(b: Seq<u8>) -> Option<ArtifactCleanupAuthority> {
    if b == "none".spec_bytes() {
        Some(ArtifactCleanupAuthority::Nobody)
    } else if b == "portus".spec_bytes() {
        Some(ArtifactCleanupAuthority::Portus)
    } else if b == "task".spec_bytes() {
        Some(ArtifactCleanupAuthority::Task)
    } else if b == "provider".spec_bytes() {
        Some(ArtifactCleanupAuthority::Provider)
    } else {
        None
    }
}

/// Reads a stored cleanup authority; `none` is no authority.
pub fn parse_cleanup_authority(value: &str) -> (r: Option<ArtifactCleanupAuthority>)
    ensures
        r == cleanup_authority_from(value.spec_bytes()),
{
    if str_equal(value, "none") {
        Some(ArtifactCleanupAuthority::Nobody)
    } else if str_equal(value, "portus") {
        Some(ArtifactCleanupAuthority::Portus)
    } else if str_equal(value, "task") {
        Some(ArtifactCleanupAuthority::Task)
    } else if str_equal(value, "provider") {
        Some(ArtifactCleanupAuthority::Provider)
    } else {
        None
    }
}

/// Where a stored artifact's content lives.
#[derive(Debug)]
pub enum StoredLocator {
    Filesystem { path: String },
    ProviderResource {
        provider_id: String,
        resource_type: String,
        resource_id: String,
        generation: Option<String>,
    },
}

/// Why a stored artifact row cannot be read back.
#[derive(Clone, Copy, Debug, PartialEq, Eq, Structural)]
pub enum StoredRowProblem {
    UnknownLocatorKind,
    MissingPath,
    MissingProviderId,
    MissingResourceType,
    MissingResourceId,
}

pub open spec fn text_of(s: Option<String>) -> Option<Seq<char>> {
    match s {
        Some(t) => Some(t@),
        None => None,
    }
}

/// The locator a row's columns describe: a filesystem row needs its path; a
/// provider row needs provider, type and id, and an empty generation means
/// none.
pub open spec fn stored_locator_spec(
    kind: Seq<u8>,
    path: Option<Seq<char>>,
    provider_id: Option<Seq<char>>,
    resource_type: Option<Seq<char>>,
    resource_id: Option<Seq<char>>,
    generation: Option<Seq<char>>,
    r: Result<StoredLocator, StoredRowProblem>,
) -> bool {
    if kind == "filesystem".spec_bytes() {
        match path {
            None => r == Err::<StoredLocator, StoredRowProblem>(StoredRowProblem::MissingPath),
            Some(p) => r matches Ok(StoredLocator::Filesystem { path: q }) && q@ == p,
        }
    } else if kind == "provider_resource".spec_bytes() {
        if provider_id is None {
            r == Err::<StoredLocator, StoredRowProblem>(StoredRowProblem::MissingProviderId)
        } else if resource_type is None {
            r == Err::<StoredLocator, StoredRowProblem>(StoredRowProblem::MissingResourceType)
        } else if resource_id is None {
            r == Err::<StoredLocator, StoredRowProblem>(StoredRowProblem::MissingResourceId)
        } else {
            r matches Ok(StoredLocator::ProviderResource { provider_id: p, resource_type: t, resource_id: i, generation: g })
                && p@ == provider_id->0 && t@ == resource_type->0 && i@ == resource_id->0
                && text_of(g) == (match generation {
                Some(x) => if x.len() == 0 {
                    None
                } else {
                    Some(x)
                },
                None => None,
            })
        }
    } else {
        r == Err::<StoredLocator, StoredRowProblem>(StoredRowProblem::UnknownLocatorKind)
    }
}

/// Reads a stored locator back from its columns.
pub fn locator_from_columns(
    kind: &str,
    path: Option<String>,
    provider_id: Option<String>,
    resource_type: Option<String>,
    resource_id: Option<String>,
    generation: Option<String>,
) -> (r: Result<StoredLocator, StoredRowProblem>)
    ensures
        stored_locator_spec(
            kind.spec_bytes(),
            text_of(path),
            text_of(provider_id),
            text_of(resource_type),
            text_of(resource_id),
            text_of(generation),
            r,
        ),
{
    if str_equal(kind, "filesystem") {
        match path {
            None => Err(StoredRowProblem::MissingPath),
            Some(p) => Ok(StoredLocator::Filesystem { path: p }),
        }
    } else if str_equal(kind, "provider_resource") {
        let p = match provider_id {
            None => {
                return Err(StoredRowProblem::MissingProviderId);
            },
            Some(p) => p,
        };
        let t = match resource_type {
            None => {
                return Err(StoredRowProblem::MissingResourceType);
            },
            Some(t) => t,
        };
        let i = match resource_id {
            None => {
                return Err(StoredRowProblem::MissingResourceId);
            },
            Some(i) => i,
        };
        let g = match generation {
            Some(x) => if x.as_str().as_bytes().len() == 0 {
                proof {
                    if x@.len() > 0 {
                        vstd::utf8::encode_utf8_first_scalar(x@);
                    }
                }
                None
            } else {
                proof {
                    if x@.len() == 0 {
                        assert(encode_utf8(x@) =~= Seq::<u8>::empty());
                    }
                }
                Some(x)
            },
            None => None,
        };
        Ok(StoredLocator::ProviderResource { provider_id: p, resource_type: t, resource_id: i, generation: g })
    } else {
        Err(StoredRowProblem::UnknownLocatorKind)
    }
}

/// A stored size is only meaningful when it is not negative.
pub fn size_from_column(value: Option<i64>) -> (r: Option<u64>)
    ensures
        r == (match value {
            Some(v) => if v >= 0 {
                Some(v as u64)
            } else {
                None
            },
            None => None,
        }),
{
    match value {
        Some(v) => if v >= 0 {
            Some(v as u64)
        } else {
            None
        },
        None => None,
    }
}

} // verus!
