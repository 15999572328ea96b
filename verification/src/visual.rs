//! Graphical fallback: the rules a screenshot, pointer or keyboard request must
//! satisfy, and how an index observation becomes a generation-scoped target.
use vstd::prelude::*;
use vstd::string::{StringExecFns, StringSliceAdditionalSpecFns};
use vstd::utf8::encode_utf8;
use crate::artifact::{
    ArtifactCleanupAuthority, ArtifactConfidentiality, ArtifactIntegrityKind, ArtifactRetentionKind,
    ArtifactType,
};
use crate::ids::Principal;
use crate::index::Freshness;
use crate::text::{
    ascii_bytes, blank, check_key_name_bytes, contains_byte, has_byte, has_control_break,
    is_blank, key_name_bytes,
};

verus! {

pub const MAX_TARGET_REF_BYTES: usize = 512;
pub const MAX_GENERATION_BYTES: usize = 512;
pub const MAX_KEY_NAME_BYTES: usize = 64;
pub const MAX_KEY_CHORD_KEYS: usize = 8;
pub const MAX_TEXT_INPUT_BYTES: usize = 4096;
pub const MAX_SCREENSHOT_BYTES: u64 = 67108864;

#[derive(Clone, Copy, Debug, PartialEq, Eq, Structural)]
pub enum VisualOperationKind {
    Capture,
    Pointer,
    Keyboard,
}

pub open spec fn action_name(k: VisualOperationKind) -> Seq<char> {
    match k {
        VisualOperationKind::Capture => "visual.capture"@,
        VisualOperationKind::Pointer => "visual.pointer"@,
        VisualOperationKind::Keyboard => "visual.keyboard"@,
    }
}

impl VisualOperationKind {
    /// The policy action id that governs the operation.
    pub fn action_id(self) -> (r: &'static str)
        ensures
            r@ == action_name(self),
    {
        match self {
            VisualOperationKind::Capture => {
                proof {
                    reveal_strlit("visual.capture");
                }
                "visual.capture"
            },
            VisualOperationKind::Pointer => {
                proof {
                    reveal_strlit("visual.pointer");
                }
                "visual.pointer"
            },
            VisualOperationKind::Keyboard => {
                proof {
                    reveal_strlit("visual.keyboard");
                }
                "visual.keyboard"
            },
        }
    }
}

#[derive(Clone, Copy, Debug, PartialEq, Eq, Structural)]
pub enum GraphicalTargetKind {
    Display,
    Window,
}

#[derive(Clone, Copy, Debug, PartialEq, Eq, Structural)]
pub struct TargetGeometry {
    pub x: i32,
    pub y: i32,
    pub width: u32,
    pub height: u32,
}

#[derive(Clone, Copy, Debug, PartialEq, Eq, Structural)]
pub enum ScreenSensitivity {
    Normal,
    Sensitive,
    Unknown,
}

#[derive(Clone, Copy, Debug, PartialEq, Eq, Structural)]
pub enum FallbackJustification {
    NoStructuredRoute,
    StructuredRouteFailed,
    UserRequestedVisual,
}

#[derive(Clone, Copy, Debug, PartialEq, Eq, Structural)]
pub enum PointerButton {
    Left,
    Middle,
    Right,
}

#[derive(Clone, Copy, Debug, PartialEq, Eq, Structural)]
pub enum PointerAction {
    Move { x: u32, y: u32 },
    ClickAt { x: u32, y: u32, button: PointerButton },
}

#[derive(Debug)]
pub enum KeyboardAction {
    Text(String),
    KeyChord(Vec<String>),
}

/// How a resource can be controlled.
#[derive(Clone, Copy, Debug, PartialEq, Eq, Structural)]
pub enum ControlPathKind {
    RegisteredProvider,
    StructuredApi,
    StructuredCli,
    ApplicationAdapter,
    Accessibility,
    ProcessWindow,
    VisualFallback,
}

#[derive(Clone, Copy, Debug, PartialEq, Eq, Structural)]
pub enum VisualBackendFailure {
    SourceUnavailable,
    TargetUnavailable,
    FocusFailed,
    CaptureFailed,
    PointerFailed,
    KeyboardFailed,
}

#[derive(Clone, Copy, Debug, PartialEq, Eq, Structural)]
pub struct VisualBackendError {
    pub reason: VisualBackendFailure,
}

impl VisualBackendError {
    pub fn new(reason: VisualBackendFailure) -> (r: VisualBackendError)
        ensures
            r.reason == reason,
    {
        VisualBackendError { reason }
    }
}

/// What is wrong with a target.
#[derive(Clone, Copy, Debug, PartialEq, Eq, Structural)]
pub enum TargetProblem {
    NotOwned,
    NotGraphical,
    NoAuthoritativeRef,
    TargetReference,
    SourceGeneration,
    NoVisualFallback,
    NotAWindow,
    NoGeometry,
    EmptyGeometry,
}

/// What is wrong with an input action.
#[derive(Clone, Copy, Debug, PartialEq, Eq, Structural)]
pub enum ActionProblem {
    TextInput,
    KeyCount,
    KeyName,
    OutsideTarget,
    RelativePath,
    MediaType,
    FileUnusable,
}

#[derive(Clone, Copy, Debug, PartialEq, Eq, Structural)]
pub enum VisualError {
    InvalidTarget(TargetProblem),
    InvalidAction(ActionProblem),
    StructuredControlPreferred,
    PermissionDenied,
    ApprovalRequired,
    StaleTarget,
    TargetNotFocused,
    SensitiveTarget,
    Backend(VisualBackendFailure),
    PolicyFailed,
    ArtifactFailed,
    AuditFailed,
    AuditAfterSideEffect,
}

#[derive(Debug)]
pub struct GraphicalTargetExpectation {
    pub kind: GraphicalTargetKind,
    pub target_ref: String,
    pub source_generation: String,
    pub observed_control_paths: Vec<ControlPathKind>,
}

#[derive(Debug)]
pub struct ValidatedGraphicalTarget {
    pub kind: GraphicalTargetKind,
    pub target_ref: String,
    pub source_generation: String,
    pub geometry: Option<TargetGeometry>,
    pub focused: bool,
    pub sensitivity: ScreenSensitivity,
}

#[derive(Clone, Copy, Debug, PartialEq, Eq, Structural)]
pub enum IndexResourceType {
    ApplicationDefinition,
    Process,
    OpenRcService,
    Window,
    Workspace,
    Display,
    ProviderRegistration,
    ProviderResource,
    RegisteredCapability,
    ApplicationInstance,
}

#[derive(Clone, Copy, Debug, PartialEq, Eq, Structural)]
pub enum IndexSourceKind {
    Applications,
    Proc,
    OpenRc,
    X11,
    I3,
    Providers,
    Correlation,
}

/// The fields of an index observation that target promotion reads.
#[derive(Debug)]
pub struct IndexObservation {
    pub resource_type: IndexResourceType,
    pub source_kind: IndexSourceKind,
    pub source_generation: String,
    pub authoritative_ref: Option<String>,
    pub owner: Option<Principal>,
    pub freshness: Freshness,
    pub control_paths: Vec<ControlPathKind>,
}

/// A target reference or generation is non-blank, bounded and free of NUL and
/// line breaks.
pub open spec fn target_text_ok(b: Seq<u8>, c: Seq<char>, max: nat) -> bool {
    !blank(c) && b.len() <= max && !has_control_break(b)
}

pub fn validate_target_text(value: &str) -> (r: Result<(), VisualError>)
    ensures
        r is Ok <==> target_text_ok(value.spec_bytes(), value@, MAX_TARGET_REF_BYTES as nat),
        r is Err ==> r == Err::<(), VisualError>(VisualError::InvalidTarget(TargetProblem::TargetReference)),
{
    if is_blank(value) || value.as_bytes().len() > MAX_TARGET_REF_BYTES
        || crate::text::contains_control_break(value) {
        return Err(VisualError::InvalidTarget(TargetProblem::TargetReference));
    }
    Ok(())
}

pub fn validate_generation(value: &str) -> (r: Result<(), VisualError>)
    ensures
        r is Ok <==> target_text_ok(value.spec_bytes(), value@, MAX_GENERATION_BYTES as nat),
        r is Err ==> r == Err::<(), VisualError>(VisualError::InvalidTarget(TargetProblem::SourceGeneration)),
{
    if is_blank(value) || value.as_bytes().len() > MAX_GENERATION_BYTES
        || crate::text::contains_control_break(value) {
        return Err(VisualError::InvalidTarget(TargetProblem::SourceGeneration));
    }
    Ok(())
}

pub open spec fn keyboard_problem(a: KeyboardAction) -> Option<ActionProblem> {
    match a {
        KeyboardAction::Text(t) => {
            let b = encode_utf8(t@);
            if b.len() == 0 || b.len() > MAX_TEXT_INPUT_BYTES || has_byte(b, 0) {
                Some(ActionProblem::TextInput)
            } else {
                None
            }
        },
        KeyboardAction::KeyChord(keys) => if keys@.len() == 0 || keys@.len() > MAX_KEY_CHORD_KEYS {
            Some(ActionProblem::KeyCount)
        } else if exists|i: int|
            0 <= i < keys@.len() && !key_ok(encode_utf8((#[trigger] keys@[i])@)) {
            Some(ActionProblem::KeyName)
        } else {
            None
        },
    }
}

/// A key name is 1..=64 bytes of ASCII letters, digits and `_ - + .`.
pub open spec fn key_ok(b: Seq<u8>) -> bool {
    b.len() > 0 && b.len() <= MAX_KEY_NAME_BYTES && key_name_bytes(b)
}

pub fn validate_keyboard(action: &KeyboardAction) -> (r: Result<(), VisualError>)
    ensures
        match keyboard_problem(*action) {
            Some(p) => r == Err::<(), VisualError>(VisualError::InvalidAction(p)),
            None => r is Ok,
        },
{
    match action {
        KeyboardAction::Text(value) => {
            let b = value.as_str().as_bytes();
            if b.len() == 0 || b.len() > MAX_TEXT_INPUT_BYTES || contains_byte(b, 0) {
                return Err(VisualError::InvalidAction(ActionProblem::TextInput));
            }
            Ok(())
        },
        KeyboardAction::KeyChord(keys) => {
            if keys.len() == 0 || keys.len() > MAX_KEY_CHORD_KEYS {
                return Err(VisualError::InvalidAction(ActionProblem::KeyCount));
            }
            let mut i: usize = 0;
            while i < keys.len()
                invariant
                    *action == KeyboardAction::KeyChord(*keys),
                    0 < keys@.len() <= MAX_KEY_CHORD_KEYS,
                    i <= keys@.len(),
                    forall|j: int| 0 <= j < i ==> key_ok(encode_utf8((#[trigger] keys@[j])@)),
                decreases keys@.len() - i,
            {
                let k = keys[i].as_str();
                let n = k.as_bytes().len();
                if n == 0 || n > MAX_KEY_NAME_BYTES || !check_key_name_bytes(k) {
                    assert(!key_ok(encode_utf8(keys@[i as int]@)));
                    return Err(VisualError::InvalidAction(ActionProblem::KeyName));
                }
                i = i + 1;
            }
            Ok(())
        },
    }
}

pub open spec fn pointer_coords(a: PointerAction) -> (u32, u32) {
    match a {
        PointerAction::Move { x, y } => (x, y),
        PointerAction::ClickAt { x, y, .. } => (x, y),
    }
}

/// Pointer coordinates are relative to the target and must fall inside its
/// current, non-empty geometry.
pub open spec fn pointer_problem(a: PointerAction, g: Option<TargetGeometry>) -> Option<VisualError> {
    match g {
        None => Some(VisualError::InvalidTarget(TargetProblem::NoGeometry)),
        Some(g) => if g.width == 0 || g.height == 0 {
            Some(VisualError::InvalidTarget(TargetProblem::EmptyGeometry))
        } else if pointer_coords(a).0 >= g.width || pointer_coords(a).1 >= g.height {
            Some(VisualError::InvalidAction(ActionProblem::OutsideTarget))
        } else {
            None
        },
    }
}

pub fn validate_pointer(action: PointerAction, geometry: Option<TargetGeometry>) -> (r: Result<
    (),
    VisualError,
>)
    ensures
        match pointer_problem(action, geometry) {
            Some(e) => r == Err::<(), VisualError>(e),
            None => r is Ok,
        },
{
    let g = match geometry {
        None => {
            return Err(VisualError::InvalidTarget(TargetProblem::NoGeometry));
        },
        Some(g) => g,
    };
    if g.width == 0 || g.height == 0 {
        return Err(VisualError::InvalidTarget(TargetProblem::EmptyGeometry));
    }
    let (x, y) = match action {
        PointerAction::Move { x, y } => (x, y),
        PointerAction::ClickAt { x, y, .. } => (x, y),
    };
    if x >= g.width || y >= g.height {
        return Err(VisualError::InvalidAction(ActionProblem::OutsideTarget));
    }
    Ok(())
}

pub open spec fn is_structured(p: ControlPathKind) -> bool {
    p is RegisteredProvider || p is StructuredApi || p is StructuredCli || p is ApplicationAdapter
        || p is Accessibility
}

pub open spec fn any_structured(paths: Seq<ControlPathKind>) -> bool {
    exists|i: int| 0 <= i < paths.len() && is_structured(#[trigger] paths[i])
}

/// Whether some path offers structured application control.
pub fn has_structured_application_control(paths: &Vec<ControlPathKind>) -> (r: bool)
    ensures
        r == any_structured(paths@),
{
    let mut i: usize = 0;
    while i < paths.len()
        invariant
            i <= paths@.len(),
            forall|j: int| 0 <= j < i ==> !is_structured(#[trigger] paths@[j]),
        decreases paths@.len() - i,
    {
        let p = paths[i];
        if matches!(
            p,
            ControlPathKind::RegisteredProvider | ControlPathKind::StructuredApi
                | ControlPathKind::StructuredCli | ControlPathKind::ApplicationAdapter
                | ControlPathKind::Accessibility
        ) {
            assert(is_structured(paths@[i as int]));
            return true;
        }
        i = i + 1;
    }
    false
}

pub fn contains_path(paths: &Vec<ControlPathKind>, p: ControlPathKind) -> (r: bool)
    ensures
        r == paths@.contains(p),
{
    let mut i: usize = 0;
    while i < paths.len()
        invariant
            i <= paths@.len(),
            forall|j: int| 0 <= j < i ==> paths@[j] != p,
        decreases paths@.len() - i,
    {
        if paths[i] == p {
            assert(paths@[i as int] == p);
            return true;
        }
        i = i + 1;
    }
    false
}

/// The checks every visual request passes before policy is consulted.
pub open spec fn common_problem(
    target: GraphicalTargetExpectation,
    available: Seq<ControlPathKind>,
    justification: FallbackJustification,
) -> Option<VisualError> {
    if !target_text_ok(encode_utf8(target.target_ref@), target.target_ref@, MAX_TARGET_REF_BYTES as nat) {
        Some(VisualError::InvalidTarget(TargetProblem::TargetReference))
    } else if !target_text_ok(
        encode_utf8(target.source_generation@),
        target.source_generation@,
        MAX_GENERATION_BYTES as nat,
    ) {
        Some(VisualError::InvalidTarget(TargetProblem::SourceGeneration))
    } else if justification is NoStructuredRoute && (any_structured(target.observed_control_paths@)
        || any_structured(available)) {
        Some(VisualError::StructuredControlPreferred)
    } else {
        None
    }
}

pub fn validate_common(
    target: &GraphicalTargetExpectation,
    available: &Vec<ControlPathKind>,
    justification: FallbackJustification,
) -> (r: Result<(), VisualError>)
    ensures
        match common_problem(*target, available@, justification) {
            Some(e) => r == Err::<(), VisualError>(e),
            None => r is Ok,
        },
{
    validate_target_text(target.target_ref.as_str())?;
    validate_generation(target.source_generation.as_str())?;
    if justification == FallbackJustification::NoStructuredRoute && (
    has_structured_application_control(&target.observed_control_paths)
        || has_structured_application_control(available)) {
        return Err(VisualError::StructuredControlPreferred);
    }
    Ok(())
}

/// Automated visual operations run only on screens classified as normal.
pub fn require_normal_screen(target: &ValidatedGraphicalTarget) -> (r: Result<(), VisualError>)
    ensures
        r is Ok <==> target.sensitivity is Normal,
        r is Err ==> r == Err::<(), VisualError>(VisualError::SensitiveTarget),
{
    if target.sensitivity == ScreenSensitivity::Normal {
        Ok(())
    } else {
        Err(VisualError::SensitiveTarget)
    }
}

/// The backend's revalidated target still is the expected one: same kind,
/// same reference, same source generation.
pub open spec fn same_target(expected: GraphicalTargetExpectation, current: ValidatedGraphicalTarget) -> bool {
    current.kind == expected.kind && current.target_ref@ == expected.target_ref@
        && current.source_generation@ == expected.source_generation@
}

pub fn check_same_target(expected: &GraphicalTargetExpectation, current: &ValidatedGraphicalTarget) -> (r: bool)
    ensures
        r == same_target(*expected, *current),
{
    current.kind == expected.kind && current.target_ref == expected.target_ref
        && current.source_generation == expected.source_generation
}

/// Promotes an index observation to a visual target expectation.
pub open spec fn expectation_problem(o: IndexObservation, principal: Principal) -> Option<VisualError> {
    if o.owner != Some(principal) {
        Some(VisualError::InvalidTarget(TargetProblem::NotOwned))
    } else if !(o.freshness is Live || o.freshness is Recent) {
        Some(VisualError::StaleTarget)
    } else if !((o.resource_type is Window && o.source_kind is X11) || (o.resource_type is Display
        && o.source_kind is I3)) {
        Some(VisualError::InvalidTarget(TargetProblem::NotGraphical))
    } else if o.authoritative_ref is None {
        Some(VisualError::InvalidTarget(TargetProblem::NoAuthoritativeRef))
    } else if !target_text_ok(
        encode_utf8(o.authoritative_ref->0@),
        o.authoritative_ref->0@,
        MAX_TARGET_REF_BYTES as nat,
    ) {
        Some(VisualError::InvalidTarget(TargetProblem::TargetReference))
    } else if !target_text_ok(
        encode_utf8(o.source_generation@),
        o.source_generation@,
        MAX_GENERATION_BYTES as nat,
    ) {
        Some(VisualError::InvalidTarget(TargetProblem::SourceGeneration))
    } else if o.resource_type is Window && !o.control_paths@.contains(ControlPathKind::VisualFallback) {
        Some(VisualError::InvalidTarget(TargetProblem::NoVisualFallback))
    } else {
        None
    }
}

pub fn expectation_from_index(o: &IndexObservation, principal: Principal) -> (r: Result<
    GraphicalTargetExpectation,
    VisualError,
>)
    ensures
        match expectation_problem(*o, principal) {
            Some(e) => r == Err::<GraphicalTargetExpectation, VisualError>(e),
            None => r matches Ok(t) && t.kind == (if o.resource_type is Window {
                GraphicalTargetKind::Window
            } else {
                GraphicalTargetKind::Display
            }) && t.target_ref == o.authoritative_ref->0 && t.source_generation
                == o.source_generation && t.observed_control_paths@ == o.control_paths@,
        },
{
    if o.owner != Some(principal) {
        return Err(VisualError::InvalidTarget(TargetProblem::NotOwned));
    }
    if !(o.freshness == Freshness::Live || o.freshness == Freshness::Recent) {
        return Err(VisualError::StaleTarget);
    }
    let kind = if o.resource_type == IndexResourceType::Window && o.source_kind == IndexSourceKind::X11 {
        GraphicalTargetKind::Window
    } else if o.resource_type == IndexResourceType::Display && o.source_kind == IndexSourceKind::I3 {
        GraphicalTargetKind::Display
    } else {
        return Err(VisualError::InvalidTarget(TargetProblem::NotGraphical));
    };
    let target_ref = match &o.authoritative_ref {
        None => {
            return Err(VisualError::InvalidTarget(TargetProblem::NoAuthoritativeRef));
        },
        Some(t) => t.clone(),
    };
    validate_target_text(target_ref.as_str())?;
    validate_generation(o.source_generation.as_str())?;
    if kind == GraphicalTargetKind::Window && !contains_path(
        &o.control_paths,
        ControlPathKind::VisualFallback,
    ) {
        return Err(VisualError::InvalidTarget(TargetProblem::NoVisualFallback));
    }
    Ok(
        GraphicalTargetExpectation {
            kind,
            target_ref,
            source_generation: o.source_generation.clone(),
            observed_control_paths: o.control_paths.clone(),
        },
    )
}

/// The policy's answer to a visual request.
#[derive(Clone, Copy, Debug, PartialEq, Eq, Structural)]
pub enum PolicyEffect {
    Allow,
    Prompt,
    Reject,
}

/// Screenshots are accepted as PNG or JPEG files only.
pub open spec fn capture_media_ok(b: Seq<u8>) -> bool {
    b == ascii_bytes("image/png"@) || b == ascii_bytes("image/jpeg"@)
}

pub fn check_capture_media(media_type: &str) -> (r: bool)
    ensures
        r == capture_media_ok(media_type.spec_bytes()),
{
    proof {
        reveal_strlit("image/png");
        reveal_strlit("image/jpeg");
        assert(vstd::string::is_ascii("image/png"));
        assert(vstd::string::is_ascii("image/jpeg"));
        broadcast use vstd::string::is_ascii_spec_bytes;
        assert("image/png".spec_bytes() =~= ascii_bytes("image/png"@));
        assert("image/jpeg".spec_bytes() =~= ascii_bytes("image/jpeg"@));
    }
    crate::text::str_equal(media_type, "image/png") || crate::text::str_equal(media_type, "image/jpeg")
}

/// What the backend returned for a screenshot and what the file system says of
/// the file: its path must be absolute, its type PNG or JPEG, and the file a
/// regular one within the size bound.
pub open spec fn capture_file_problem(
    absolute: bool,
    media: Seq<u8>,
    file: Option<(bool, u64)>,
) -> Option<ActionProblem> {
    if !absolute {
        Some(ActionProblem::RelativePath)
    } else if !capture_media_ok(media) {
        Some(ActionProblem::MediaType)
    } else {
        match file {
            None => Some(ActionProblem::FileUnusable),
            Some((regular, len)) => if !regular || len > MAX_SCREENSHOT_BYTES {
                Some(ActionProblem::FileUnusable)
            } else {
                None
            },
        }
    }
}

/// `file` is `(is_regular_file, length)` from the file's metadata, or `None`
/// when the metadata could not be read.
pub fn validate_capture_file(absolute: bool, media_type: &str, file: Option<(bool, u64)>) -> (r:
    Result<(), VisualError>)
    ensures
        match capture_file_problem(absolute, media_type.spec_bytes(), file) {
            Some(p) => r == Err::<(), VisualError>(VisualError::InvalidAction(p)),
            None => r is Ok,
        },
{
    if !absolute {
        return Err(VisualError::InvalidAction(ActionProblem::RelativePath));
    }
    if !check_capture_media(media_type) {
        return Err(VisualError::InvalidAction(ActionProblem::MediaType));
    }
    match file {
        None => Err(VisualError::InvalidAction(ActionProblem::FileUnusable)),
        Some((regular, len)) => if !regular || len > MAX_SCREENSHOT_BYTES {
            Err(VisualError::InvalidAction(ActionProblem::FileUnusable))
        } else {
            Ok(())
        },
    }
}

/// What the graphical backend reports as the active context.
pub struct ActiveGraphicalContext {
    pub source_generation: String,
    pub display_ref: String,
    pub focused_window_ref: Option<String>,
}

/// A screenshot the backend wrote: where it is and its media type.
pub struct ScreenshotCapture {
    pub path: String,
    pub media_type: String,
}

/// Whether a capture is used once or kept as a temporary artifact of the task.
#[derive(Clone, Copy, Debug, PartialEq, Eq, Structural)]
pub enum CaptureRetention {
    Ephemeral,
    TemporaryArtifact,
}

/// How policy enforces an action.
#[derive(Clone, Copy, Debug, PartialEq, Eq, Structural)]
pub enum PolicyEnforcementClass {
    UserNative,
}

/// One action the visual fallback registers with policy.
pub struct VisualActionDefinition {
    pub id: &'static str,
    pub label: &'static str,
    pub class: PolicyEnforcementClass,
    /// The kind of resource the action is scoped to, if any.
    pub resource_kind: Option<&'static str>,
    pub resource_required: bool,
    pub root_equivalent: bool,
}

/// The actions the visual fallback registers, under the policy version of the
/// policy engine they are registered with.
pub struct VisualActionRegistry {
    pub policy_version: u32,
    pub actions: Vec<VisualActionDefinition>,
}

pub open spec fn action_label(op: VisualOperationKind) -> Seq<char> {
    match op {
        VisualOperationKind::Capture => "Capture graphical screenshot"@,
        VisualOperationKind::Pointer => "Use graphical pointer fallback"@,
        VisualOperationKind::Keyboard => "Use graphical keyboard fallback"@,
    }
}

pub open spec fn operation_at(i: int) -> VisualOperationKind {
    if i == 0 {
        VisualOperationKind::Capture
    } else if i == 1 {
        VisualOperationKind::Pointer
    } else {
        VisualOperationKind::Keyboard
    }
}

/// The three visual actions, in the order capture, pointer, keyboard, under
/// the policy engine's `policy_version`: each a user-native action with its
/// label, scoped to no resource, needing none and not root-equivalent.
pub fn visual_action_registry(policy_version: u32) -> (r: VisualActionRegistry)
    ensures
        r.policy_version == policy_version,
        r.actions@.len() == 3,
        forall|i: int| 0 <= i < 3 ==> {
            let a = #[trigger] r.actions@[i];
            &&& a.id@ == action_name(operation_at(i))
            &&& a.label@ == action_label(operation_at(i))
            &&& a.class == PolicyEnforcementClass::UserNative
            &&& a.resource_kind is None
            &&& !a.resource_required
            &&& !a.root_equivalent
        },
{
    let mut actions: Vec<VisualActionDefinition> = Vec::new();
    actions.push(
        VisualActionDefinition {
            id: VisualOperationKind::Capture.action_id(),
            label: "Capture graphical screenshot",
            class: PolicyEnforcementClass::UserNative,
            resource_kind: None,
            resource_required: false,
            root_equivalent: false,
        },
    );
    actions.push(
        VisualActionDefinition {
            id: VisualOperationKind::Pointer.action_id(),
            label: "Use graphical pointer fallback",
            class: PolicyEnforcementClass::UserNative,
            resource_kind: None,
            resource_required: false,
            root_equivalent: false,
        },
    );
    actions.push(
        VisualActionDefinition {
            id: VisualOperationKind::Keyboard.action_id(),
            label: "Use graphical keyboard fallback",
            class: PolicyEnforcementClass::UserNative,
            resource_kind: None,
            resource_required: false,
            root_equivalent: false,
        },
    );
    VisualActionRegistry { policy_version, actions }
}

/// The artifact a retained screenshot is registered as: a private, temporary
/// screenshot of the caller's file, owned by the task that asked for it, which
/// may clean it up.
pub struct ScreenshotRegistration {
    pub owner: Principal,
    pub path: String,
    pub artifact_type: ArtifactType,
    pub confidentiality: ArtifactConfidentiality,
    pub retention: ArtifactRetentionKind,
    pub media_type: Option<String>,
    pub source_task_id: String,
    pub cleanup_authority: ArtifactCleanupAuthority,
    pub cleanup_ref: Option<String>,
    pub safe_display_name: Option<String>,
    pub integrity_kind: ArtifactIntegrityKind,
    pub sha256: String,
    pub size_bytes: u64,
}

/// What a checked capture registers: nothing when it is used once; a
/// temporary task artifact when it is kept, with the SHA-256 digest (lower
/// hex) and byte size read from the captured file as its verified content.
pub fn screenshot_registration(
    principal: Principal,
    capture: &ScreenshotCapture,
    retention: CaptureRetention,
    task_id: &String,
    sha256: &String,
    size_bytes: u64,
) -> (r: Option<ScreenshotRegistration>)
    ensures
        retention is Ephemeral ==> r is None,
        retention is TemporaryArtifact ==> (r matches Some(g) && {
            &&& g.owner == principal
            &&& g.path@ == capture.path@
            &&& g.artifact_type == ArtifactType::Screenshot
            &&& g.confidentiality == ArtifactConfidentiality::Private
            &&& g.retention == ArtifactRetentionKind::Temporary
            &&& g.media_type matches Some(m) && m@ == capture.media_type@
            &&& g.source_task_id@ == task_id@
            &&& g.cleanup_authority == ArtifactCleanupAuthority::Task
            &&& g.cleanup_ref matches Some(c) && c@ == task_id@
            &&& g.safe_display_name matches Some(n) && n@ == "visual fallback screenshot"@
            &&& g.integrity_kind == ArtifactIntegrityKind::Verified
            &&& g.sha256@ == sha256@
            &&& g.size_bytes == size_bytes
        }),
{
    match retention {
        CaptureRetention::Ephemeral => None,
        CaptureRetention::TemporaryArtifact => Some(
            ScreenshotRegistration {
                owner: principal,
                path: capture.path.clone(),
                artifact_type: ArtifactType::Screenshot,
                confidentiality: ArtifactConfidentiality::Private,
                retention: ArtifactRetentionKind::Temporary,
                media_type: Some(capture.media_type.clone()),
                source_task_id: task_id.clone(),
                cleanup_authority: ArtifactCleanupAuthority::Task,
                cleanup_ref: Some(task_id.clone()),
                safe_display_name: Some(String::from_str("visual fallback screenshot")),
                integrity_kind: ArtifactIntegrityKind::Verified,
                sha256: sha256.clone(),
                size_bytes,
            },
        ),
    }
}

} // verus!
