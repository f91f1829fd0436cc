//! Durable control-plane records of dynamic plugins.

use vstd::prelude::*;

use crate::text::clone_opt;

verus! {

/// Canonical identifier for one dynamic plugin record.
pub type DynamicPluginId = String;

/// Canonical filename for authored Relay plugin manifests.
pub const DYNAMIC_PLUGIN_MANIFEST_FILENAME: &'static str = "relay-plugin.toml";

/// Plugin execution lane.
#[derive(Debug, Clone, Copy, PartialEq, Eq, Hash, Structural)]
pub enum DynamicPluginKind {
    /// Trusted in-process native plugin.
    RustDynamic,
    /// Isolated worker-based plugin runtime.
    Worker,
}

/// Managed runtime identity for worker-based plugins.
#[derive(Debug, Clone, Copy, PartialEq, Eq, Hash, Structural)]
pub enum WorkerRuntime {
    /// Python worker runtime.
    Python,
    /// Rust worker executable runtime.
    Rust,
    /// Generic executable worker runtime.
    Command,
}

/// Relay-enforced capability declared by a dynamic plugin.
#[derive(Debug, Clone, Copy, PartialEq, Eq, Hash, Structural)]
pub enum DynamicPluginCapability {
    /// Trusted in-process native extension capability.
    PluginNative,
    /// Isolated worker-based extension capability.
    PluginWorker,
    /// Typed configuration schema contribution capability.
    ConfigSchema,
}

/// Host policy startup classification for a plugin.
#[derive(Debug, Clone, Copy, PartialEq, Eq, Hash, Structural)]
pub enum DynamicPluginStartupClass {
    /// Failure is tolerated and the host may start in degraded mode.
    Optional,
    /// Failure is startup-fatal under current host policy.
    Required,
}

/// Host attestation policy mode.
#[derive(Debug, Clone, Copy, PartialEq, Eq, Hash, Structural)]
pub enum DynamicPluginAttestationMode {
    /// Integrity verification only.
    IntegrityOnly,
    /// Verify signatures when present but do not require them.
    SignatureIfPresent,
    /// Require trusted signature verification.
    SignatureRequired,
}

/// High-level verification state for one validation axis.
#[derive(Debug, Clone, Copy, PartialEq, Eq, Hash, Structural)]
pub enum DynamicPluginCheckState {
    /// No verification result is currently known.
    Unknown,
    /// Verification passed.
    Valid,
    /// Verification failed.
    Invalid,
}

/// Observed runtime state for a dynamic plugin.
#[derive(Debug, Clone, Copy, PartialEq, Eq, Hash, Structural)]
pub enum DynamicPluginRuntimeState {
    /// Not currently active.
    Stopped,
    /// Activation is in progress.
    Starting,
    /// Currently active.
    Running,
    /// Activation failed or the active runtime crashed.
    Failed,
}

/// Recent failure phase for diagnostics and operator UX.
#[derive(Debug, Clone, Copy, PartialEq, Eq, Hash, Structural)]
pub enum DynamicPluginFailurePhase {
    /// Failure occurred during validation.
    Validation,
    /// Failure occurred during activation or reconciliation.
    Activation,
    /// Failure occurred after activation while running.
    Runtime,
    /// Failure occurred because policy no longer permits realization.
    Policy,
}

impl DynamicPluginKind {
    /// The name that the lane is written as.
    pub open spec fn label(self) -> Seq<char> {
        match self {
            DynamicPluginKind::RustDynamic => "rust_dynamic"@,
            DynamicPluginKind::Worker => "worker"@,
        }
    }

    /// The name that the lane is written as.
    pub fn as_str(&self) -> (r: &'static str)
        ensures
            r@ == self.label(),
    {
        match self {
            DynamicPluginKind::RustDynamic => "rust_dynamic",
            DynamicPluginKind::Worker => "worker",
        }
    }
}

impl WorkerRuntime {
    /// The name that the runtime is written as.
    pub open spec fn label(self) -> Seq<char> {
        match self {
            WorkerRuntime::Python => "python"@,
            WorkerRuntime::Rust => "rust"@,
            WorkerRuntime::Command => "command"@,
        }
    }

    /// The name that the runtime is written as.
    pub fn as_str(&self) -> (r: &'static str)
        ensures
            r@ == self.label(),
    {
        match self {
            WorkerRuntime::Python => "python",
            WorkerRuntime::Rust => "rust",
            WorkerRuntime::Command => "command",
        }
    }
}

impl DynamicPluginCapability {
    /// The name that the capability is written as.
    pub open spec fn label(self) -> Seq<char> {
        match self {
            DynamicPluginCapability::PluginNative => "plugin_native"@,
            DynamicPluginCapability::PluginWorker => "plugin_worker"@,
            DynamicPluginCapability::ConfigSchema => "config_schema"@,
        }
    }

    /// The name that the capability is written as.
    pub fn as_str(&self) -> (r: &'static str)
        ensures
            r@ == self.label(),
    {
        match self {
            DynamicPluginCapability::PluginNative => "plugin_native",
            DynamicPluginCapability::PluginWorker => "plugin_worker",
            DynamicPluginCapability::ConfigSchema => "config_schema",
        }
    }

    /// The name that the capability has in the source.
    pub open spec fn variant_name(self) -> Seq<char> {
        match self {
            DynamicPluginCapability::PluginNative => "PluginNative"@,
            DynamicPluginCapability::PluginWorker => "PluginWorker"@,
            DynamicPluginCapability::ConfigSchema => "ConfigSchema"@,
        }
    }

    /// The name that the capability has in the source.
    pub fn debug_name(&self) -> (r: &'static str)
        ensures
            r@ == self.variant_name(),
    {
        match self {
            DynamicPluginCapability::PluginNative => "PluginNative",
            DynamicPluginCapability::PluginWorker => "PluginWorker",
            DynamicPluginCapability::ConfigSchema => "ConfigSchema",
        }
    }
}

impl DynamicPluginStartupClass {
    /// The name that the class is written as.
    pub open spec fn label(self) -> Seq<char> {
        match self {
            DynamicPluginStartupClass::Optional => "optional"@,
            DynamicPluginStartupClass::Required => "required"@,
        }
    }

    /// The name that the class is written as.
    pub fn as_str(&self) -> (r: &'static str)
        ensures
            r@ == self.label(),
    {
        match self {
            DynamicPluginStartupClass::Optional => "optional",
            DynamicPluginStartupClass::Required => "required",
        }
    }
}

impl DynamicPluginAttestationMode {
    /// The name that the mode is written as.
    pub open spec fn label(self) -> Seq<char> {
        match self {
            DynamicPluginAttestationMode::IntegrityOnly => "integrity_only"@,
            DynamicPluginAttestationMode::SignatureIfPresent => "signature_if_present"@,
            DynamicPluginAttestationMode::SignatureRequired => "signature_required"@,
        }
    }

    /// The name that the mode is written as.
    pub fn as_str(&self) -> (r: &'static str)
        ensures
            r@ == self.label(),
    {
        match self {
            DynamicPluginAttestationMode::IntegrityOnly => "integrity_only",
            DynamicPluginAttestationMode::SignatureIfPresent => "signature_if_present",
            DynamicPluginAttestationMode::SignatureRequired => "signature_required",
        }
    }
}

impl DynamicPluginCheckState {
    /// The name that the state is written as.
    pub open spec fn label(self) -> Seq<char> {
        match self {
            DynamicPluginCheckState::Unknown => "unknown"@,
            DynamicPluginCheckState::Valid => "valid"@,
            DynamicPluginCheckState::Invalid => "invalid"@,
        }
    }

    /// The name that the state is written as.
    pub fn as_str(&self) -> (r: &'static str)
        ensures
            r@ == self.label(),
    {
        match self {
            DynamicPluginCheckState::Unknown => "unknown",
            DynamicPluginCheckState::Valid => "valid",
            DynamicPluginCheckState::Invalid => "invalid",
        }
    }
}

impl DynamicPluginRuntimeState {
    /// The name that the state is written as.
    pub open spec fn label(self) -> Seq<char> {
        match self {
            DynamicPluginRuntimeState::Stopped => "stopped"@,
            DynamicPluginRuntimeState::Starting => "starting"@,
            DynamicPluginRuntimeState::Running => "running"@,
            DynamicPluginRuntimeState::Failed => "failed"@,
        }
    }

    /// The name that the state is written as.
    pub fn as_str(&self) -> (r: &'static str)
        ensures
            r@ == self.label(),
    {
        match self {
            DynamicPluginRuntimeState::Stopped => "stopped",
            DynamicPluginRuntimeState::Starting => "starting",
            DynamicPluginRuntimeState::Running => "running",
            DynamicPluginRuntimeState::Failed => "failed",
        }
    }
}

impl DynamicPluginFailurePhase {
    /// The name that the phase is written as.
    pub open spec fn label(self) -> Seq<char> {
        match self {
            DynamicPluginFailurePhase::Validation => "validation"@,
            DynamicPluginFailurePhase::Activation => "activation"@,
            DynamicPluginFailurePhase::Runtime => "runtime"@,
            DynamicPluginFailurePhase::Policy => "policy"@,
        }
    }

    /// The name that the phase is written as.
    pub fn as_str(&self) -> (r: &'static str)
        ensures
            r@ == self.label(),
    {
        match self {
            DynamicPluginFailurePhase::Validation => "validation",
            DynamicPluginFailurePhase::Activation => "activation",
            DynamicPluginFailurePhase::Runtime => "runtime",
            DynamicPluginFailurePhase::Policy => "policy",
        }
    }
}

/// Stable metadata for one durable plugin record.
#[derive(Debug, PartialEq, Eq)]
pub struct DynamicPluginMetadata {
    /// Canonical plugin identifier.
    pub id: DynamicPluginId,
    /// Optional human-friendly display label.
    pub name: Option<String>,
    /// Optional plugin version mirrored from packaging metadata when desired.
    pub version: Option<String>,
    /// Execution lane used by the plugin.
    pub kind: DynamicPluginKind,
    /// Monotonic desired-state generation.
    pub generation: u64,
    /// Creation timestamp in RFC 3339 form.
    pub created_at: Option<String>,
    /// Last durable record update time in RFC 3339 form.
    pub updated_at: Option<String>,
}

/// Source and resolved artifact facts for a plugin.
#[derive(Debug, PartialEq, Eq)]
pub struct DynamicPluginSource {
    /// Canonical manifest location or reference.
    pub manifest_ref: Option<String>,
    /// Resolved runtime artifact location.
    pub artifact_ref: Option<String>,
    /// Resolved environment location for worker-based plugins.
    pub environment_ref: Option<String>,
    /// Pinned artifact digest.
    pub artifact_digest: Option<String>,
}

/// Desired-state fields owned by user-facing operations.
#[derive(Debug, PartialEq, Eq)]
pub struct DynamicPluginSpec {
    /// Whether the plugin should be present in desired state.
    pub present: bool,
    /// Whether the plugin should be enabled in desired state.
    pub enabled: bool,
    /// Optional config reference controlled by higher-level config surfaces.
    pub config_ref: Option<String>,
}

/// Lane-specific compatibility declarations and resolved compatibility facts.
#[derive(Debug, PartialEq, Eq)]
pub enum DynamicPluginCompatibility {
    /// Native shared-library compatibility contract.
    RustDynamic(DynamicPluginRustCompatibility),
    /// Worker runtime compatibility contract.
    Worker(DynamicPluginWorkerCompatibility),
}

/// Compatibility contract for worker plugins.
#[derive(Debug, PartialEq, Eq)]
pub struct DynamicPluginWorkerCompatibility {
    /// Compatible NeMo Relay version or version range.
    pub relay: String,
    /// Worker protocol version for `worker`.
    pub worker_protocol: String,
}

/// Compatibility contract for native shared libraries.
#[derive(Debug, PartialEq, Eq)]
pub struct DynamicPluginRustCompatibility {
    /// Compatible NeMo Relay version or version range.
    pub relay: String,
    /// Native host API/ABI contract version for `rust_dynamic`.
    pub native_api: String,
}

/// Runtime entry contract for the resolved plugin.
#[derive(Debug, PartialEq, Eq)]
pub enum DynamicPluginLoadContract {
    /// Worker-based plugin registration target.
    Worker(DynamicPluginWorkerLoadContract),
    /// Native shared-library registration target.
    RustDynamic(DynamicPluginRustLoadContract),
}

/// Lane-specific load contract for worker plugins.
#[derive(Debug, PartialEq, Eq)]
pub struct DynamicPluginWorkerLoadContract {
    /// Managed worker runtime identity.
    pub runtime: WorkerRuntime,
    /// Worker entrypoint or registration target.
    pub entrypoint: String,
}

/// Lane-specific load contract for native shared libraries.
#[derive(Debug, PartialEq, Eq)]
pub struct DynamicPluginRustLoadContract {
    /// Native dynamic library path.
    pub library: String,
    /// Native exported registration symbol.
    pub symbol: String,
}

/// One structured recent failure summary.
#[derive(Debug, PartialEq, Eq)]
pub struct DynamicPluginFailure {
    /// Failure phase.
    pub phase: DynamicPluginFailurePhase,
    /// Machine-readable failure code.
    pub code: String,
    /// Human-readable summary.
    pub message: String,
}

/// Decomposed validation results for one plugin record.
#[derive(Debug, PartialEq, Eq)]
pub struct DynamicPluginValidationStatus {
    /// Manifest schema/result state.
    pub manifest: DynamicPluginCheckState,
    /// Relay/native/worker compatibility state.
    pub compatibility: DynamicPluginCheckState,
    /// Artifact integrity state.
    pub integrity: DynamicPluginCheckState,
    /// Environment/runtime readiness state.
    pub environment: DynamicPluginCheckState,
    /// Signature/authenticity state.
    pub authenticity: DynamicPluginCheckState,
    /// Whether the current host policy is satisfied.
    pub policy_satisfied: DynamicPluginCheckState,
    /// Most recent validation time in RFC 3339 form.
    pub checked_at: Option<String>,
    /// Concise operator-facing validation summary.
    pub message: Option<String>,
}

/// Observed runtime state for one plugin record.
#[derive(Debug, PartialEq, Eq)]
pub struct DynamicPluginRuntimeStatus {
    /// Current observed runtime state.
    pub state: DynamicPluginRuntimeState,
    /// Desired-state generation this runtime status reflects.
    pub observed_generation: u64,
    /// Most recent successful start/activation time.
    pub started_at: Option<String>,
    /// Most recent runtime-status refresh time.
    pub updated_at: Option<String>,
    /// Concise operator-facing runtime summary.
    pub message: Option<String>,
}

/// Durable observed state for a plugin record.
#[derive(Debug, PartialEq, Eq)]
pub struct DynamicPluginStatus {
    /// Validation and policy status.
    pub validation: DynamicPluginValidationStatus,
    /// Runtime state observed by the control plane.
    pub runtime: DynamicPluginRuntimeStatus,
    /// Host policy startup classification.
    pub startup_class: Option<DynamicPluginStartupClass>,
    /// Effective attestation mode for this plugin under host policy.
    pub attestation_mode: Option<DynamicPluginAttestationMode>,
    /// Most recent meaningful failure summary.
    pub last_error: Option<DynamicPluginFailure>,
}

/// Durable control-plane record for a dynamic plugin.
#[derive(Debug, PartialEq, Eq)]
pub struct DynamicPluginRecord {
    /// Stable plugin metadata.
    pub metadata: DynamicPluginMetadata,
    /// Source and artifact facts.
    pub source: DynamicPluginSource,
    /// Desired state.
    pub spec: DynamicPluginSpec,
    /// Compatibility declarations and resolved compatibility facts.
    pub compatibility: DynamicPluginCompatibility,
    /// Resolved runtime entry contract.
    pub load: DynamicPluginLoadContract,
    /// Observed state.
    pub status: DynamicPluginStatus,
}

impl Default for DynamicPluginSource {
    fn default() -> (r: Self)
        ensures
            r == (DynamicPluginSource {
                manifest_ref: None,
                artifact_ref: None,
                environment_ref: None,
                artifact_digest: None,
            }),
    {
        DynamicPluginSource {
            manifest_ref: None,
            artifact_ref: None,
            environment_ref: None,
            artifact_digest: None,
        }
    }
}

impl Default for DynamicPluginSpec {
    fn default() -> (r: Self)
        ensures
            r == (DynamicPluginSpec { present: true, enabled: false, config_ref: None }),
    {
        DynamicPluginSpec { present: true, enabled: false, config_ref: None }
    }
}

/// The validation status of a record that nothing is known of.
pub open spec fn unknown_validation() -> DynamicPluginValidationStatus {
    DynamicPluginValidationStatus {
        manifest: DynamicPluginCheckState::Unknown,
        compatibility: DynamicPluginCheckState::Unknown,
        integrity: DynamicPluginCheckState::Unknown,
        environment: DynamicPluginCheckState::Unknown,
        authenticity: DynamicPluginCheckState::Unknown,
        policy_satisfied: DynamicPluginCheckState::Unknown,
        checked_at: None,
        message: None,
    }
}

/// The runtime status of a record that was never started.
pub open spec fn stopped_runtime() -> DynamicPluginRuntimeStatus {
    DynamicPluginRuntimeStatus {
        state: DynamicPluginRuntimeState::Stopped,
        observed_generation: 0,
        started_at: None,
        updated_at: None,
        message: None,
    }
}

impl Default for DynamicPluginValidationStatus {
    fn default() -> (r: Self)
        ensures
            r == unknown_validation(),
    {
        DynamicPluginValidationStatus {
            manifest: DynamicPluginCheckState::Unknown,
            compatibility: DynamicPluginCheckState::Unknown,
            integrity: DynamicPluginCheckState::Unknown,
            environment: DynamicPluginCheckState::Unknown,
            authenticity: DynamicPluginCheckState::Unknown,
            policy_satisfied: DynamicPluginCheckState::Unknown,
            checked_at: None,
            message: None,
        }
    }
}

impl Default for DynamicPluginRuntimeStatus {
    fn default() -> (r: Self)
        ensures
            r == stopped_runtime(),
    {
        DynamicPluginRuntimeStatus {
            state: DynamicPluginRuntimeState::Stopped,
            observed_generation: 0,
            started_at: None,
            updated_at: None,
            message: None,
        }
    }
}

impl Default for DynamicPluginStatus {
    fn default() -> (r: Self)
        ensures
            r == (DynamicPluginStatus {
                validation: unknown_validation(),
                runtime: stopped_runtime(),
                startup_class: None,
                attestation_mode: None,
                last_error: None,
            }),
    {
        DynamicPluginStatus {
            validation: DynamicPluginValidationStatus::default(),
            runtime: DynamicPluginRuntimeStatus::default(),
            startup_class: None,
            attestation_mode: None,
            last_error: None,
        }
    }
}

impl Clone for DynamicPluginMetadata {
    fn clone(&self) -> (r: Self)
        ensures
            r == *self,
    {
        DynamicPluginMetadata {
            id: self.id.clone(),
            name: clone_opt(&self.name),
            version: clone_opt(&self.version),
            kind: self.kind,
            generation: self.generation,
            created_at: clone_opt(&self.created_at),
            updated_at: clone_opt(&self.updated_at),
        }
    }
}

impl Clone for DynamicPluginSource {
    fn clone(&self) -> (r: Self)
        ensures
            r == *self,
    {
        DynamicPluginSource {
            manifest_ref: clone_opt(&self.manifest_ref),
            artifact_ref: clone_opt(&self.artifact_ref),
            environment_ref: clone_opt(&self.environment_ref),
            artifact_digest: clone_opt(&self.artifact_digest),
        }
    }
}

impl Clone for DynamicPluginSpec {
    fn clone(&self) -> (r: Self)
        ensures
            r == *self,
    {
        DynamicPluginSpec {
            present: self.present,
            enabled: self.enabled,
            config_ref: clone_opt(&self.config_ref),
        }
    }
}

impl Clone for DynamicPluginCompatibility {
    fn clone(&self) -> (r: Self)
        ensures
            r == *self,
    {
        match self {
            DynamicPluginCompatibility::RustDynamic(c) => DynamicPluginCompatibility::RustDynamic(
                DynamicPluginRustCompatibility {
                    relay: c.relay.clone(),
                    native_api: c.native_api.clone(),
                },
            ),
            DynamicPluginCompatibility::Worker(c) => DynamicPluginCompatibility::Worker(
                DynamicPluginWorkerCompatibility {
                    relay: c.relay.clone(),
                    worker_protocol: c.worker_protocol.clone(),
                },
            ),
        }
    }
}

impl Clone for DynamicPluginLoadContract {
    fn clone(&self) -> (r: Self)
        ensures
            r == *self,
    {
        match self {
            DynamicPluginLoadContract::Worker(l) => DynamicPluginLoadContract::Worker(
                DynamicPluginWorkerLoadContract {
                    runtime: l.runtime,
                    entrypoint: l.entrypoint.clone(),
                },
            ),
            DynamicPluginLoadContract::RustDynamic(l) => DynamicPluginLoadContract::RustDynamic(
                DynamicPluginRustLoadContract {
                    library: l.library.clone(),
                    symbol: l.symbol.clone(),
                },
            ),
        }
    }
}

impl Clone for DynamicPluginFailure {
    fn clone(&self) -> (r: Self)
        ensures
            r == *self,
    {
        DynamicPluginFailure {
            phase: self.phase,
            code: self.code.clone(),
            message: self.message.clone(),
        }
    }
}

impl Clone for DynamicPluginStatus {
    fn clone(&self) -> (r: Self)
        ensures
            r == *self,
    {
        let v = &self.validation;
        let t = &self.runtime;
        DynamicPluginStatus {
            validation: DynamicPluginValidationStatus {
                manifest: v.manifest,
                compatibility: v.compatibility,
                integrity: v.integrity,
                environment: v.environment,
                authenticity: v.authenticity,
                policy_satisfied: v.policy_satisfied,
                checked_at: clone_opt(&v.checked_at),
                message: clone_opt(&v.message),
            },
            runtime: DynamicPluginRuntimeStatus {
                state: t.state,
                observed_generation: t.observed_generation,
                started_at: clone_opt(&t.started_at),
                updated_at: clone_opt(&t.updated_at),
                message: clone_opt(&t.message),
            },
            startup_class: self.startup_class,
            attestation_mode: self.attestation_mode,
            last_error: match &self.last_error {
                Some(e) => Some(e.clone()),
                None => None,
            },
        }
    }
}

impl Clone for DynamicPluginRecord {
    fn clone(&self) -> (r: Self)
        ensures
            r == *self,
    {
        DynamicPluginRecord {
            metadata: self.metadata.clone(),
            source: self.source.clone(),
            spec: self.spec.clone(),
            compatibility: self.compatibility.clone(),
            load: self.load.clone(),
            status: self.status.clone(),
        }
    }
}

impl DynamicPluginRecord {
    /// Whether the record is tombstoned.
    pub open spec fn tombstoned(self) -> bool {
        !self.spec.present
    }

    /// Returns `true` when the runtime has observed the current desired-state
    /// generation.
    pub fn is_reconciled(&self) -> (r: bool)
        ensures
            r == (self.status.runtime.observed_generation == self.metadata.generation),
    {
        self.status.runtime.observed_generation == self.metadata.generation
    }

    /// Returns `true` when the record is tombstoned.
    pub fn is_tombstoned(&self) -> (r: bool)
        ensures
            r == self.tombstoned(),
    {
        !self.spec.present
    }
}

/// The generation after a desired-state change.
pub open spec fn next_generation(generation: u64) -> u64 {
    if generation < u64::MAX {
        (generation + 1) as u64
    } else {
        generation
    }
}

/// The metadata with creation times filled in.
pub open spec fn stamped(metadata: DynamicPluginMetadata, now: String) -> DynamicPluginMetadata {
    let created = match metadata.created_at {
        Some(t) => Some(t),
        None => Some(now),
    };
    let updated = match metadata.updated_at {
        Some(t) => Some(t),
        None => created,
    };
    DynamicPluginMetadata { created_at: created, updated_at: updated, ..metadata }
}

/// The metadata after a desired-state change at `now`.
pub open spec fn changed(metadata: DynamicPluginMetadata, now: String) -> DynamicPluginMetadata {
    DynamicPluginMetadata {
        generation: next_generation(metadata.generation),
        updated_at: Some(now),
        ..metadata
    }
}

/// Whether the characters of a text from one place up to another are decimal digits.
pub open spec fn digits(text: Seq<char>, from: int, to: int) -> bool {
    forall|i: int| from <= i < to ==> '0' <= #[trigger] text[i] <= '9'
}

/// Whether a text is a time in RFC 3339 form with no offset, whose year takes up `year`
/// characters and whose fraction of a second takes up `fraction`: years after 9999 have a sign,
/// and a fraction is written in thousandths, millionths or billionths.
pub open spec fn is_timestamp_with(text: Seq<char>, year: int, fraction: int) -> bool {
    &&& text.len() == year + 15 + fraction + 6
    &&& (year == 4 && digits(text, 0, 4)) || (6 <= year <= 7 && text[0] == '+' && digits(
        text,
        1,
        year,
    ))
    &&& text[year] == '-' && digits(text, year + 1, year + 3)
    &&& text[year + 3] == '-' && digits(text, year + 4, year + 6)
    &&& text[year + 6] == 'T' && digits(text, year + 7, year + 9)
    &&& text[year + 9] == ':' && digits(text, year + 10, year + 12)
    &&& text[year + 12] == ':' && digits(text, year + 13, year + 15)
    &&& fraction == 0 || ((fraction == 4 || fraction == 7 || fraction == 10) && text[year + 15]
        == '.' && digits(text, year + 16, year + 15 + fraction))
    &&& text.subrange(year + 15 + fraction, text.len() as int) == "+00:00"@
}

/// Whether a text is a time in RFC 3339 form with no offset.
pub open spec fn is_timestamp(text: Seq<char>) -> bool {
    exists|year: int, fraction: int| is_timestamp_with(text, year, fraction)
}

/// Whether a time was noted.
pub open spec fn is_noted(time: Option<String>) -> bool {
    time is Some && is_timestamp(time->0@)
}

/// The current time in RFC 3339 form, from `chrono::Utc::now` and
/// `chrono::DateTime::to_rfc3339`: a date and a time of day with the offset `+00:00`. Which
/// time it is rests on the clock, and nothing is claimed of it. `chrono::Utc::now` takes the
/// clock to show a time after the start of 1970.
#[verifier::external_body]
pub(crate) fn current_timestamp() -> (r: String)
    ensures
        is_timestamp(r@),
{
    chrono::Utc::now().to_rfc3339()
}

/// Fills in the creation times of new metadata.
pub fn stamp_creation_metadata(metadata: &mut DynamicPluginMetadata, now: String)
    ensures
        *final(metadata) == stamped(*old(metadata), now),
{
    if metadata.created_at.is_none() {
        metadata.created_at = Some(now);
    }
    if metadata.updated_at.is_none() {
        metadata.updated_at = clone_opt(&metadata.created_at);
    }
}

/// Marks metadata as updated at `now`.
pub fn touch_metadata(metadata: &mut DynamicPluginMetadata, now: String)
    ensures
        *final(metadata) == (DynamicPluginMetadata { updated_at: Some(now), ..*old(metadata) }),
{
    metadata.updated_at = Some(now);
}

/// Moves a record to the next desired-state generation at `now`.
pub fn bump_generation(record: &mut DynamicPluginRecord, now: String)
    ensures
        *final(record) == (DynamicPluginRecord {
            metadata: changed(old(record).metadata, now),
            ..*old(record)
        }),
{
    record.metadata.generation = if record.metadata.generation < u64::MAX {
        record.metadata.generation + 1
    } else {
        record.metadata.generation
    };
    touch_metadata(&mut record.metadata, now);
}

/// How kinds, runtimes and states are written.
pub proof fn law_labels_name_what_they_stand_for()
    ensures
        DynamicPluginKind::RustDynamic.label() == "rust_dynamic"@,
        DynamicPluginKind::Worker.label() == "worker"@,
        WorkerRuntime::Python.label() == "python"@,
        WorkerRuntime::Rust.label() == "rust"@,
        WorkerRuntime::Command.label() == "command"@,
        DynamicPluginCapability::PluginNative.label() == "plugin_native"@,
        DynamicPluginCapability::PluginWorker.label() == "plugin_worker"@,
        DynamicPluginCapability::ConfigSchema.label() == "config_schema"@,
        DynamicPluginCapability::PluginNative.variant_name() == "PluginNative"@,
        DynamicPluginCapability::PluginWorker.variant_name() == "PluginWorker"@,
        DynamicPluginCapability::ConfigSchema.variant_name() == "ConfigSchema"@,
        DynamicPluginStartupClass::Optional.label() == "optional"@,
        DynamicPluginStartupClass::Required.label() == "required"@,
        DynamicPluginAttestationMode::IntegrityOnly.label() == "integrity_only"@,
        DynamicPluginAttestationMode::SignatureIfPresent.label() == "signature_if_present"@,
        DynamicPluginAttestationMode::SignatureRequired.label() == "signature_required"@,
        DynamicPluginCheckState::Unknown.label() == "unknown"@,
        DynamicPluginCheckState::Valid.label() == "valid"@,
        DynamicPluginCheckState::Invalid.label() == "invalid"@,
        DynamicPluginRuntimeState::Stopped.label() == "stopped"@,
        DynamicPluginRuntimeState::Starting.label() == "starting"@,
        DynamicPluginRuntimeState::Running.label() == "running"@,
        DynamicPluginRuntimeState::Failed.label() == "failed"@,
        DynamicPluginFailurePhase::Validation.label() == "validation"@,
        DynamicPluginFailurePhase::Activation.label() == "activation"@,
        DynamicPluginFailurePhase::Runtime.label() == "runtime"@,
        DynamicPluginFailurePhase::Policy.label() == "policy"@,
        DYNAMIC_PLUGIN_MANIFEST_FILENAME@ == "relay-plugin.toml"@,
{
}

/// A change moves a record to the next generation, short of the last one there is, and notes when
/// it was made; nothing else of its metadata changes.
pub proof fn law_changes_move_the_generation(metadata: DynamicPluginMetadata, now: String)
    ensures
        ({
            let r = changed(metadata, now);
            &&& metadata.generation < u64::MAX ==> r.generation == metadata.generation + 1
            &&& metadata.generation == u64::MAX ==> r.generation == u64::MAX
            &&& r.updated_at == Some(now)
            &&& r.created_at == metadata.created_at
            &&& r.id == metadata.id && r.name == metadata.name && r.version == metadata.version
            &&& r.kind == metadata.kind
        }),
{
}

/// New metadata keeps the times that it has. Else it was created now, and updated when it was
/// created.
pub proof fn law_creation_times_are_filled_in(metadata: DynamicPluginMetadata, now: String)
    ensures
        ({
            let r = stamped(metadata, now);
            &&& metadata.created_at is Some ==> r.created_at == metadata.created_at
            &&& metadata.created_at is None ==> r.created_at == Some(now)
            &&& metadata.updated_at is Some ==> r.updated_at == metadata.updated_at
            &&& metadata.updated_at is None ==> r.updated_at == r.created_at
            &&& r.id == metadata.id && r.name == metadata.name && r.version == metadata.version
            &&& r.kind == metadata.kind && r.generation == metadata.generation
        }),
{
}

/// A record is a tombstone exactly where its plugin is not to be present. Before anything is known
/// of a plugin, nothing of it was checked and it does not run.
pub proof fn law_absent_records_are_tombstones(record: DynamicPluginRecord)
    ensures
        record.tombstoned() <==> !record.spec.present,
        unknown_validation().manifest == DynamicPluginCheckState::Unknown,
        unknown_validation().compatibility == DynamicPluginCheckState::Unknown,
        unknown_validation().integrity == DynamicPluginCheckState::Unknown,
        unknown_validation().environment == DynamicPluginCheckState::Unknown,
        unknown_validation().authenticity == DynamicPluginCheckState::Unknown,
        unknown_validation().policy_satisfied == DynamicPluginCheckState::Unknown,
        unknown_validation().checked_at is None && unknown_validation().message is None,
        stopped_runtime().state == DynamicPluginRuntimeState::Stopped,
        stopped_runtime().observed_generation == 0,
        stopped_runtime().started_at is None && stopped_runtime().updated_at is None,
{
}

/// The parts of a timestamp: a date, a time of day with or without a fraction, and no offset.
pub proof fn law_timestamps_have_their_parts(text: Seq<char>)
    requires
        is_timestamp_with(text, 4, 0),
    ensures
        text.len() == 25,
        text[4] == '-' && text[7] == '-' && text[10] == 'T' && text[13] == ':' && text[16] == ':',
        forall|i: int|
            0 <= i < 4 || 5 <= i < 7 || 8 <= i < 10 || 11 <= i < 13 || 14 <= i < 16 || 17 <= i < 19
                ==> '0' <= #[trigger] text[i] <= '9',
        text.subrange(19, 25) == "+00:00"@,
        is_noted(None) == false,
{
}

} // verus!
