//! Authored `relay-plugin.toml` manifests.

use vstd::prelude::*;

use crate::dynamic::record::{
    current_timestamp, is_noted, DynamicPluginCapability, DynamicPluginCheckState,
    DynamicPluginCompatibility, DynamicPluginId, DynamicPluginKind, DynamicPluginLoadContract,
    DynamicPluginMetadata, DynamicPluginRecord, DynamicPluginRuntimeStatus,
    DynamicPluginRustCompatibility, DynamicPluginRustLoadContract, DynamicPluginSource,
    DynamicPluginSpec, DynamicPluginStatus, DynamicPluginValidationStatus,
    DynamicPluginWorkerCompatibility, DynamicPluginWorkerLoadContract, WorkerRuntime,
};
use crate::error::{self, invalid_config, ErrorView, PluginError, PluginErrorKind};
use crate::paths::{
    bare, beside, in_directory, in_root, join_to_parent, names_something, path_is_absolute,
    placed, plain_name, relative_text,
};
use crate::relay_version::{self, validate_dynamic_plugin_relay_baseline};
use crate::text::{
    self, chars_of, clone_opt, concat2, concat3, concat4, eq_ignore_ascii_case, format_u64, is_blank,
    starts_with, text_eq, trim,
};

verus! {

/// Authored `relay-plugin.toml` manifest.
#[derive(Debug, PartialEq, Eq)]
pub struct DynamicPluginManifest {
    /// Relay plugin manifest schema version.
    pub manifest_version: u32,
    /// Plugin identity and lane declaration.
    pub plugin: DynamicPluginManifestPlugin,
    /// Relay compatibility declarations.
    pub compat: DynamicPluginManifestCompat,
    /// Default desired-state settings.
    pub defaults: DynamicPluginManifestDefaults,
    /// Required capability declarations.
    pub capabilities: DynamicPluginManifestCapabilities,
    /// Optional static configuration schema reference.
    pub config_schema: Option<DynamicPluginManifestConfigSchema>,
    /// Runtime load contract.
    pub load: DynamicPluginManifestLoad,
    /// Optional source-oriented author metadata.
    pub source: Option<DynamicPluginManifestSource>,
    /// Optional integrity/authenticity evidence references.
    pub integrity: Option<DynamicPluginManifestIntegrity>,
    /// Optional human-oriented description.
    pub description: Option<String>,
}

/// Plugin identity block for `relay-plugin.toml`.
#[derive(Debug, PartialEq, Eq)]
pub struct DynamicPluginManifestPlugin {
    /// Stable plugin identifier.
    pub id: DynamicPluginId,
    /// Optional display name.
    pub name: Option<String>,
    /// Optional plugin version.
    pub version: Option<String>,
    /// Execution lane.
    pub kind: DynamicPluginKind,
}

/// Compatibility block for `relay-plugin.toml`.
#[derive(Debug, PartialEq, Eq)]
pub struct DynamicPluginManifestCompat {
    /// Supported Relay version or version range.
    pub relay: Option<String>,
    /// Native plugin contract version.
    pub native_api: Option<String>,
    /// Worker protocol version.
    pub worker_protocol: Option<String>,
}

/// Defaults block for authored manifests.
#[derive(Debug, PartialEq, Eq)]
pub struct DynamicPluginManifestDefaults {
    /// Explicit default desired enabled state.
    pub enabled: bool,
}

/// Capability declarations for authored manifests.
#[derive(Debug, PartialEq, Eq)]
pub struct DynamicPluginManifestCapabilities {
    /// Required capability set.
    pub items: Vec<DynamicPluginCapability>,
}

/// Static configuration schema block for authored manifests.
#[derive(Debug, PartialEq, Eq)]
pub struct DynamicPluginManifestConfigSchema {
    /// Local JSON Schema path, resolved relative to `relay-plugin.toml`.
    pub path: String,
}

/// Load block for authored manifests.
#[derive(Debug, PartialEq, Eq)]
pub enum DynamicPluginManifestLoad {
    /// Worker registration target.
    Worker(DynamicPluginManifestWorkerLoad),
    /// Native shared-library registration target.
    RustDynamic(DynamicPluginManifestRustDynamicLoad),
}

/// Worker lane authored load block.
#[derive(Debug, PartialEq, Eq)]
pub struct DynamicPluginManifestWorkerLoad {
    /// Worker runtime when `kind = "worker"`.
    pub runtime: Option<WorkerRuntime>,
    /// Worker entrypoint.
    pub entrypoint: Option<String>,
}

/// Native shared-library authored load block.
#[derive(Debug, PartialEq, Eq)]
pub struct DynamicPluginManifestRustDynamicLoad {
    /// Native library path.
    pub library: Option<String>,
    /// Native registration symbol.
    pub symbol: Option<String>,
}

/// The load block as it is written, with the fields of both lanes.
#[derive(Debug, PartialEq, Eq)]
pub struct RawDynamicPluginManifestLoad {
    /// Worker runtime.
    pub runtime: Option<WorkerRuntime>,
    /// Worker entrypoint.
    pub entrypoint: Option<String>,
    /// Native library path.
    pub library: Option<String>,
    /// Native registration symbol.
    pub symbol: Option<String>,
}

/// Source block for authored manifests.
#[derive(Debug, PartialEq, Eq)]
pub struct DynamicPluginManifestSource {
    /// Author-facing manifest root or package root.
    pub manifest_root: Option<String>,
    /// Author-facing artifact hint.
    pub artifact: Option<String>,
}

/// Integrity/authenticity evidence block for authored manifests.
#[derive(Debug, PartialEq, Eq)]
pub struct DynamicPluginManifestIntegrity {
    /// Expected artifact digest.
    pub sha256: Option<String>,
    /// Optional signature reference.
    pub signature: Option<String>,
}

/// The error of a load block that names both lanes.
pub open spec fn load_both_message() -> Seq<char> {
    "load must declare either worker fields (runtime, entrypoint) or rust_dynamic fields (library, symbol), not both"@
}

/// The error of a load block that names neither lane.
pub open spec fn load_neither_message() -> Seq<char> {
    "load must declare either worker fields (runtime, entrypoint) or rust_dynamic fields (library, symbol)"@
}

impl RawDynamicPluginManifestLoad {
    /// Whether a worker field is given.
    pub open spec fn has_worker_fields(self) -> bool {
        self.runtime is Some || self.entrypoint is Some
    }

    /// Whether a native field is given.
    pub open spec fn has_native_fields(self) -> bool {
        self.library is Some || self.symbol is Some
    }

    /// The lane that the given fields belong to, or the error text where they
    /// belong to both or to none.
    pub fn into_load(self) -> (r: Result<DynamicPluginManifestLoad, String>)
        ensures
            match r {
                Ok(DynamicPluginManifestLoad::Worker(load)) => self.has_worker_fields()
                    && !self.has_native_fields() && load.runtime == self.runtime && load.entrypoint
                    == self.entrypoint,
                Ok(DynamicPluginManifestLoad::RustDynamic(load)) => !self.has_worker_fields()
                    && self.has_native_fields() && load.library == self.library && load.symbol
                    == self.symbol,
                Err(e) => self.has_worker_fields() == self.has_native_fields() && e@ == (
                if self.has_worker_fields() {
                    load_both_message()
                } else {
                    load_neither_message()
                }),
            },
    {
        let has_worker_fields = self.runtime.is_some() || self.entrypoint.is_some();
        let has_native_fields = self.library.is_some() || self.symbol.is_some();
        match (has_worker_fields, has_native_fields) {
            (true, false) => Ok(
                DynamicPluginManifestLoad::Worker(
                    DynamicPluginManifestWorkerLoad {
                        runtime: self.runtime,
                        entrypoint: self.entrypoint,
                    },
                ),
            ),
            (false, true) => Ok(
                DynamicPluginManifestLoad::RustDynamic(
                    DynamicPluginManifestRustDynamicLoad {
                        library: self.library,
                        symbol: self.symbol,
                    },
                ),
            ),
            (true, true) => Err(
                "load must declare either worker fields (runtime, entrypoint) or rust_dynamic fields (library, symbol), not both".to_owned(),
            ),
            (false, false) => Err(
                "load must declare either worker fields (runtime, entrypoint) or rust_dynamic fields (library, symbol)".to_owned(),
            ),
        }
    }
}

impl DynamicPluginManifestLoad {
    /// The fields that the load block is written with.
    pub fn to_raw(&self) -> (r: RawDynamicPluginManifestLoad)
        ensures
            match *self {
                DynamicPluginManifestLoad::Worker(load) => r == (RawDynamicPluginManifestLoad {
                    runtime: load.runtime,
                    entrypoint: load.entrypoint,
                    library: None,
                    symbol: None,
                }),
                DynamicPluginManifestLoad::RustDynamic(load) => r == (
                RawDynamicPluginManifestLoad {
                    runtime: None,
                    entrypoint: None,
                    library: load.library,
                    symbol: load.symbol,
                }),
            },
    {
        match self {
            DynamicPluginManifestLoad::Worker(load) => RawDynamicPluginManifestLoad {
                runtime: load.runtime,
                entrypoint: clone_opt(&load.entrypoint),
                library: None,
                symbol: None,
            },
            DynamicPluginManifestLoad::RustDynamic(load) => RawDynamicPluginManifestLoad {
                runtime: None,
                entrypoint: None,
                library: clone_opt(&load.library),
                symbol: clone_opt(&load.symbol),
            },
        }
    }
}

/// The problem of an optional text that must not be blank when it is given.
pub open spec fn optional_problem(value: Option<String>, field: Seq<char>) -> Option<ErrorView> {
    match value {
        Some(s) if text::blank(s@) => error::invalid(field + " must not be empty when provided"@),
        _ => None,
    }
}

/// The problem of a text that must be given and not blank.
pub open spec fn required_problem(value: Option<String>, field: Seq<char>) -> Option<ErrorView> {
    match value {
        None => error::invalid(field + " is required"@),
        Some(s) => if text::blank(s@) {
            error::invalid(field + " must not be empty"@)
        } else {
            None
        },
    }
}

/// The first of two problems.
pub open spec fn or_else(first: Option<ErrorView>, second: Option<ErrorView>) -> Option<ErrorView> {
    match first {
        Some(e) => Some(e),
        None => second,
    }
}

/// The problem of a capability that is declared a second time: the first one that
/// repeats an earlier one.
pub open spec fn duplicate_problem(items: Seq<DynamicPluginCapability>) -> Option<ErrorView>
    decreases items.len(),
{
    if items.len() == 0 {
        None
    } else {
        or_else(
            duplicate_problem(items.drop_last()),
            if items.drop_last().contains(items.last()) {
                error::invalid(
                    "capabilities.items contains duplicate capability '"@
                        + items.last().variant_name() + "'"@,
                )
            } else {
                None
            },
        )
    }
}

/// Whether a path is written as a network share.
pub open spec fn unc_path(value: Seq<char>) -> bool {
    text::has_prefix(value, "\\\\"@) || text::has_prefix(value, "//"@)
}

/// Whether `://` stands at a position.
pub open spec fn scheme_end_at(value: Seq<char>, i: int) -> bool {
    0 <= i && i + 3 <= value.len() && value[i] == ':' && value[i + 1] == '/' && value[i + 2] == '/'
}

/// Whether a character is an ASCII letter.
pub open spec fn ascii_letter(c: char) -> bool {
    'a' <= c <= 'z' || 'A' <= c <= 'Z'
}

/// Whether a character may follow the first one of a URI scheme.
pub open spec fn scheme_char(c: char) -> bool {
    ascii_letter(c) || '0' <= c <= '9' || c == '+' || c == '-' || c == '.'
}

/// Whether a text begins with a URI scheme: `file:` in any case, or a scheme name
/// before the first `://`.
pub open spec fn uri_scheme(value: Seq<char>) -> bool {
    ||| value.len() >= 5 && text::same_ignoring_case(value.subrange(0, 5), "file:"@)
    ||| exists|i: int|
        {
            &&& #[trigger] scheme_end_at(value, i)
            &&& forall|j: int| 0 <= j < i ==> !scheme_end_at(value, j)
            &&& i > 0 && ascii_letter(value[0])
            &&& forall|j: int| 1 <= j < i ==> scheme_char(#[trigger] value[j])
        }
}

/// The problem of a declared schema path.
pub open spec fn schema_path_problem(schema: DynamicPluginManifestConfigSchema) -> Option<
    ErrorView,
> {
    or_else(
        required_problem(Some(schema.path), "config_schema.path"@),
        if uri_scheme(schema.path@) || unc_path(schema.path@) {
            error::invalid(
                "config_schema.path must be a local filesystem path, not a URI or network share"@,
            )
        } else {
            None
        },
    )
}

/// The problem between the config schema capability and its section.
pub open spec fn config_schema_problem(
    items: Seq<DynamicPluginCapability>,
    schema: Option<DynamicPluginManifestConfigSchema>,
) -> Option<ErrorView> {
    let declared = items.contains(DynamicPluginCapability::ConfigSchema);
    match schema {
        None => if declared {
            error::invalid(
                "capabilities.items containing config_schema requires a [config_schema] section"@,
            )
        } else {
            None
        },
        Some(s) => if declared {
            schema_path_problem(s)
        } else {
            error::invalid("[config_schema] requires capabilities.items containing config_schema"@)
        },
    }
}

/// The problem between a lane and its declared capabilities.
pub open spec fn capability_problem(
    kind: DynamicPluginKind,
    items: Seq<DynamicPluginCapability>,
) -> Option<ErrorView> {
    let native = items.contains(DynamicPluginCapability::PluginNative);
    let worker = items.contains(DynamicPluginCapability::PluginWorker);
    match kind {
        DynamicPluginKind::RustDynamic => if !native {
            error::invalid(
                "rust_dynamic plugins must declare capabilities.items containing plugin_native"@,
            )
        } else if worker {
            error::invalid("rust_dynamic plugins must not declare plugin_worker"@)
        } else {
            None
        },
        DynamicPluginKind::Worker => if !worker {
            error::invalid(
                "worker plugins must declare capabilities.items containing plugin_worker"@,
            )
        } else if native {
            error::invalid("worker plugins must not declare plugin_native"@)
        } else {
            None
        },
    }
}

/// The problem between a lane and its load block.
pub open spec fn load_problem(kind: DynamicPluginKind, load: DynamicPluginManifestLoad) -> Option<
    ErrorView,
> {
    match (kind, load) {
        (DynamicPluginKind::RustDynamic, DynamicPluginManifestLoad::Worker(_)) => error::invalid(
            "rust_dynamic plugins must not declare load.runtime or load.entrypoint"@,
        ),
        (DynamicPluginKind::Worker, DynamicPluginManifestLoad::RustDynamic(_)) => error::invalid(
            "worker plugins must not declare load.library or load.symbol"@,
        ),
        (DynamicPluginKind::RustDynamic, DynamicPluginManifestLoad::RustDynamic(l)) => or_else(
            required_problem(l.library, "load.library"@),
            required_problem(l.symbol, "load.symbol"@),
        ),
        (DynamicPluginKind::Worker, DynamicPluginManifestLoad::Worker(l)) => or_else(
            required_problem(l.entrypoint, "load.entrypoint"@),
            if l.runtime is None {
                error::invalid("worker plugins must declare load.runtime"@)
            } else {
                None
            },
        ),
    }
}

/// The problem between a lane and its compatibility block.
pub open spec fn compat_problem(
    kind: DynamicPluginKind,
    compat: DynamicPluginManifestCompat,
) -> Option<ErrorView> {
    match kind {
        DynamicPluginKind::RustDynamic => or_else(
            required_problem(compat.native_api, "compat.native_api"@),
            if text::trimmed(compat.native_api->0@) != "1"@ {
                error::invalid("rust_dynamic plugins must declare compat.native_api = \"1\""@)
            } else if compat.worker_protocol is Some {
                error::invalid("rust_dynamic plugins must not declare compat.worker_protocol"@)
            } else {
                None
            },
        ),
        DynamicPluginKind::Worker => or_else(
            required_problem(compat.worker_protocol, "compat.worker_protocol"@),
            if text::trimmed(compat.worker_protocol->0@) != "grpc-v1"@ {
                error::invalid("worker plugins must declare compat.worker_protocol = \"grpc-v1\""@)
            } else if compat.native_api is Some {
                error::invalid("worker plugins must not declare compat.native_api"@)
            } else {
                None
            },
        ),
    }
}

/// The problem of the texts that describe a plugin.
pub open spec fn description_problem(m: DynamicPluginManifest) -> Option<ErrorView> {
    or_else(
        optional_problem(m.plugin.name, "plugin.name"@),
        or_else(
            optional_problem(m.plugin.version, "plugin.version"@),
            or_else(
                optional_problem(m.description, "description"@),
                or_else(
                    optional_problem(m.manifest_root(), "source.manifest_root"@),
                    or_else(
                        optional_problem(m.artifact(), "source.artifact"@),
                        or_else(
                            optional_problem(m.sha256(), "integrity.sha256"@),
                            optional_problem(m.signature(), "integrity.signature"@),
                        ),
                    ),
                ),
            ),
        ),
    )
}

/// The first problem of a manifest.
pub open spec fn manifest_problem(m: DynamicPluginManifest) -> Option<ErrorView> {
    if m.manifest_version != 1 {
        error::invalid(
            "unsupported relay-plugin.toml manifest_version "@ + text::decimal(
                m.manifest_version as nat,
            ) + "; expected 1"@,
        )
    } else if text::blank(m.plugin.id@) {
        error::invalid("plugin.id must not be empty"@)
    } else {
        or_else(
            description_problem(m),
            or_else(
                relay_version::baseline_problem(text::opt_text(m.compat.relay), "dynamic"@),
                if m.capabilities.items@.len() == 0 {
                    error::invalid("capabilities.items must declare at least one capability"@)
                } else {
                    or_else(
                        duplicate_problem(m.capabilities.items@),
                        or_else(
                            config_schema_problem(m.capabilities.items@, m.config_schema),
                            if m.defaults.enabled {
                                error::invalid(
                                    "defaults.enabled=true is not supported for dynamic plugins; plugins are added disabled and require explicit enablement"@,
                                )
                            } else {
                                or_else(
                                    capability_problem(m.plugin.kind, m.capabilities.items@),
                                    or_else(
                                        load_problem(m.plugin.kind, m.load),
                                        compat_problem(m.plugin.kind, m.compat),
                                    ),
                                )
                            },
                        ),
                    )
                },
            ),
        )
    }
}

impl DynamicPluginManifest {
    /// The declared manifest root.
    pub open spec fn manifest_root(self) -> Option<String> {
        match self.source {
            Some(s) => s.manifest_root,
            None => None,
        }
    }

    /// The declared artifact.
    pub open spec fn artifact(self) -> Option<String> {
        match self.source {
            Some(s) => s.artifact,
            None => None,
        }
    }

    /// The declared digest.
    pub open spec fn sha256(self) -> Option<String> {
        match self.integrity {
            Some(s) => s.sha256,
            None => None,
        }
    }

    /// The declared signature.
    pub open spec fn signature(self) -> Option<String> {
        match self.integrity {
            Some(s) => s.signature,
            None => None,
        }
    }
}

/// Checks a text that must be given.
pub fn required_string<'a>(value: &'a Option<String>, field: &str) -> (r: Result<
    &'a str,
    PluginError,
>)
    ensures
        match r {
            Ok(s) => *value is Some && s@ == value->0@,
            Err(e) => *value is None && error::invalid(field@ + " is required"@) == Some(e@),
        },
{
    match value {
        Some(s) => Ok(s.as_str()),
        None => Err(PluginError::InvalidConfig(concat2(field, " is required"))),
    }
}

/// Checks a text that must be given and not blank, and returns it as it stands.
pub fn required_trimmed_string<'a>(value: &'a Option<String>, field: &str) -> (r: Result<
    &'a str,
    PluginError,
>)
    ensures
        error::failure(r) == required_problem(*value, field@),
        r matches Ok(s) ==> *value is Some && s@ == value->0@,
{
    match required_string(value, field) {
        Err(e) => Err(e),
        Ok(s) => if is_blank(s) {
            Err(PluginError::InvalidConfig(concat2(field, " must not be empty")))
        } else {
            Ok(s)
        },
    }
}

/// Checks a text that must not be blank when it is given.
pub fn ensure_optional_string_non_empty(value: &Option<String>, field: &str) -> (r: Result<
    (),
    PluginError,
>)
    ensures
        error::failure(r) == optional_problem(*value, field@),
{
    match value {
        Some(s) => if is_blank(s.as_str()) {
            Err(
                PluginError::InvalidConfig(concat2(field, " must not be empty when provided")),
            )
        } else {
            Ok(())
        },
        None => Ok(()),
    }
}

/// Whether a capability is in a list.
pub fn has_capability(items: &Vec<DynamicPluginCapability>, capability: DynamicPluginCapability)
    -> (r: bool)
    ensures
        r == items@.contains(capability),
{
    let mut i: usize = 0;
    while i < items.len()
        invariant
            i <= items.len(),
            forall|j: int| 0 <= j < i ==> items@[j] != capability,
        decreases items.len() - i,
    {
        if items[i] == capability {
            assert(items@[i as int] == capability);
            return true;
        }
        i += 1;
    }
    false
}

/// Refuses a capability that is declared twice.
pub fn reject_duplicate_capabilities(capabilities: &Vec<DynamicPluginCapability>) -> (r: Result<
    (),
    PluginError,
>)
    ensures
        error::failure(r) == duplicate_problem(capabilities@),
{
    let mut seen: Vec<DynamicPluginCapability> = Vec::new();
    let mut i: usize = 0;
    while i < capabilities.len()
        invariant
            i <= capabilities.len(),
            seen@ == capabilities@.take(i as int),
            duplicate_problem(capabilities@.take(i as int)) is None,
        decreases capabilities.len() - i,
    {
        let capability = capabilities[i];
        let ghost next = capabilities@.take(i + 1);
        assert(next.drop_last() =~= capabilities@.take(i as int));
        if has_capability(&seen, capability) {
            proof {
                lemma_duplicate_found(capabilities@, i + 1);
            }
            return Err(
                PluginError::InvalidConfig(
                    concat3(
                        "capabilities.items contains duplicate capability '",
                        capability.debug_name(),
                        "'",
                    ),
                ),
            );
        }
        seen.push(capability);
        i += 1;
    }
    assert(capabilities@.take(capabilities@.len() as int) =~= capabilities@);
    Ok(())
}

/// A problem among the first items is the problem of the whole list.
proof fn lemma_duplicate_found(items: Seq<DynamicPluginCapability>, n: int)
    requires
        0 <= n <= items.len(),
        duplicate_problem(items.take(n)) is Some,
    ensures
        duplicate_problem(items) == duplicate_problem(items.take(n)),
    decreases items.len(),
{
    if n == items.len() {
        assert(items.take(n) =~= items);
    } else {
        assert(items.drop_last().take(n) =~= items.take(n));
        lemma_duplicate_found(items.drop_last(), n);
    }
}

/// Whether a path is written as a network share.
///
/// A leading `//` can identify a local path on POSIX, but manifests are portable
/// and the same spelling is a network share on Windows, so it is one everywhere.
pub fn is_unc_path(value: &str) -> (r: bool)
    ensures
        r == unc_path(value@),
{
    starts_with(value, "\\\\") || starts_with(value, "//")
}

/// Whether a text begins with a URI scheme.
pub fn has_uri_scheme(value: &str) -> (r: bool)
    ensures
        r == uri_scheme(value@),
{
    let chars = chars_of(value);
    if chars.len() >= 5 {
        let prefix = value.substring_char(0, 5);
        if eq_ignore_ascii_case(prefix, "file:") {
            return true;
        }
    }
    let mut end: usize = 0;
    while end < chars.len()
        invariant_except_break
            end <= chars.len(),
            chars@ == value@,
            forall|j: int| 0 <= j < end ==> !scheme_end_at(value@, j),
        ensures
            end <= chars.len(),
            forall|j: int| 0 <= j < end ==> !scheme_end_at(value@, j),
            end < chars.len() ==> scheme_end_at(value@, end as int),
        decreases chars.len() - end,
    {
        if chars.len() - end >= 3 && chars[end] == ':' && chars[end + 1] == '/' && chars[end + 2]
            == '/' {
            break;
        }
        end += 1;
    }
    if end == chars.len() {
        assert forall|i: int| #[trigger] scheme_end_at(value@, i) implies false by {}
        return false;
    }
    assert forall|i: int|
        #[trigger] scheme_end_at(value@, i) && (forall|j: int|
            0 <= j < i ==> !scheme_end_at(value@, j)) implies i == end by {
        assert(scheme_end_at(value@, end as int));
    }
    if end == 0 || !is_ascii_letter(chars[0]) {
        return false;
    }
    let mut i: usize = 1;
    while i < end
        invariant
            1 <= i <= end < chars.len(),
            chars@ == value@,
            forall|j: int| 1 <= j < i ==> scheme_char(#[trigger] value@[j]),
            forall|i: int|
                #[trigger] scheme_end_at(value@, i) && (forall|j: int|
                    0 <= j < i ==> !scheme_end_at(value@, j)) ==> i == end,
            !(value@.len() >= 5 && text::same_ignoring_case(value@.subrange(0, 5), "file:"@)),
        decreases end - i,
    {
        let c = chars[i];
        if !(is_ascii_letter(c) || ('0' <= c && c <= '9') || c == '+' || c == '-' || c == '.') {
            assert(!scheme_char(value@[i as int]));
            return false;
        }
        i += 1;
    }
    assert(scheme_end_at(value@, end as int));
    true
}

/// Whether a character is an ASCII letter.
fn is_ascii_letter(c: char) -> (r: bool)
    ensures
        r == ascii_letter(c),
{
    ('a' <= c && c <= 'z') || ('A' <= c && c <= 'Z')
}

/// Checks a declared schema path, and returns it as it stands.
pub fn validate_config_schema_path<'a>(config_schema: &'a DynamicPluginManifestConfigSchema) -> (r:
    Result<&'a str, PluginError>)
    ensures
        error::failure(r) == schema_path_problem(*config_schema),
        r matches Ok(s) ==> s@ == config_schema.path@,
{
    let path = config_schema.path.as_str();
    if is_blank(path) {
        return Err(
            PluginError::InvalidConfig(concat2("config_schema.path", " must not be empty")),
        );
    }
    if has_uri_scheme(path) || is_unc_path(path) {
        return Err(
            invalid_config(
                "config_schema.path must be a local filesystem path, not a URI or network share",
            ),
        );
    }
    Ok(path)
}

/// Checks that the config schema capability and its section come together.
pub fn validate_config_schema_contract(
    capabilities: &Vec<DynamicPluginCapability>,
    config_schema: &Option<DynamicPluginManifestConfigSchema>,
) -> (r: Result<(), PluginError>)
    ensures
        error::failure(r) == config_schema_problem(capabilities@, *config_schema),
{
    let declared = has_capability(capabilities, DynamicPluginCapability::ConfigSchema);
    match config_schema {
        None => if declared {
            Err(
                invalid_config(
                    "capabilities.items containing config_schema requires a [config_schema] section",
                ),
            )
        } else {
            Ok(())
        },
        Some(schema) => if declared {
            match validate_config_schema_path(schema) {
                Ok(_) => Ok(()),
                Err(e) => Err(e),
            }
        } else {
            Err(
                invalid_config(
                    "[config_schema] requires capabilities.items containing config_schema",
                ),
            )
        },
    }
}

/// Checks a lane against its declared capabilities.
pub fn validate_capability_shape(
    kind: DynamicPluginKind,
    capabilities: &Vec<DynamicPluginCapability>,
) -> (r: Result<(), PluginError>)
    ensures
        error::failure(r) == capability_problem(kind, capabilities@),
{
    let has_native = has_capability(capabilities, DynamicPluginCapability::PluginNative);
    let has_worker = has_capability(capabilities, DynamicPluginCapability::PluginWorker);
    match kind {
        DynamicPluginKind::RustDynamic => {
            if !has_native {
                return Err(
                    invalid_config(
                        "rust_dynamic plugins must declare capabilities.items containing plugin_native",
                    ),
                );
            }
            if has_worker {
                return Err(
                    invalid_config("rust_dynamic plugins must not declare plugin_worker"),
                );
            }
        },
        DynamicPluginKind::Worker => {
            if !has_worker {
                return Err(
                    invalid_config(
                        "worker plugins must declare capabilities.items containing plugin_worker",
                    ),
                );
            }
            if has_native {
                return Err(invalid_config("worker plugins must not declare plugin_native"));
            }
        },
    }
    Ok(())
}

/// Checks a lane against its load block.
pub fn validate_load_shape(kind: DynamicPluginKind, load: &DynamicPluginManifestLoad) -> (r: Result<
    (),
    PluginError,
>)
    ensures
        error::failure(r) == load_problem(kind, *load),
{
    match (kind, load) {
        (DynamicPluginKind::RustDynamic, DynamicPluginManifestLoad::Worker(_)) => Err(
            invalid_config("rust_dynamic plugins must not declare load.runtime or load.entrypoint"),
        ),
        (DynamicPluginKind::Worker, DynamicPluginManifestLoad::RustDynamic(_)) => Err(
            invalid_config("worker plugins must not declare load.library or load.symbol"),
        ),
        (DynamicPluginKind::RustDynamic, DynamicPluginManifestLoad::RustDynamic(l)) => {
            match required_trimmed_string(&l.library, "load.library") {
                Err(e) => return Err(e),
                Ok(_) => {},
            }
            match required_trimmed_string(&l.symbol, "load.symbol") {
                Err(e) => Err(e),
                Ok(_) => Ok(()),
            }
        },
        (DynamicPluginKind::Worker, DynamicPluginManifestLoad::Worker(l)) => {
            match required_trimmed_string(&l.entrypoint, "load.entrypoint") {
                Err(e) => return Err(e),
                Ok(_) => {},
            }
            match l.runtime {
                Some(_) => Ok(()),
                None => Err(invalid_config("worker plugins must declare load.runtime")),
            }
        },
    }
}

/// Checks a lane against its compatibility block.
pub fn validate_compat_shape(kind: DynamicPluginKind, compat: &DynamicPluginManifestCompat) -> (r:
    Result<(), PluginError>)
    ensures
        error::failure(r) == compat_problem(kind, *compat),
{
    match kind {
        DynamicPluginKind::RustDynamic => match required_trimmed_string(
            &compat.native_api,
            "compat.native_api",
        ) {
            Err(e) => Err(e),
            Ok(native_api) => {
                if !text_eq(trim(native_api), "1") {
                    return Err(
                        invalid_config(
                            "rust_dynamic plugins must declare compat.native_api = \"1\"",
                        ),
                    );
                }
                if compat.worker_protocol.is_some() {
                    return Err(
                        invalid_config(
                            "rust_dynamic plugins must not declare compat.worker_protocol",
                        ),
                    );
                }
                Ok(())
            },
        },
        DynamicPluginKind::Worker => match required_trimmed_string(
            &compat.worker_protocol,
            "compat.worker_protocol",
        ) {
            Err(e) => Err(e),
            Ok(worker_protocol) => {
                if !text_eq(trim(worker_protocol), "grpc-v1") {
                    return Err(
                        invalid_config(
                            "worker plugins must declare compat.worker_protocol = \"grpc-v1\"",
                        ),
                    );
                }
                if compat.native_api.is_some() {
                    return Err(
                        invalid_config("worker plugins must not declare compat.native_api"),
                    );
                }
                Ok(())
            },
        },
    }
}

/// The record's load contract for a validated load block.
pub open spec fn record_load(load: DynamicPluginManifestLoad) -> crate::dynamic::registry::LoadView {
    match load {
        DynamicPluginManifestLoad::Worker(l) => crate::dynamic::registry::LoadView::Worker(
            l.runtime->0,
            text::trimmed(l.entrypoint->0@),
        ),
        DynamicPluginManifestLoad::RustDynamic(
            l,
        ) => crate::dynamic::registry::LoadView::RustDynamic(
            text::trimmed(l.library->0@),
            text::trimmed(l.symbol->0@),
        ),
    }
}

/// The record's compatibility contract for a validated compatibility block.
pub open spec fn record_compatibility(
    kind: DynamicPluginKind,
    compat: DynamicPluginManifestCompat,
) -> crate::dynamic::registry::CompatibilityView {
    match kind {
        DynamicPluginKind::RustDynamic => crate::dynamic::registry::CompatibilityView::RustDynamic(
            text::trimmed(compat.relay->0@),
            text::trimmed(compat.native_api->0@),
        ),
        DynamicPluginKind::Worker => crate::dynamic::registry::CompatibilityView::Worker(
            text::trimmed(compat.relay->0@),
            text::trimmed(compat.worker_protocol->0@),
        ),
    }
}

/// Whether `status` is that of a manifest validated at `now`.
pub open spec fn validated_status(status: DynamicPluginValidationStatus, now: Option<String>)
    -> bool {
    &&& status == (DynamicPluginValidationStatus {
        manifest: DynamicPluginCheckState::Valid,
        checked_at: now,
        message: status.message,
        ..crate::dynamic::record::unknown_validation()
    })
    &&& status.message matches Some(m) && m@ == "manifest validated"@
}

/// Whether `record` is the durable record of a manifest validated at `now`.
pub open spec fn recorded(
    record: DynamicPluginRecord,
    m: DynamicPluginManifest,
    manifest_ref: Option<String>,
    now: Option<String>,
) -> bool {
    &&& record.metadata.id@ == text::trimmed(m.plugin.id@)
    &&& record.metadata == (DynamicPluginMetadata {
        id: record.metadata.id,
        name: m.plugin.name,
        version: m.plugin.version,
        kind: m.plugin.kind,
        generation: 0,
        created_at: None,
        updated_at: None,
    })
    &&& record.source == (DynamicPluginSource {
        manifest_ref,
        artifact_ref: m.artifact(),
        environment_ref: None,
        artifact_digest: m.sha256(),
    })
    &&& record.spec == (DynamicPluginSpec { present: true, enabled: false, config_ref: None })
    &&& record.compatibility@ == record_compatibility(m.plugin.kind, m.compat)
    &&& record.load@ == record_load(m.load)
    &&& validated_status(record.status.validation, now)
    &&& record.status == (DynamicPluginStatus {
        validation: record.status.validation,
        runtime: crate::dynamic::record::stopped_runtime(),
        startup_class: None,
        attestation_mode: None,
        last_error: None,
    })
}

/// Where a declared schema lies: an absolute path where it says, any other below
/// the manifest's directory, `joined` being the path joined to that.
pub fn config_schema_location(
    schema_path: &str,
    is_absolute: bool,
    joined: Option<String>,
    manifest_path: &str,
) -> (r: Result<String, PluginError>)
    ensures
        match r {
            Ok(path) => if is_absolute {
                path@ == schema_path@
            } else {
                joined is Some && path@ == joined->0@
            },
            Err(e) => !is_absolute && joined is None && Some(e@) == error::invalid(
                no_parent_message(manifest_path@),
            ),
        },
{
    if is_absolute {
        return Ok(schema_path.to_owned());
    }
    match joined {
        Some(path) => Ok(path),
        None => Err(
            PluginError::InvalidConfig(
                concat3(
                    "dynamic plugin manifest path '",
                    manifest_path,
                    "' has no parent directory",
                ),
            ),
        ),
    }
}

/// The error text for a manifest that lies in no directory.
pub open spec fn no_parent_message(manifest_path: Seq<char>) -> Seq<char> {
    "dynamic plugin manifest path '"@ + manifest_path + "' has no parent directory"@
}

/// Whether a path is where a schema that a manifest declares lies: where the declaration says,
/// or there below the manifest's directory, which is the only choice for a relative path.
pub open spec fn schema_resolved(manifest_path: Seq<char>, schema: Seq<char>, r: Seq<char>) -> bool {
    &&& r == schema || beside(manifest_path, schema, r)
    &&& relative_text(schema) ==> beside(manifest_path, schema, r)
    &&& placed(manifest_path, schema, r)
}

/// Whether a manifest path lies in some directory on every platform.
pub open spec fn has_directory(manifest_path: Seq<char>) -> bool {
    ||| plain_name(manifest_path)
    ||| bare(manifest_path) && names_something(manifest_path)
    ||| exists|dir: Seq<char>, name: Seq<char>| in_directory(manifest_path, dir, name)
    ||| exists|name: Seq<char>| in_root(manifest_path, name)
}

impl DynamicPluginManifest {
    /// Resolves the declared configuration schema path without accessing it.
    ///
    /// Relative schema paths are resolved from the parent directory of the
    /// canonical `relay-plugin.toml` path. Absolute local paths are returned
    /// unchanged. Which paths are absolute, and how they are joined, rests on the
    /// platform.
    pub fn resolve_config_schema_path(&self, canonical_manifest_path: &str) -> (r: Result<
        Option<String>,
        PluginError,
    >)
        ensures
            r matches Ok(None) <==> self.config_schema is None,
            self.config_schema matches Some(schema) ==> {
                &&& schema_path_problem(schema) is Some ==> error::failure(r)
                    == schema_path_problem(schema)
                &&& schema_path_problem(schema) is None && r is Err ==> error::failure(r)
                    == error::invalid(no_parent_message(canonical_manifest_path@))
                &&& r matches Ok(Some(path)) ==> schema_resolved(
                    canonical_manifest_path@,
                    schema.path@,
                    path@,
                )
                &&& schema_path_problem(schema) is None && has_directory(canonical_manifest_path@)
                    ==> r is Ok
                &&& schema_path_problem(schema) is None && (canonical_manifest_path@.len() == 0
                    || canonical_manifest_path@ == "/"@) && relative_text(schema.path@) ==> r
                    is Err
            },
    {
        match &self.config_schema {
            None => Ok(None),
            Some(config_schema) => match validate_config_schema_path(config_schema) {
                Err(e) => Err(e),
                Ok(schema_path) => {
                    let is_absolute = path_is_absolute(schema_path);
                    let joined = join_to_parent(canonical_manifest_path, schema_path);
                    assert(schema_path@.subrange(0, schema_path@.len() as int) =~= schema_path@);
                    match config_schema_location(
                        schema_path,
                        is_absolute,
                        joined,
                        canonical_manifest_path,
                    ) {
                        Ok(path) => Ok(Some(path)),
                        Err(e) => Err(e),
                    }
                },
            },
        }
    }
}

/// The trimmed text of a value that is given.
fn trimmed_text(value: &Option<String>) -> (r: String)
    requires
        *value is Some,
    ensures
        r@ == text::trimmed(value->0@),
{
    match value {
        Some(s) => trim(s.as_str()).to_owned(),
        None => String::new(),
    }
}

impl DynamicPluginManifestLoad {
    /// The load contract of a validated load block.
    fn into_record_load_contract(self) -> (r: DynamicPluginLoadContract)
        requires
            exists|kind: DynamicPluginKind| load_problem(kind, self) is None,
        ensures
            r@ == record_load(self),
    {
        match self {
            DynamicPluginManifestLoad::Worker(load) => DynamicPluginLoadContract::Worker(
                DynamicPluginWorkerLoadContract {
                    runtime: load.runtime.unwrap(),
                    entrypoint: trimmed_text(&load.entrypoint),
                },
            ),
            DynamicPluginManifestLoad::RustDynamic(
                load,
            ) => DynamicPluginLoadContract::RustDynamic(
                DynamicPluginRustLoadContract {
                    library: trimmed_text(&load.library),
                    symbol: trimmed_text(&load.symbol),
                },
            ),
        }
    }
}

/// What the file system tells about a manifest, and what its text decodes to.
pub struct ManifestFile {
    /// Path of the file, as it is shown.
    pub display_ref: String,
    /// Whether the file exists.
    pub exists: Result<bool, String>,
    /// Path of the file in canonical form.
    pub normalized: Result<String, String>,
    /// Whether the file could be read.
    pub read: Result<(), String>,
    /// What its text decodes to.
    pub decoded: Result<DynamicPluginManifest, String>,
}

/// Why a manifest is refused, by what its text decodes to.
pub open spec fn decoded_problem(decoded: Result<DynamicPluginManifest, String>) -> Option<
    ErrorView,
> {
    match decoded {
        Err(shown) => error::invalid("invalid relay-plugin.toml: "@ + shown@),
        Ok(manifest) => manifest_problem(manifest),
    }
}

/// Why a manifest file is refused.
pub open spec fn manifest_file_problem(file: ManifestFile) -> Option<ErrorView> {
    match file.exists {
        Err(err) => Some(
            (
                PluginErrorKind::Internal,
                "failed to inspect '"@ + file.display_ref@ + "': "@ + err@,
            ),
        ),
        Ok(false) => Some(
            (
                PluginErrorKind::NotFound,
                "dynamic plugin manifest '"@ + file.display_ref@ + "' does not exist"@,
            ),
        ),
        Ok(true) => match file.normalized {
            Err(err) => Some(
                (
                    PluginErrorKind::Internal,
                    "failed to normalize dynamic plugin manifest '"@ + file.display_ref@ + "': "@
                        + err@,
                ),
            ),
            Ok(manifest_ref) => match file.read {
                Err(err) => Some(
                    (
                        PluginErrorKind::Internal,
                        "failed to read dynamic plugin manifest '"@ + manifest_ref@ + "': "@
                            + err@,
                    ),
                ),
                Ok(()) => decoded_problem(file.decoded),
            },
        },
    }
}

impl DynamicPluginManifest {
    /// Takes a `relay-plugin.toml` manifest, given with what its text decodes to.
    pub fn parse_toml(decoded: Result<DynamicPluginManifest, String>) -> (r: Result<
        DynamicPluginManifest,
        PluginError,
    >)
        ensures
            error::failure(r) == decoded_problem(decoded),
            r matches Ok(manifest) ==> decoded == Ok::<DynamicPluginManifest, String>(manifest),
    {
        match decoded {
            Err(shown) => Err(
                PluginError::InvalidConfig(
                    concat2("invalid relay-plugin.toml: ", shown.as_str()),
                ),
            ),
            Ok(manifest) => match manifest.validate() {
                Ok(()) => Ok(manifest),
                Err(e) => Err(e),
            },
        }
    }

    /// Takes a manifest file: the validated manifest, and the canonical path of the file.
    pub fn load_from_path(file: ManifestFile) -> (r: Result<
        (DynamicPluginManifest, String),
        PluginError,
    >)
        ensures
            error::failure(r) == manifest_file_problem(file),
            r matches Ok(loaded) ==> file.decoded == Ok::<DynamicPluginManifest, String>(loaded.0)
                && file.normalized == Ok::<String, String>(loaded.1),
    {
        match file.exists {
            Err(err) => {
                return Err(
                    PluginError::Internal(
                        concat4(
                            "failed to inspect '",
                            file.display_ref.as_str(),
                            "': ",
                            err.as_str(),
                        ),
                    ),
                );
            },
            Ok(false) => {
                return Err(
                    PluginError::NotFound(
                        concat3(
                            "dynamic plugin manifest '",
                            file.display_ref.as_str(),
                            "' does not exist",
                        ),
                    ),
                );
            },
            Ok(true) => {},
        }
        let manifest_ref = match file.normalized {
            Ok(manifest_ref) => manifest_ref,
            Err(err) => {
                return Err(
                    PluginError::Internal(
                        concat4(
                            "failed to normalize dynamic plugin manifest '",
                            file.display_ref.as_str(),
                            "': ",
                            err.as_str(),
                        ),
                    ),
                );
            },
        };
        match file.read {
            Ok(()) => {},
            Err(err) => {
                return Err(
                    PluginError::Internal(
                        concat4(
                            "failed to read dynamic plugin manifest '",
                            manifest_ref.as_str(),
                            "': ",
                            err.as_str(),
                        ),
                    ),
                );
            },
        }
        match DynamicPluginManifest::parse_toml(file.decoded) {
            Ok(manifest) => Ok((manifest, manifest_ref)),
            Err(e) => Err(e),
        }
    }
}

impl DynamicPluginManifest {
    /// Validates the authored manifest against the v1 contract.
    pub fn validate(&self) -> (r: Result<(), PluginError>)
        ensures
            error::failure(r) == manifest_problem(*self),
    {
        if self.manifest_version != 1 {
            let version = format_u64(self.manifest_version as u64);
            return Err(
                PluginError::InvalidConfig(
                    concat3(
                        "unsupported relay-plugin.toml manifest_version ",
                        version.as_str(),
                        "; expected 1",
                    ),
                ),
            );
        }
        if is_blank(self.plugin.id.as_str()) {
            return Err(invalid_config("plugin.id must not be empty"));
        }
        match self.validate_descriptions() {
            Err(e) => return Err(e),
            Ok(()) => {},
        }
        let relay = match &self.compat.relay {
            Some(s) => Some(s.as_str()),
            None => None,
        };
        match validate_dynamic_plugin_relay_baseline(relay, "dynamic") {
            Err(e) => return Err(e),
            Ok(()) => {},
        }
        if self.capabilities.items.len() == 0 {
            return Err(invalid_config("capabilities.items must declare at least one capability"));
        }
        match reject_duplicate_capabilities(&self.capabilities.items) {
            Err(e) => return Err(e),
            Ok(()) => {},
        }
        match validate_config_schema_contract(&self.capabilities.items, &self.config_schema) {
            Err(e) => return Err(e),
            Ok(()) => {},
        }
        if self.defaults.enabled {
            return Err(
                invalid_config(
                    "defaults.enabled=true is not supported for dynamic plugins; plugins are added disabled and require explicit enablement",
                ),
            );
        }
        match validate_capability_shape(self.plugin.kind, &self.capabilities.items) {
            Err(e) => return Err(e),
            Ok(()) => {},
        }
        match validate_load_shape(self.plugin.kind, &self.load) {
            Err(e) => return Err(e),
            Ok(()) => {},
        }
        validate_compat_shape(self.plugin.kind, &self.compat)
    }

    /// Checks the texts that describe the plugin.
    fn validate_descriptions(&self) -> (r: Result<(), PluginError>)
        ensures
            error::failure(r) == description_problem(*self),
    {
        match ensure_optional_string_non_empty(&self.plugin.name, "plugin.name") {
            Err(e) => return Err(e),
            Ok(()) => {},
        }
        match ensure_optional_string_non_empty(&self.plugin.version, "plugin.version") {
            Err(e) => return Err(e),
            Ok(()) => {},
        }
        match ensure_optional_string_non_empty(&self.description, "description") {
            Err(e) => return Err(e),
            Ok(()) => {},
        }
        if let Some(source) = &self.source {
            match ensure_optional_string_non_empty(&source.manifest_root, "source.manifest_root") {
                Err(e) => return Err(e),
                Ok(()) => {},
            }
            match ensure_optional_string_non_empty(&source.artifact, "source.artifact") {
                Err(e) => return Err(e),
                Ok(()) => {},
            }
        }
        if let Some(integrity) = &self.integrity {
            match ensure_optional_string_non_empty(&integrity.sha256, "integrity.sha256") {
                Err(e) => return Err(e),
                Ok(()) => {},
            }
            match ensure_optional_string_non_empty(&integrity.signature, "integrity.signature") {
                Err(e) => return Err(e),
                Ok(()) => {},
            }
        }
        Ok(())
    }

    /// The validation status of a manifest validated at `now`.
    pub fn validation_status_at(&self, now: String) -> (r: DynamicPluginValidationStatus)
        ensures
            validated_status(r, Some(now)),
    {
        DynamicPluginValidationStatus {
            manifest: DynamicPluginCheckState::Valid,
            compatibility: DynamicPluginCheckState::Unknown,
            integrity: DynamicPluginCheckState::Unknown,
            environment: DynamicPluginCheckState::Unknown,
            authenticity: DynamicPluginCheckState::Unknown,
            policy_satisfied: DynamicPluginCheckState::Unknown,
            checked_at: Some(now),
            message: Some("manifest validated".to_owned()),
        }
    }

    /// Produces the initial validation status for a successfully validated
    /// manifest.
    pub fn validation_status(&self) -> (r: DynamicPluginValidationStatus)
        ensures
            is_noted(r.checked_at),
            validated_status(r, r.checked_at),
    {
        self.validation_status_at(current_timestamp())
    }

    /// Converts the authored manifest, validated at `now`, into a durable
    /// control-plane record.
    pub fn into_record_at(self, manifest_ref: Option<String>, now: String) -> (r: Result<
        DynamicPluginRecord,
        PluginError,
    >)
        ensures
            error::failure(r) == manifest_problem(self),
            r matches Ok(record) ==> recorded(record, self, manifest_ref, Some(now)),
    {
        match self.validate() {
            Err(e) => return Err(e),
            Ok(()) => {},
        }
        let validation = self.validation_status_at(now);
        let compatibility = match self.plugin.kind {
            DynamicPluginKind::RustDynamic => DynamicPluginCompatibility::RustDynamic(
                DynamicPluginRustCompatibility {
                    relay: trimmed_text(&self.compat.relay),
                    native_api: trimmed_text(&self.compat.native_api),
                },
            ),
            DynamicPluginKind::Worker => DynamicPluginCompatibility::Worker(
                DynamicPluginWorkerCompatibility {
                    relay: trimmed_text(&self.compat.relay),
                    worker_protocol: trimmed_text(&self.compat.worker_protocol),
                },
            ),
        };
        let artifact_ref = match &self.source {
            Some(source) => clone_opt(&source.artifact),
            None => None,
        };
        let artifact_digest = match &self.integrity {
            Some(integrity) => clone_opt(&integrity.sha256),
            None => None,
        };
        assert(load_problem(self.plugin.kind, self.load) is None);
        Ok(
            DynamicPluginRecord {
                metadata: DynamicPluginMetadata {
                    id: trim(self.plugin.id.as_str()).to_owned(),
                    name: self.plugin.name,
                    version: self.plugin.version,
                    kind: self.plugin.kind,
                    generation: 0,
                    created_at: None,
                    updated_at: None,
                },
                source: DynamicPluginSource {
                    manifest_ref,
                    artifact_ref,
                    environment_ref: None,
                    artifact_digest,
                },
                spec: DynamicPluginSpec { present: true, enabled: false, config_ref: None },
                compatibility,
                load: self.load.into_record_load_contract(),
                status: DynamicPluginStatus {
                    validation,
                    runtime: DynamicPluginRuntimeStatus::default(),
                    startup_class: None,
                    attestation_mode: None,
                    last_error: None,
                },
            },
        )
    }

    /// Converts the authored manifest into a durable control-plane record.
    pub fn into_record(self, manifest_ref: Option<String>) -> (r: Result<
        DynamicPluginRecord,
        PluginError,
    >)
        ensures
            error::failure(r) == manifest_problem(self),
            r matches Ok(record) ==> is_noted(record.status.validation.checked_at) && recorded(
                record,
                self,
                manifest_ref,
                record.status.validation.checked_at,
            ),
    {
        self.into_record_at(manifest_ref, current_timestamp())
    }
}

/// Capabilities are accepted exactly where none is declared twice.
pub proof fn law_capabilities_are_declared_once(items: Seq<DynamicPluginCapability>)
    ensures
        duplicate_problem(items) is None <==> (forall|i: int, j: int|
            0 <= i < j < items.len() ==> #[trigger] items[i] != #[trigger] items[j]),
    decreases items.len(),
{
    if items.len() > 0 {
        let front = items.drop_last();
        law_capabilities_are_declared_once(front);
        if duplicate_problem(items) is None {
            assert forall|i: int, j: int| 0 <= i < j < items.len() implies #[trigger] items[i]
                != #[trigger] items[j] by {
                assert(front[i] == items[i]);
                if j < front.len() {
                    assert(front[j] == items[j]);
                } else {
                    assert(front.contains(items[i]));
                }
            }
        }
        if forall|i: int, j: int|
            0 <= i < j < items.len() ==> #[trigger] items[i] != #[trigger] items[j] {
            assert forall|i: int, j: int| 0 <= i < j < front.len() implies #[trigger] front[i]
                != #[trigger] front[j] by {
                assert(items[i] != items[j]);
            }
            if front.contains(items.last()) {
                let i = front.index_of(items.last());
                assert(items[i] == items[items.len() - 1]);
            }
        }
    }
}

/// Whether an optional text is absent or says something.
pub open spec fn absent_or_says(value: Option<String>) -> bool {
    value is None || !text::blank(value->0@)
}

/// Whether a required text is there and says something.
pub open spec fn says(value: Option<String>) -> bool {
    value is Some && !text::blank(value->0@)
}

/// A manifest is valid exactly where it is of version 1, names its plugin, says something wherever
/// it has a text, keeps to the baseline, declares capabilities and none of them twice, declares a
/// configuration schema at a local path exactly where it declares that capability, does not enable
/// its plugin, and declares the capability, the load fields and the compatibility of its kind and
/// none of the other kind.
pub proof fn law_valid_manifests(m: DynamicPluginManifest)
    ensures
        manifest_problem(m) is None <==> {
            let items = m.capabilities.items@;
            let native = items.contains(DynamicPluginCapability::PluginNative);
            let worker = items.contains(DynamicPluginCapability::PluginWorker);
            &&& m.manifest_version == 1
            &&& !text::blank(m.plugin.id@)
            &&& absent_or_says(m.plugin.name) && absent_or_says(m.plugin.version)
            &&& absent_or_says(m.description)
            &&& m.source is Some ==> absent_or_says(m.source->0.manifest_root) && absent_or_says(
                m.source->0.artifact,
            )
            &&& m.integrity is Some ==> absent_or_says(m.integrity->0.sha256) && absent_or_says(
                m.integrity->0.signature,
            )
            &&& relay_version::baseline_problem(text::opt_text(m.compat.relay), "dynamic"@) is None
            &&& items.len() > 0
            &&& forall|i: int, j: int|
                0 <= i < j < items.len() ==> #[trigger] items[i] != #[trigger] items[j]
            &&& m.config_schema is Some <==> items.contains(DynamicPluginCapability::ConfigSchema)
            &&& m.config_schema matches Some(schema) ==> !text::blank(schema.path@) && !uri_scheme(
                schema.path@,
            ) && !unc_path(schema.path@)
            &&& !m.defaults.enabled
            &&& m.plugin.kind == DynamicPluginKind::RustDynamic ==> {
                &&& native && !worker
                &&& m.load matches DynamicPluginManifestLoad::RustDynamic(l) && says(l.library)
                    && says(l.symbol)
                &&& says(m.compat.native_api) && text::trimmed(m.compat.native_api->0@) == "1"@
                &&& m.compat.worker_protocol is None
            }
            &&& m.plugin.kind == DynamicPluginKind::Worker ==> {
                &&& worker && !native
                &&& m.load matches DynamicPluginManifestLoad::Worker(l) && says(l.entrypoint)
                    && l.runtime is Some
                &&& says(m.compat.worker_protocol) && text::trimmed(m.compat.worker_protocol->0@)
                    == "grpc-v1"@
                &&& m.compat.native_api is None
            }
        },
        manifest_problem(m) matches Some(e) ==> e.0 == PluginErrorKind::InvalidConfig,
{
    law_capabilities_are_declared_once(m.capabilities.items@);
    lemma_duplicate_kind(m.capabilities.items@);
    relay_version::law_compatible_plugins_meet_the_host(
        text::opt_text(m.compat.relay),
        "dynamic"@,
        ""@,
    );
}

/// A duplicate is an error of the configuration.
proof fn lemma_duplicate_kind(items: Seq<DynamicPluginCapability>)
    ensures
        duplicate_problem(items) matches Some(e) ==> e.0 == PluginErrorKind::InvalidConfig,
    decreases items.len(),
{
    if items.len() > 0 {
        lemma_duplicate_kind(items.drop_last());
    }
}

/// What is told of a manifest that is not valid, for the problems that are looked at first.
pub proof fn law_manifest_problems_are_told(m: DynamicPluginManifest)
    ensures
        m.manifest_version != 1 ==> manifest_problem(m) == Some(
            (
                PluginErrorKind::InvalidConfig,
                "unsupported relay-plugin.toml manifest_version "@ + text::decimal(
                    m.manifest_version as nat,
                ) + "; expected 1"@,
            ),
        ),
        m.manifest_version == 1 && text::blank(m.plugin.id@) ==> manifest_problem(m) == Some(
            (PluginErrorKind::InvalidConfig, "plugin.id must not be empty"@),
        ),
        m.manifest_version == 1 && !text::blank(m.plugin.id@) && m.plugin.name is Some
            && text::blank(m.plugin.name->0@) ==> manifest_problem(m) == Some(
            (
                PluginErrorKind::InvalidConfig,
                "plugin.name"@ + " must not be empty when provided"@,
            ),
        ),
        m.manifest_version == 1 && !text::blank(m.plugin.id@) && description_problem(m) is None
            && relay_version::baseline_problem(text::opt_text(m.compat.relay), "dynamic"@) is Some
            ==> manifest_problem(m) == relay_version::baseline_problem(
            text::opt_text(m.compat.relay),
            "dynamic"@,
        ),
{
}

/// A text of a letter and further letters, digits, `+`, `-` and `.` before `://` makes a path a URI,
/// and so does `file:` in any case; a path without a colon is none. Two slashes or backslashes make
/// it that of a network share.
pub proof fn law_schema_paths_are_local(
    scheme: Seq<char>,
    rest: Seq<char>,
    path: Seq<char>,
)
    ensures
        scheme.len() > 0 && ('a' <= scheme[0] <= 'z' || 'A' <= scheme[0] <= 'Z') && (forall|j: int|
            1 <= j < scheme.len() ==> ('a' <= #[trigger] scheme[j] <= 'z' || 'A' <= scheme[j] <= 'Z'
                || '0' <= scheme[j] <= '9' || scheme[j] == '+' || scheme[j] == '-' || scheme[j]
                == '.')) && path == scheme + "://"@ + rest ==> uri_scheme(path),
        path.len() >= 5 && text::same_ignoring_case(path.subrange(0, 5), "file:"@) ==> uri_scheme(
            path,
        ),
        (forall|j: int| 0 <= j < path.len() ==> #[trigger] path[j] != ':') ==> !uri_scheme(path)
            || (path.len() >= 5 && text::same_ignoring_case(path.subrange(0, 5), "file:"@)),
        path.len() >= 2 && (path[0] == '/' && path[1] == '/' || path[0] == '\\' && path[1] == '\\')
            <==> unc_path(path),
{
    reveal_strlit("://");
    reveal_strlit("//");
    reveal_strlit("\\\\");
    if scheme.len() > 0 && path == scheme + "://"@ + rest && ('a' <= scheme[0] <= 'z' || 'A'
        <= scheme[0] <= 'Z') && (forall|j: int|
        1 <= j < scheme.len() ==> ('a' <= #[trigger] scheme[j] <= 'z' || 'A' <= scheme[j] <= 'Z'
            || '0' <= scheme[j] <= '9' || scheme[j] == '+' || scheme[j] == '-' || scheme[j] == '.')) {
        let i = scheme.len() as int;
        assert(path[i] == "://"@[0] && path[i + 1] == "://"@[1] && path[i + 2] == "://"@[2]);
        assert(scheme_end_at(path, i));
        assert forall|j: int| 0 <= j < i implies !scheme_end_at(path, j) by {
            assert(path[j] == scheme[j]);
        }
        assert forall|j: int| 1 <= j < i implies scheme_char(#[trigger] path[j]) by {
            assert(path[j] == scheme[j]);
        }
    }
    if path.len() >= 2 {
        assert(path.subrange(0, 2)[0] == path[0] && path.subrange(0, 2)[1] == path[1]);
        if path[0] == '/' && path[1] == '/' {
            assert(path.subrange(0, 2) =~= "//"@);
        }
        if path[0] == '\\' && path[1] == '\\' {
            assert(path.subrange(0, 2) =~= "\\\\"@);
        }
        assert("//"@[0] == '/' && "//"@[1] == '/');
        assert("\\\\"@[0] == '\\' && "\\\\"@[1] == '\\');
    }
}

/// The record of a manifest is that of its plugin: present, not enabled, in its first generation,
/// with the artifact and the digest that the manifest declares, checked as a manifest and not
/// otherwise, and not running.
pub proof fn law_manifests_are_recorded(
    record: DynamicPluginRecord,
    m: DynamicPluginManifest,
    manifest_ref: Option<String>,
    now: Option<String>,
)
    requires
        recorded(record, m, manifest_ref, now),
    ensures
        record.metadata.id@ == text::trimmed(m.plugin.id@),
        record.metadata.name == m.plugin.name,
        record.metadata.version == m.plugin.version,
        record.metadata.kind == m.plugin.kind,
        record.metadata.generation == 0,
        record.metadata.created_at is None && record.metadata.updated_at is None,
        record.spec.present,
        !record.spec.enabled,
        record.spec.config_ref is None,
        record.source.manifest_ref == manifest_ref,
        record.source.environment_ref is None,
        m.source is Some ==> record.source.artifact_ref == m.source->0.artifact,
        m.source is None ==> record.source.artifact_ref is None,
        m.integrity is Some ==> record.source.artifact_digest == m.integrity->0.sha256,
        m.integrity is None ==> record.source.artifact_digest is None,
        record.status.validation.manifest == DynamicPluginCheckState::Valid,
        record.status.validation.compatibility == DynamicPluginCheckState::Unknown,
        record.status.validation.integrity == DynamicPluginCheckState::Unknown,
        record.status.validation.environment == DynamicPluginCheckState::Unknown,
        record.status.validation.authenticity == DynamicPluginCheckState::Unknown,
        record.status.validation.policy_satisfied == DynamicPluginCheckState::Unknown,
        record.status.validation.checked_at == now,
        record.status.runtime.state == crate::dynamic::record::DynamicPluginRuntimeState::Stopped,
        record.status.runtime.observed_generation == 0,
        record.status.last_error is None,
        m.load matches DynamicPluginManifestLoad::Worker(l) ==> record.load@
            == crate::dynamic::registry::LoadView::Worker(
            l.runtime->0,
            text::trimmed(l.entrypoint->0@),
        ),
        m.load matches DynamicPluginManifestLoad::RustDynamic(l) ==> record.load@
            == crate::dynamic::registry::LoadView::RustDynamic(
            text::trimmed(l.library->0@),
            text::trimmed(l.symbol->0@),
        ),
        m.plugin.kind == DynamicPluginKind::Worker ==> record.compatibility@
            == crate::dynamic::registry::CompatibilityView::Worker(
            text::trimmed(m.compat.relay->0@),
            text::trimmed(m.compat.worker_protocol->0@),
        ),
        m.plugin.kind == DynamicPluginKind::RustDynamic ==> record.compatibility@
            == crate::dynamic::registry::CompatibilityView::RustDynamic(
            text::trimmed(m.compat.relay->0@),
            text::trimmed(m.compat.native_api->0@),
        ),
{
}

/// A manifest file is loaded exactly where it exists, its place is known, it can be read and
/// decoded, and the manifest is valid. A missing file is not found; one that cannot be looked at or
/// read is a failure of the host, and what it holds one of the configuration.
pub proof fn law_manifest_files_are_loaded(file: ManifestFile)
    ensures
        manifest_file_problem(file) is None <==> file.exists == Ok::<bool, String>(true)
            && file.normalized is Ok && file.read is Ok && file.decoded is Ok && manifest_problem(
            file.decoded->Ok_0,
        ) is None,
        file.exists == Ok::<bool, String>(false) ==> manifest_file_problem(file) is Some && (
        manifest_file_problem(file)->0).0 == PluginErrorKind::NotFound,
        file.exists is Err ==> (manifest_file_problem(file)->0).0 == PluginErrorKind::Internal,
        file.exists == Ok::<bool, String>(true) && (file.normalized is Err || file.read is Err) ==> (
        manifest_file_problem(file)->0).0 == PluginErrorKind::Internal,
        file.exists == Ok::<bool, String>(true) && file.normalized is Ok && file.read is Ok
            && file.decoded is Err ==> manifest_file_problem(file) == Some(
            (
                PluginErrorKind::InvalidConfig,
                "invalid relay-plugin.toml: "@ + file.decoded->Err_0@,
            ),
        ),
{
}

/// What a manifest declares to load is that of a worker where it has a runtime or an entrypoint,
/// and that of a library where it has a library or a symbol.
pub proof fn law_load_fields_tell_the_kind(load: RawDynamicPluginManifestLoad)
    ensures
        load.has_worker_fields() <==> !(load.runtime is None && load.entrypoint is None),
        load.has_native_fields() <==> !(load.library is None && load.symbol is None),
{
}

/// What is told of a manifest whose parts do not fit its kind.
pub proof fn law_misfits_of_manifests_are_told(
    items: Seq<DynamicPluginCapability>,
    item: DynamicPluginCapability,
    schema: DynamicPluginManifestConfigSchema,
    text: String,
    name: Seq<char>,
)
    ensures
        required_problem(None, name) == Some(
            (PluginErrorKind::InvalidConfig, name + " is required"@),
        ),
        text::blank(text@) ==> required_problem(Some(text), name) == Some(
            (PluginErrorKind::InvalidConfig, name + " must not be empty"@),
        ),
        text::blank(text@) ==> optional_problem(Some(text), name) == Some(
            (PluginErrorKind::InvalidConfig, name + " must not be empty when provided"@),
        ),
        duplicate_problem(items) is None && items.contains(item) ==> duplicate_problem(
            items.push(item),
        ) == Some(
            (
                PluginErrorKind::InvalidConfig,
                "capabilities.items contains duplicate capability '"@ + item.variant_name() + "'"@,
            ),
        ),
        items.contains(DynamicPluginCapability::ConfigSchema) ==> config_schema_problem(items, None)
            == Some(
            (
                PluginErrorKind::InvalidConfig,
                "capabilities.items containing config_schema requires a [config_schema] section"@,
            ),
        ),
        !items.contains(DynamicPluginCapability::ConfigSchema) ==> config_schema_problem(
            items,
            Some(schema),
        ) == Some(
            (
                PluginErrorKind::InvalidConfig,
                "[config_schema] requires capabilities.items containing config_schema"@,
            ),
        ),
        text::blank(schema.path@) ==> schema_path_problem(schema) == Some(
            (PluginErrorKind::InvalidConfig, "config_schema.path"@ + " must not be empty"@),
        ),
        !text::blank(schema.path@) && (uri_scheme(schema.path@) || unc_path(schema.path@))
            ==> schema_path_problem(schema) == Some(
            (
                PluginErrorKind::InvalidConfig,
                "config_schema.path must be a local filesystem path, not a URI or network share"@,
            ),
        ),
        !items.contains(DynamicPluginCapability::PluginNative) ==> capability_problem(
            DynamicPluginKind::RustDynamic,
            items,
        ) == Some(
            (
                PluginErrorKind::InvalidConfig,
                "rust_dynamic plugins must declare capabilities.items containing plugin_native"@,
            ),
        ),
        items.contains(DynamicPluginCapability::PluginNative) && items.contains(
            DynamicPluginCapability::PluginWorker,
        ) ==> capability_problem(DynamicPluginKind::RustDynamic, items) == Some(
            (
                PluginErrorKind::InvalidConfig,
                "rust_dynamic plugins must not declare plugin_worker"@,
            ),
        ),
        !items.contains(DynamicPluginCapability::PluginWorker) ==> capability_problem(
            DynamicPluginKind::Worker,
            items,
        ) == Some(
            (
                PluginErrorKind::InvalidConfig,
                "worker plugins must declare capabilities.items containing plugin_worker"@,
            ),
        ),
        items.contains(DynamicPluginCapability::PluginNative) && items.contains(
            DynamicPluginCapability::PluginWorker,
        ) ==> capability_problem(DynamicPluginKind::Worker, items) == Some(
            (PluginErrorKind::InvalidConfig, "worker plugins must not declare plugin_native"@),
        ),
{
    assert(items.push(item).drop_last() =~= items);
}

/// What is told of a manifest whose load or compatibility does not fit its kind.
pub proof fn law_misfits_of_loads_are_told(
    native: DynamicPluginManifestLoad,
    worker: DynamicPluginManifestLoad,
    compat: DynamicPluginManifestCompat,
)
    requires
        native is RustDynamic,
        worker is Worker,
    ensures
        load_problem(DynamicPluginKind::RustDynamic, worker) == Some(
            (
                PluginErrorKind::InvalidConfig,
                "rust_dynamic plugins must not declare load.runtime or load.entrypoint"@,
            ),
        ),
        load_problem(DynamicPluginKind::Worker, native) == Some(
            (
                PluginErrorKind::InvalidConfig,
                "worker plugins must not declare load.library or load.symbol"@,
            ),
        ),
        native->RustDynamic_0.library is None ==> load_problem(
            DynamicPluginKind::RustDynamic,
            native,
        ) == Some((PluginErrorKind::InvalidConfig, "load.library"@ + " is required"@)),
        (native->RustDynamic_0.library matches Some(library) && !text::blank(library@))
            && native->RustDynamic_0.symbol is None ==> load_problem(
            DynamicPluginKind::RustDynamic,
            native,
        ) == Some((PluginErrorKind::InvalidConfig, "load.symbol"@ + " is required"@)),
        worker->Worker_0.entrypoint is None ==> load_problem(DynamicPluginKind::Worker, worker)
            == Some((PluginErrorKind::InvalidConfig, "load.entrypoint"@ + " is required"@)),
        (worker->Worker_0.entrypoint matches Some(entrypoint) && !text::blank(entrypoint@))
            && worker->Worker_0.runtime is None ==> load_problem(DynamicPluginKind::Worker, worker)
            == Some((PluginErrorKind::InvalidConfig, "worker plugins must declare load.runtime"@)),
        compat.native_api is None ==> compat_problem(DynamicPluginKind::RustDynamic, compat) == Some(
            (PluginErrorKind::InvalidConfig, "compat.native_api"@ + " is required"@),
        ),
        (compat.native_api matches Some(api) && !text::blank(api@) && text::trimmed(api@) != "1"@)
            ==> compat_problem(DynamicPluginKind::RustDynamic, compat) == Some(
            (
                PluginErrorKind::InvalidConfig,
                "rust_dynamic plugins must declare compat.native_api = \"1\""@,
            ),
        ),
        (compat.native_api matches Some(api) && !text::blank(api@) && text::trimmed(api@) == "1"@)
            && compat.worker_protocol is Some ==> compat_problem(
            DynamicPluginKind::RustDynamic,
            compat,
        ) == Some(
            (
                PluginErrorKind::InvalidConfig,
                "rust_dynamic plugins must not declare compat.worker_protocol"@,
            ),
        ),
        compat.worker_protocol is None ==> compat_problem(DynamicPluginKind::Worker, compat) == Some(
            (PluginErrorKind::InvalidConfig, "compat.worker_protocol"@ + " is required"@),
        ),
        (compat.worker_protocol matches Some(p) && !text::blank(p@) && text::trimmed(p@)
            != "grpc-v1"@) ==> compat_problem(DynamicPluginKind::Worker, compat) == Some(
            (
                PluginErrorKind::InvalidConfig,
                "worker plugins must declare compat.worker_protocol = \"grpc-v1\""@,
            ),
        ),
        (compat.worker_protocol matches Some(p) && !text::blank(p@) && text::trimmed(p@)
            == "grpc-v1"@) && compat.native_api is Some ==> compat_problem(
            DynamicPluginKind::Worker,
            compat,
        ) == Some(
            (PluginErrorKind::InvalidConfig, "worker plugins must not declare compat.native_api"@),
        ),
{
}

/// What is told of descriptions that are blank, of manifests without capabilities or enabled by
/// themselves, and of files that cannot be had.
pub proof fn law_unusable_manifests_are_told(
    m: DynamicPluginManifest,
    file: ManifestFile,
    status: DynamicPluginValidationStatus,
    now: Option<String>,
    path: Seq<char>,
)
    ensures
        description_problem(m) == or_else(
            optional_problem(m.plugin.name, "plugin.name"@),
            or_else(
                optional_problem(m.plugin.version, "plugin.version"@),
                or_else(
                    optional_problem(m.description, "description"@),
                    or_else(
                        optional_problem(m.manifest_root(), "source.manifest_root"@),
                        or_else(
                            optional_problem(m.artifact(), "source.artifact"@),
                            or_else(
                                optional_problem(m.sha256(), "integrity.sha256"@),
                                optional_problem(m.signature(), "integrity.signature"@),
                            ),
                        ),
                    ),
                ),
            ),
        ),
        m.manifest_version == 1 && !text::blank(m.plugin.id@) && description_problem(m) is None
            && relay_version::baseline_problem(text::opt_text(m.compat.relay), "dynamic"@) is None
            && m.capabilities.items@.len() == 0 ==> manifest_problem(m) == Some(
            (
                PluginErrorKind::InvalidConfig,
                "capabilities.items must declare at least one capability"@,
            ),
        ),
        m.manifest_version == 1 && !text::blank(m.plugin.id@) && description_problem(m) is None
            && relay_version::baseline_problem(text::opt_text(m.compat.relay), "dynamic"@) is None
            && m.capabilities.items@.len() > 0 && duplicate_problem(m.capabilities.items@) is None
            && config_schema_problem(m.capabilities.items@, m.config_schema) is None
            && m.defaults.enabled ==> manifest_problem(m) == Some(
            (
                PluginErrorKind::InvalidConfig,
                "defaults.enabled=true is not supported for dynamic plugins; plugins are added disabled and require explicit enablement"@,
            ),
        ),
        file.exists matches Err(err) ==> manifest_file_problem(file) == Some(
            (
                PluginErrorKind::Internal,
                "failed to inspect '"@ + file.display_ref@ + "': "@ + err@,
            ),
        ),
        file.exists == Ok::<bool, String>(false) ==> manifest_file_problem(file) == Some(
            (
                PluginErrorKind::NotFound,
                "dynamic plugin manifest '"@ + file.display_ref@ + "' does not exist"@,
            ),
        ),
        file.exists == Ok::<bool, String>(true) && file.normalized is Err ==> manifest_file_problem(
            file,
        ) == Some(
            (
                PluginErrorKind::Internal,
                "failed to normalize dynamic plugin manifest '"@ + file.display_ref@ + "': "@
                    + file.normalized->Err_0@,
            ),
        ),
        file.exists == Ok::<bool, String>(true) && file.normalized is Ok && file.read is Err
            ==> manifest_file_problem(file) == Some(
            (
                PluginErrorKind::Internal,
                "failed to read dynamic plugin manifest '"@ + file.normalized->Ok_0@ + "': "@
                    + file.read->Err_0@,
            ),
        ),
        validated_status(status, now) ==> status.checked_at == now && status.manifest
            == DynamicPluginCheckState::Valid && status.message is Some && status.message->0@
            == "manifest validated"@,
        no_parent_message(path) == "dynamic plugin manifest path '"@ + path
            + "' has no parent directory"@,
        load_both_message()
            == "load must declare either worker fields (runtime, entrypoint) or rust_dynamic fields (library, symbol), not both"@,
        load_neither_message()
            == "load must declare either worker fields (runtime, entrypoint) or rust_dynamic fields (library, symbol)"@,
{
}

} // verus!
