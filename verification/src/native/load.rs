//! Loading of native plugins.
//!
//! The host opens libraries and calls their entry symbols; here stands what it
//! checks before and after, and what it makes of the answers.

use vstd::prelude::*;

use crate::digest::{digest_problem, verify_sha256};
use crate::dynamic::kinds::{
    kinds_registered, lemma_kinds_stop, lemma_teardown_undoes, registration_list, with_loaded,
    LoadedKind,
};
use crate::dynamic::manifest::{or_else, DynamicPluginManifest, DynamicPluginManifestLoad};
use crate::dynamic::record::DynamicPluginKind;
use crate::dynamic::teardown::DynamicPluginTeardownOutcome;
use crate::error::{failure, invalid, ErrorView, PluginError, PluginErrorKind};
use crate::handlers::{
    deregister_tracked_registrations_checked, external_problem, register_plugin_tracked,
    torn_down, PluginHandlers,
};
use crate::native::status::{message_or, LastError, NemoRelayStatus};
use crate::native::strings::{native_text, read_native_string, NativeString};
use crate::paths::{resolve_manifest_relative_path, resolved_beside};
use crate::relay_version::{compatibility_problem, validate_dynamic_plugin_relay_compatibility};
use crate::text::{
    self, clone_opt, concat2, concat3, concat4, concat5, format_u64, opt_text, text_eq, trim,
    trimmed,
};

verus! {

/// Native plugin load request derived from host dynamic-plugin state.
#[derive(Debug, PartialEq, Eq)]
pub struct NativePluginLoadSpec {
    /// Expected plugin kind.
    pub plugin_id: String,
    /// Path to the authored `relay-plugin.toml`.
    pub manifest_ref: String,
}

/// What a checked manifest says about the library to load.
#[derive(Debug)]
pub struct NativeLoadTarget {
    /// Declared Relay requirement.
    pub relay_compat: String,
    /// Library path as it is declared.
    pub library: String,
    /// Declared digest of the library.
    pub expected_digest: Option<String>,
    /// Entry symbol, which is checked once the library is.
    pub symbol: Option<String>,
}

/// The problem of a manifest whose identity is not the expected one.
pub open spec fn identity_problem(m: DynamicPluginManifest, plugin_id: Seq<char>) -> Option<
    ErrorView,
> {
    if trimmed(m.plugin.id@) != plugin_id {
        invalid(
            "dynamic plugin manifest id '"@ + m.plugin.id@ + "' does not match expected id '"@
                + plugin_id + "'"@,
        )
    } else {
        None
    }
}

/// The problem of a manifest that is not for the native loader.
pub open spec fn native_lane_problem(m: DynamicPluginManifest, plugin_id: Seq<char>) -> Option<
    ErrorView,
> {
    if m.plugin.kind != DynamicPluginKind::RustDynamic {
        invalid(
            "dynamic plugin '"@ + plugin_id + "' is kind "@ + m.plugin.kind.label()
                + "; native loader only supports rust_dynamic"@,
        )
    } else {
        None
    }
}

/// Whether a manifest declares the native interface that the loader speaks.
pub open spec fn speaks_native_api(m: DynamicPluginManifest) -> bool {
    m.compat.native_api is Some && trimmed(m.compat.native_api->0@) == "1"@
}

/// The problem of the native interface and the load block of a manifest.
pub open spec fn native_contract_problem(m: DynamicPluginManifest, plugin_id: Seq<char>) -> Option<
    ErrorView,
> {
    if !speaks_native_api(m) {
        invalid(
            "dynamic plugin '"@ + plugin_id + "' declares unsupported compat.native_api '"@ + (
            match m.compat.native_api {
                Some(v) => v@,
                None => ""@,
            }) + "'; expected 1"@,
        )
    } else {
        match m.load {
            DynamicPluginManifestLoad::Worker(_) => invalid(
                "dynamic plugin '"@ + plugin_id + "' has invalid rust_dynamic load contract"@,
            ),
            DynamicPluginManifestLoad::RustDynamic(load) => if load.library is None {
                invalid("load.library is required"@)
            } else {
                None
            },
        }
    }
}

/// The first problem of a manifest that is to be loaded as a native plugin on a host
/// of the given version.
pub open spec fn native_manifest_problem(
    m: DynamicPluginManifest,
    plugin_id: Seq<char>,
    host_version: Seq<char>,
) -> Option<ErrorView> {
    or_else(
        or_else(identity_problem(m, plugin_id), native_lane_problem(m, plugin_id)),
        or_else(
            compatibility_problem(opt_text(m.compat.relay), "native"@, host_version),
            native_contract_problem(m, plugin_id),
        ),
    )
}

/// Whether a manifest declares what a target says.
pub open spec fn declares_target(m: DynamicPluginManifest, target: NativeLoadTarget) -> bool {
    &&& m.compat.relay == Some(target.relay_compat)
    &&& target.expected_digest == m.sha256()
    &&& m.load matches DynamicPluginManifestLoad::RustDynamic(load)
    &&& load.library == Some(target.library)
    &&& load.symbol == target.symbol
}

/// Checks that a manifest belongs to the expected plugin.
pub fn check_manifest_identity(manifest: &DynamicPluginManifest, plugin_id: &str) -> (r: Result<
    (),
    PluginError,
>)
    ensures
        failure(r) == identity_problem(*manifest, plugin_id@),
{
    if !text_eq(trim(manifest.plugin.id.as_str()), plugin_id) {
        return Err(
            PluginError::InvalidConfig(
                concat5(
                    "dynamic plugin manifest id '",
                    manifest.plugin.id.as_str(),
                    "' does not match expected id '",
                    plugin_id,
                    "'",
                ),
            ),
        );
    }
    Ok(())
}

/// Checks a manifest that is to be loaded as a native plugin, in order: its identity,
/// its lane, the Relay requirement, the native interface and the load block.
pub fn plan_native_load(
    plugin_id: &str,
    manifest: &DynamicPluginManifest,
    host_version: &str,
) -> (r: Result<NativeLoadTarget, PluginError>)
    ensures
        failure(r) == native_manifest_problem(*manifest, plugin_id@, host_version@),
        r matches Ok(target) ==> declares_target(*manifest, target),
{
    if let Err(e) = check_manifest_identity(manifest, plugin_id) {
        return Err(e);
    }
    if manifest.plugin.kind != DynamicPluginKind::RustDynamic {
        return Err(
            PluginError::InvalidConfig(
                concat5(
                    "dynamic plugin '",
                    plugin_id,
                    "' is kind ",
                    manifest.plugin.kind.as_str(),
                    "; native loader only supports rust_dynamic",
                ),
            ),
        );
    }
    let relay: Option<&str> = match &manifest.compat.relay {
        Some(relay) => Some(relay.as_str()),
        None => None,
    };
    if let Err(e) = validate_dynamic_plugin_relay_compatibility(relay, "native", host_version) {
        return Err(e);
    }
    let native_api: Option<&str> = match &manifest.compat.native_api {
        Some(value) => Some(value.as_str()),
        None => None,
    };
    let supported = match native_api {
        Some(value) => text_eq(trim(value), "1"),
        None => false,
    };
    if !supported {
        let declared = match native_api {
            Some(value) => value,
            None => "",
        };
        return Err(
            PluginError::InvalidConfig(
                concat5(
                    "dynamic plugin '",
                    plugin_id,
                    "' declares unsupported compat.native_api '",
                    declared,
                    "'; expected 1",
                ),
            ),
        );
    }
    match &manifest.load {
        DynamicPluginManifestLoad::Worker(_) => Err(
            PluginError::InvalidConfig(
                concat3(
                    "dynamic plugin '",
                    plugin_id,
                    "' has invalid rust_dynamic load contract",
                ),
            ),
        ),
        DynamicPluginManifestLoad::RustDynamic(load) => {
            match (&load.library, &manifest.compat.relay) {
                (Some(library), Some(relay)) => {
                    let expected_digest = match &manifest.integrity {
                        Some(integrity) => clone_opt(&integrity.sha256),
                        None => None,
                    };
                    Ok(
                        NativeLoadTarget {
                            relay_compat: relay.clone(),
                            library: library.clone(),
                            expected_digest,
                            symbol: clone_opt(&load.symbol),
                        },
                    )
                },
                _ => Err(PluginError::InvalidConfig("load.library is required".to_owned())),
            }
        },
    }
}

/// Where the library that a manifest declares lies.
pub fn native_library_path(manifest_path: &str, target: &NativeLoadTarget) -> (r: String)
    ensures
        resolved_beside(manifest_path@, target.library@, r@),
{
    resolve_manifest_relative_path(manifest_path, target.library.as_str())
}

/// The problem of a library before it is opened: it is missing, its digest is not
/// the declared one, or there is no entry symbol to look for.
pub open spec fn native_library_problem(
    target: NativeLoadTarget,
    path: Seq<char>,
    exists: bool,
    contents: Result<Seq<u8>, Seq<char>>,
) -> Option<ErrorView> {
    if !exists {
        Some(
            (
                PluginErrorKind::NotFound,
                "native plugin library '"@ + path + "' does not exist"@,
            ),
        )
    } else {
        or_else(
            match target.expected_digest {
                Some(declared) => digest_problem(path, contents, declared@),
                None => None,
            },
            if target.symbol is None {
                invalid("load.symbol is required"@)
            } else {
                None
            },
        )
    }
}

/// Checks a library before it is opened and gives the entry symbol. `contents` are
/// its bytes, which matter only where a digest is declared.
pub fn prepare_native_library(
    target: &NativeLoadTarget,
    path: &str,
    exists: bool,
    contents: Result<Vec<u8>, String>,
) -> (r: Result<String, PluginError>)
    ensures
        failure(r) == native_library_problem(
            *target,
            path@,
            exists,
            match contents {
                Ok(bytes) => Ok(bytes@),
                Err(e) => Err(e@),
            },
        ),
        r matches Ok(symbol) ==> target.symbol == Some(symbol),
{
    if !exists {
        return Err(
            PluginError::NotFound(
                concat3("native plugin library '", path, "' does not exist"),
            ),
        );
    }
    if let Some(expected) = &target.expected_digest {
        if let Err(e) = verify_sha256(path, contents, expected.as_str()) {
            return Err(e);
        }
    }
    match &target.symbol {
        Some(symbol) => Ok(symbol.clone()),
        None => Err(PluginError::InvalidConfig("load.symbol is required".to_owned())),
    }
}

/// The error of a library that could not be opened.
pub fn library_open_error(path: &str, detail: &str) -> (r: PluginError)
    ensures
        r@ == (
            PluginErrorKind::Internal,
            "failed to load native plugin library '"@ + path@ + "': "@ + detail@,
        ),
{
    PluginError::Internal(
        concat4("failed to load native plugin library '", path, "': ", detail),
    )
}

/// The error of a library without the entry symbol.
pub fn symbol_missing_error(symbol: &str, path: &str, detail: &str) -> (r: PluginError)
    ensures
        r@ == (
            PluginErrorKind::NotFound,
            "native plugin symbol '"@ + symbol@ + "' not found in '"@ + path@ + "': "@ + detail@,
        ),
{
    let start = concat5("native plugin symbol '", symbol, "' not found in '", path, "': ");
    PluginError::NotFound(concat2(start.as_str(), detail))
}

/// Version of the host function table that an entry symbol is called with.
#[derive(Debug, Clone, Copy, PartialEq, Eq, Structural)]
pub enum NativeAbi {
    /// The current table.
    V4,
    /// The table before pull streams.
    V3,
    /// The table before asynchronous middleware.
    V2,
}

/// What follows an entry symbol's answer.
#[derive(Debug, Clone, Copy, PartialEq, Eq, Structural)]
pub enum EntryStep {
    /// The plugin was created.
    Accepted,
    /// The answer is dropped and an older table is tried.
    Retry(NativeAbi),
    /// Loading fails.
    Failed,
}

/// What follows an entry symbol's answer to a table. An older plugin does not accept
/// a newer table, so the next older one is tried.
pub open spec fn entry_step(tried: NativeAbi, status: NemoRelayStatus) -> EntryStep {
    if status == NemoRelayStatus::Success {
        EntryStep::Accepted
    } else if status == NemoRelayStatus::InvalidArg && tried == NativeAbi::V4 {
        EntryStep::Retry(NativeAbi::V3)
    } else if status == NemoRelayStatus::InvalidArg && tried == NativeAbi::V3 {
        EntryStep::Retry(NativeAbi::V2)
    } else {
        EntryStep::Failed
    }
}

/// Decides what follows an entry symbol's answer to a table.
pub fn negotiate_entry(tried: NativeAbi, status: NemoRelayStatus) -> (r: EntryStep)
    ensures
        r == entry_step(tried, status),
{
    match status {
        NemoRelayStatus::Success => EntryStep::Accepted,
        NemoRelayStatus::InvalidArg => match tried {
            NativeAbi::V4 => EntryStep::Retry(NativeAbi::V3),
            NativeAbi::V3 => EntryStep::Retry(NativeAbi::V2),
            NativeAbi::V2 => EntryStep::Failed,
        },
        _ => EntryStep::Failed,
    }
}

/// The table that an entry symbol ends up with, for its answers to each table in
/// turn.
pub open spec fn negotiated(
    v4: NemoRelayStatus,
    v3: NemoRelayStatus,
    v2: NemoRelayStatus,
) -> Option<NativeAbi> {
    match entry_step(NativeAbi::V4, v4) {
        EntryStep::Accepted => Some(NativeAbi::V4),
        EntryStep::Failed => None,
        EntryStep::Retry(_) => match entry_step(NativeAbi::V3, v3) {
            EntryStep::Accepted => Some(NativeAbi::V3),
            EntryStep::Failed => None,
            EntryStep::Retry(_) => if entry_step(NativeAbi::V2, v2) == EntryStep::Accepted {
                Some(NativeAbi::V2)
            } else {
                None
            },
        },
    }
}

/// A plugin gets the newest table that it accepts, and an older table only after it
/// refused each newer one as an invalid argument; any other failure ends the attempt.
pub proof fn law_newest_accepted_table_wins(
    v4: NemoRelayStatus,
    v3: NemoRelayStatus,
    v2: NemoRelayStatus,
)
    ensures
        v4 == NemoRelayStatus::Success <==> negotiated(v4, v3, v2) == Some(NativeAbi::V4),
        negotiated(v4, v3, v2) == Some(NativeAbi::V3) <==> v4 == NemoRelayStatus::InvalidArg && v3
            == NemoRelayStatus::Success,
        negotiated(v4, v3, v2) == Some(NativeAbi::V2) <==> v4 == NemoRelayStatus::InvalidArg && v3
            == NemoRelayStatus::InvalidArg && v2 == NemoRelayStatus::Success,
{
}

/// The error of an entry symbol that failed: the message that it set, or its status.
pub fn entry_failure(symbol: &str, status: NemoRelayStatus, last_error: &LastError) -> (r:
    PluginError)
    ensures
        r@ == (
            PluginErrorKind::RegistrationFailed,
            "native plugin entry symbol '"@ + symbol@ + "' failed: "@ + message_or(
                last_error@,
                status.name(),
            ),
        ),
{
    let detail = last_error.message_or(status.as_str());
    PluginError::RegistrationFailed(
        concat4("native plugin entry symbol '", symbol, "' failed: ", detail.as_str()),
    )
}

/// What an entry symbol says about the plugin that it created.
#[derive(Debug)]
pub struct NativePluginDescriptor {
    /// Size of the descriptor that the plugin filled in.
    pub struct_size: u64,
    /// Plugin kind, or nothing for a null string.
    pub plugin_kind: Option<NativeString>,
    /// Whether there is a validate callback.
    pub has_validate: bool,
    /// Whether there is a register callback.
    pub has_register: bool,
    /// Whether the kind may occur several times in a configuration.
    pub allows_multiple_components: bool,
}

/// The problem of a descriptor.
pub open spec fn descriptor_problem(
    plugin_id: Seq<char>,
    descriptor: NativePluginDescriptor,
    expected_size: u64,
) -> Option<ErrorView> {
    if descriptor.struct_size < expected_size {
        invalid(
            "native plugin '"@ + plugin_id
                + "' returned incompatible plugin descriptor size "@ + text::decimal(
                descriptor.struct_size as nat,
            ),
        )
    } else if descriptor.plugin_kind is None {
        invalid("native plugin '"@ + plugin_id + "' returned a null plugin_kind"@)
    } else if !descriptor.has_register {
        invalid("native plugin '"@ + plugin_id + "' returned no register callback"@)
    } else {
        None
    }
}

/// Checks what an entry symbol says about its plugin.
pub fn validate_plugin_descriptor(
    plugin_id: &str,
    descriptor: &NativePluginDescriptor,
    expected_size: u64,
) -> (r: Result<(), PluginError>)
    ensures
        failure(r) == descriptor_problem(plugin_id@, *descriptor, expected_size),
{
    if descriptor.struct_size < expected_size {
        let size = format_u64(descriptor.struct_size);
        return Err(
            PluginError::InvalidConfig(
                concat4(
                    "native plugin '",
                    plugin_id,
                    "' returned incompatible plugin descriptor size ",
                    size.as_str(),
                ),
            ),
        );
    }
    if descriptor.plugin_kind.is_none() {
        return Err(
            PluginError::InvalidConfig(
                concat3("native plugin '", plugin_id, "' returned a null plugin_kind"),
            ),
        );
    }
    if !descriptor.has_register {
        return Err(
            PluginError::InvalidConfig(
                concat3("native plugin '", plugin_id, "' returned no register callback"),
            ),
        );
    }
    Ok(())
}

/// A loaded native plugin.
#[derive(Debug)]
pub struct NativePluginInstance {
    /// Plugin kind.
    pub plugin_kind: String,
    /// Declared Relay requirement.
    pub relay_compat: String,
    /// Whether the kind may occur several times in a configuration.
    pub allows_multiple_components: bool,
    /// Whether there is a validate callback.
    pub has_validate: bool,
    /// Whether there is a register callback.
    pub has_register: bool,
}

/// The nullable kind of a descriptor.
pub open spec fn descriptor_kind(descriptor: NativePluginDescriptor) -> Result<
    Seq<char>,
    ErrorView,
> {
    match descriptor.plugin_kind {
        Some(s) => native_text(Some(&s)),
        None => Ok(""@),
    }
}

/// The problem of a created plugin: its descriptor, its kind's text, or a kind that is
/// not the expected one.
pub open spec fn created_plugin_problem(
    plugin_id: Seq<char>,
    descriptor: NativePluginDescriptor,
    expected_size: u64,
) -> Option<ErrorView> {
    or_else(
        descriptor_problem(plugin_id, descriptor, expected_size),
        match descriptor_kind(descriptor) {
            Err(e) => Some(e),
            Ok(kind) => if kind != plugin_id {
                invalid(
                    "native plugin returned kind '"@ + kind + "' but manifest id is '"@
                        + plugin_id + "'"@,
                )
            } else {
                None
            },
        },
    )
}

/// Accepts a created plugin whose descriptor is complete and whose kind is the
/// expected one.
pub fn accept_native_plugin(
    plugin_id: &str,
    relay_compat: &str,
    descriptor: &NativePluginDescriptor,
    expected_size: u64,
) -> (r: Result<NativePluginInstance, PluginError>)
    ensures
        failure(r) == created_plugin_problem(plugin_id@, *descriptor, expected_size),
        r matches Ok(plugin) ==> plugin.plugin_kind@ == plugin_id@ && plugin.relay_compat@
            == relay_compat@ && plugin.allows_multiple_components
            == descriptor.allows_multiple_components && plugin.has_validate
            == descriptor.has_validate && plugin.has_register,
{
    if let Err(e) = validate_plugin_descriptor(plugin_id, descriptor, expected_size) {
        return Err(e);
    }
    let kind: Option<&NativeString> = match &descriptor.plugin_kind {
        Some(s) => Some(s),
        None => None,
    };
    let plugin_kind = match read_native_string(kind) {
        Err(e) => {
            return Err(e);
        },
        Ok(text) => text,
    };
    if !text_eq(plugin_kind.as_str(), plugin_id) {
        return Err(
            PluginError::InvalidConfig(
                concat5(
                    "native plugin returned kind '",
                    plugin_kind.as_str(),
                    "' but manifest id is '",
                    plugin_id,
                    "'",
                ),
            ),
        );
    }
    Ok(
        NativePluginInstance {
            plugin_kind,
            relay_compat: relay_compat.to_owned(),
            allows_multiple_components: descriptor.allows_multiple_components,
            has_validate: descriptor.has_validate,
            has_register: descriptor.has_register,
        },
    )
}

/// Native plugins whose kinds are registered.
///
/// The kinds are deregistered before the libraries are unloaded; the active plugin
/// configuration has to be cleared first, so that no callback outlives its code.
pub struct NativePluginActivation {
    /// Loaded plugins, in load order.
    pub plugins: Vec<NativePluginInstance>,
    /// Kinds and registration identities, in load order.
    pub plugin_registrations: Vec<(String, u64)>,
}

impl NativePluginActivation {
    /// Whether no native plugins were loaded.
    pub fn is_empty(&self) -> (r: bool)
        ensures
            r == (self.plugins@.len() == 0),
    {
        self.plugins.len() == 0
    }

    /// Consumes the activation and deregisters the loaded kinds, last first. A kind
    /// that belongs to a later registration stays.
    pub fn clear(self, handlers: &mut PluginHandlers)
        requires
            old(handlers).wf(),
        ensures
            final(handlers).wf(),
            final(handlers)@ == torn_down(
                old(handlers)@,
                self.plugin_registrations@,
                "native"@,
            ).0,
    {
        let mut registrations = self.plugin_registrations;
        let _ = deregister_tracked_registrations_checked(handlers, &mut registrations, "native");
    }

    /// Deregisters the loaded kinds, last first, and reports each that was missing or
    /// belongs to a later registration.
    pub fn deregister_plugin_kinds_checked(&mut self, handlers: &mut PluginHandlers) -> (r:
        DynamicPluginTeardownOutcome)
        requires
            old(handlers).wf(),
        ensures
            final(handlers).wf(),
            final(self).plugins == old(self).plugins,
            final(self).plugin_registrations@.len() == 0,
            final(handlers)@ == torn_down(
                old(handlers)@,
                old(self).plugin_registrations@,
                "native"@,
            ).0,
            text::texts(r.errors@) == torn_down(
                old(handlers)@,
                old(self).plugin_registrations@,
                "native"@,
            ).1,
            r.safe_to_unload,
    {
        deregister_tracked_registrations_checked(
            handlers,
            &mut self.plugin_registrations,
            "native",
        )
    }
}

/// What loading gave for each plugin: its kind and whether that may occur several times,
/// or the error.
pub open spec fn native_kinds(loaded: Seq<Result<NativePluginInstance, PluginError>>) -> Seq<
    Result<LoadedKind, ErrorView>,
> {
    Seq::new(
        loaded.len(),
        |i: int|
            match loaded[i] {
                Ok(plugin) => Ok((plugin.plugin_kind@, plugin.allows_multiple_components)),
                Err(e) => Err(e@),
            },
    )
}

impl NativePluginActivation {
    /// No native plugins.
    pub fn new() -> (r: Self)
        ensures
            r.plugins@.len() == 0,
            r.plugin_registrations@.len() == 0,
    {
        NativePluginActivation { plugins: Vec::new(), plugin_registrations: Vec::new() }
    }

    /// Registers the kind of a loaded plugin and keeps both.
    pub fn register_loaded(&mut self, handlers: &mut PluginHandlers, plugin: NativePluginInstance)
        -> (r: Result<(), PluginError>)
        requires
            old(handlers).wf(),
        ensures
            final(handlers).wf(),
            failure(r) == external_problem(old(handlers)@, plugin.plugin_kind@),
            r is Err ==> *final(handlers) == *old(handlers) && *final(self) == *old(self),
            r is Ok ==> final(handlers)@ == with_loaded(
                old(handlers)@,
                (plugin.plugin_kind@, plugin.allows_multiple_components),
            ) && final(self).plugins@ == old(self).plugins@.push(plugin) && registration_list(
                final(self).plugin_registrations@,
            ) == registration_list(old(self).plugin_registrations@).push(
                (plugin.plugin_kind@, old(handlers)@.next_id),
            ),
    {
        match register_plugin_tracked(
            handlers,
            plugin.plugin_kind.as_str(),
            plugin.allows_multiple_components,
        ) {
            Err(e) => Err(e),
            Ok(registration_id) => {
                let ghost before = self.plugin_registrations@;
                let kind = plugin.plugin_kind.clone();
                self.plugins.push(plugin);
                self.plugin_registrations.push((kind, registration_id));
                assert(registration_list(self.plugin_registrations@) =~= registration_list(
                    before,
                ).push((kind@, registration_id)));
                Ok(())
            },
        }
    }
}

/// The plugins of a list of results that all succeeded.
pub open spec fn loaded_plugins(
    loaded: Seq<Result<NativePluginInstance, PluginError>>,
) -> Seq<NativePluginInstance> {
    Seq::new(loaded.len(), |i: int| loaded[i]->Ok_0)
}

/// Registers the kinds of loaded native plugins, in order.
///
/// `loaded` holds what loading each plugin gave, up to the first that failed. Where
/// one failed, or its kind is taken, the kinds that were registered before it are
/// deregistered again and the registered kinds are what they were.
pub fn load_native_plugins(
    handlers: &mut PluginHandlers,
    loaded: Vec<Result<NativePluginInstance, PluginError>>,
) -> (r: Result<NativePluginActivation, PluginError>)
    requires
        old(handlers).wf(),
    ensures
        final(handlers).wf(),
        failure(r) == kinds_registered(old(handlers)@, native_kinds(loaded@)).2,
        r matches Ok(activation) ==> final(handlers)@ == kinds_registered(
            old(handlers)@,
            native_kinds(loaded@),
        ).0 && registration_list(activation.plugin_registrations@) == kinds_registered(
            old(handlers)@,
            native_kinds(loaded@),
        ).1 && activation.plugins@ == loaded_plugins(loaded@),
        r is Err ==> final(handlers)@.plugins == old(handlers)@.plugins && final(handlers)@.next_id
            == kinds_registered(old(handlers)@, native_kinds(loaded@)).0.next_id,
{
    let ghost all = loaded@;
    let ghost start = handlers@;
    let ghost kinds = native_kinds(all);
    let mut activation = NativePluginActivation::new();
    let mut remaining = loaded;
    let ghost mut done: int = 0;
    proof {
        assert(kinds.take(0) =~= Seq::empty());
        assert(registration_list(activation.plugin_registrations@) =~= Seq::empty());
        assert(activation.plugins@ =~= loaded_plugins(all.take(0)));
        assert(all.skip(0) =~= all);
    }
    while remaining.len() > 0
        invariant
            handlers.wf(),
            start == old(handlers)@,
            all == loaded@,
            kinds == native_kinds(all),
            0 <= done <= all.len(),
            remaining@ == all.skip(done),
            kinds_registered(start, kinds.take(done)) == (
                handlers@,
                registration_list(activation.plugin_registrations@),
                None::<ErrorView>,
            ),
            activation.plugins@ == loaded_plugins(all.take(done)),
        decreases remaining.len(),
    {
        let next = remaining.remove(0);
        proof {
            assert(next == all[done]);
            assert(remaining@ =~= all.skip(done + 1));
            assert(kinds.take(done + 1).drop_last() =~= kinds.take(done));
            assert(kinds.take(done + 1).last() == kinds[done]);
        }
        match next {
            Err(e) => {
                proof {
                    lemma_kinds_stop(start, kinds, done + 1);
                    lemma_teardown_undoes(
                        start,
                        kinds.take(done),
                        activation.plugin_registrations@,
                        "native"@,
                    );
                }
                activation.clear(handlers);
                return Err(e);
            },
            Ok(plugin) => {
                if let Err(e) = activation.register_loaded(handlers, plugin) {
                    proof {
                        lemma_kinds_stop(start, kinds, done + 1);
                        lemma_teardown_undoes(
                            start,
                            kinds.take(done),
                            activation.plugin_registrations@,
                            "native"@,
                        );
                    }
                    activation.clear(handlers);
                    return Err(e);
                }
                assert(activation.plugins@ =~= loaded_plugins(all.take(done + 1)));
            },
        }
        proof {
            done = done + 1;
        }
    }
    assert(all.take(done) =~= all);
    assert(kinds.take(done) =~= kinds);
    Ok(activation)
}

/// A manifest is loaded as a library exactly where it is that of the plugin, is of the native kind,
/// is compatible with the host, speaks version 1 of the native interface, and declares a library.
pub proof fn law_only_native_manifests_are_loaded(
    m: DynamicPluginManifest,
    plugin_id: Seq<char>,
    host_version: Seq<char>,
)
    ensures
        identity_problem(m, plugin_id) is None <==> trimmed(m.plugin.id@) == plugin_id,
        native_manifest_problem(m, plugin_id, host_version) is None <==> trimmed(m.plugin.id@)
            == plugin_id && m.plugin.kind == DynamicPluginKind::RustDynamic
            && compatibility_problem(opt_text(m.compat.relay), "native"@, host_version) is None
            && m.compat.native_api is Some && trimmed(m.compat.native_api->0@) == "1"@ && (
        m.load matches DynamicPluginManifestLoad::RustDynamic(load) && load.library is Some),
        identity_problem(m, plugin_id) is Some ==> native_manifest_problem(
            m,
            plugin_id,
            host_version,
        ) == identity_problem(m, plugin_id),
{
}

/// What is loaded is what the manifest declares: its library, the entry symbol, and the digest to
/// check it against.
pub proof fn law_declared_libraries_are_loaded(m: DynamicPluginManifest, target: NativeLoadTarget)
    requires
        declares_target(m, target),
    ensures
        m.load is RustDynamic,
        m.load->RustDynamic_0.library == Some(target.library),
        m.load->RustDynamic_0.symbol == target.symbol,
        m.compat.relay == Some(target.relay_compat),
        m.integrity is Some ==> target.expected_digest == m.integrity->0.sha256,
        m.integrity is None ==> target.expected_digest is None,
{
}

/// A library is opened exactly where it exists, has the declared digest where one is declared, and
/// an entry symbol is declared.
pub proof fn law_libraries_are_checked(
    target: NativeLoadTarget,
    path: Seq<char>,
    exists: bool,
    contents: Result<Seq<u8>, Seq<char>>,
)
    ensures
        native_library_problem(target, path, exists, contents) is None <==> exists && (
        target.expected_digest matches Some(declared) ==> digest_problem(
            path,
            contents,
            declared@,
        ) is None) && target.symbol is Some,
        !exists ==> native_library_problem(target, path, exists, contents) == Some(
            (
                PluginErrorKind::NotFound,
                "native plugin library '"@ + path + "' does not exist"@,
            ),
        ),
        exists && (target.expected_digest matches Some(declared) && digest_problem(
            path,
            contents,
            declared@,
        ) is Some) ==> native_library_problem(target, path, exists, contents) == digest_problem(
            path,
            contents,
            target.expected_digest->0@,
        ),
{
}

/// The newest interface is tried first. A plugin that does not know it is tried with the next older
/// one; any other failure is final, and there is none older than version 2.
pub proof fn law_interfaces_are_tried_newest_first(tried: NativeAbi, status: NemoRelayStatus)
    ensures
        entry_step(tried, NemoRelayStatus::Success) == EntryStep::Accepted,
        entry_step(NativeAbi::V4, NemoRelayStatus::InvalidArg) == EntryStep::Retry(NativeAbi::V3),
        entry_step(NativeAbi::V3, NemoRelayStatus::InvalidArg) == EntryStep::Retry(NativeAbi::V2),
        entry_step(NativeAbi::V2, NemoRelayStatus::InvalidArg) == EntryStep::Failed,
        status != NemoRelayStatus::Success && status != NemoRelayStatus::InvalidArg ==> entry_step(
            tried,
            status,
        ) == EntryStep::Failed,
{
}

/// A plugin is taken exactly where its descriptor is large enough, says its kind, which is the
/// plugin's identifier, and has a callback to register with.
pub proof fn law_descriptors_are_complete(
    plugin_id: Seq<char>,
    descriptor: NativePluginDescriptor,
    expected_size: u64,
)
    ensures
        created_plugin_problem(plugin_id, descriptor, expected_size) is None
            <==> descriptor.struct_size >= expected_size && descriptor.plugin_kind is Some
            && descriptor.has_register && native_text(Some(&descriptor.plugin_kind->0)) == Ok::<
            Seq<char>,
            ErrorView,
        >(plugin_id),
        descriptor.struct_size < expected_size ==> created_plugin_problem(
            plugin_id,
            descriptor,
            expected_size,
        ) is Some,
        descriptor_problem(plugin_id, descriptor, expected_size) matches Some(e) ==> e.0
            == PluginErrorKind::InvalidConfig,
{
}

/// What is told where a manifest is not loaded as a library.
pub proof fn law_unloadable_manifests_are_told(m: DynamicPluginManifest, plugin_id: Seq<char>)
    ensures
        trimmed(m.plugin.id@) != plugin_id ==> identity_problem(m, plugin_id) == Some(
            (
                PluginErrorKind::InvalidConfig,
                "dynamic plugin manifest id '"@ + m.plugin.id@ + "' does not match expected id '"@
                    + plugin_id + "'"@,
            ),
        ),
        m.plugin.kind == DynamicPluginKind::Worker ==> native_lane_problem(m, plugin_id) == Some(
            (
                PluginErrorKind::InvalidConfig,
                "dynamic plugin '"@ + plugin_id + "' is kind "@ + m.plugin.kind.label()
                    + "; native loader only supports rust_dynamic"@,
            ),
        ),
        m.compat.native_api is None ==> native_contract_problem(m, plugin_id) == Some(
            (
                PluginErrorKind::InvalidConfig,
                "dynamic plugin '"@ + plugin_id + "' declares unsupported compat.native_api '"@
                    + ""@ + "'; expected 1"@,
            ),
        ),
        (m.compat.native_api matches Some(api) && trimmed(api@) != "1"@) ==> native_contract_problem(
            m,
            plugin_id,
        ) == Some(
            (
                PluginErrorKind::InvalidConfig,
                "dynamic plugin '"@ + plugin_id + "' declares unsupported compat.native_api '"@
                    + m.compat.native_api->0@ + "'; expected 1"@,
            ),
        ),
        (m.compat.native_api matches Some(api) && trimmed(api@) == "1"@) && m.load is Worker
            ==> native_contract_problem(m, plugin_id) == Some(
            (
                PluginErrorKind::InvalidConfig,
                "dynamic plugin '"@ + plugin_id + "' has invalid rust_dynamic load contract"@,
            ),
        ),
        (m.compat.native_api matches Some(api) && trimmed(api@) == "1"@) && (m.load matches
            DynamicPluginManifestLoad::RustDynamic(load) && load.library is None)
            ==> native_contract_problem(m, plugin_id) == Some(
            (PluginErrorKind::InvalidConfig, "load.library is required"@),
        ),
{
}

/// What is told of a library or a descriptor that is not taken.
pub proof fn law_unusable_libraries_are_told(
    target: NativeLoadTarget,
    path: Seq<char>,
    contents: Result<Seq<u8>, Seq<char>>,
    plugin_id: Seq<char>,
    descriptor: NativePluginDescriptor,
    expected_size: u64,
    kind: Seq<char>,
)
    ensures
        target.expected_digest is None && target.symbol is None ==> native_library_problem(
            target,
            path,
            true,
            contents,
        ) == Some((PluginErrorKind::InvalidConfig, "load.symbol is required"@)),
        descriptor.struct_size < expected_size ==> descriptor_problem(
            plugin_id,
            descriptor,
            expected_size,
        ) == Some(
            (
                PluginErrorKind::InvalidConfig,
                "native plugin '"@ + plugin_id
                    + "' returned incompatible plugin descriptor size "@ + text::decimal(
                    descriptor.struct_size as nat,
                ),
            ),
        ),
        descriptor.struct_size >= expected_size && descriptor.plugin_kind is None
            ==> descriptor_problem(plugin_id, descriptor, expected_size) == Some(
            (
                PluginErrorKind::InvalidConfig,
                "native plugin '"@ + plugin_id + "' returned a null plugin_kind"@,
            ),
        ),
        descriptor.struct_size >= expected_size && descriptor.plugin_kind is Some
            && !descriptor.has_register ==> descriptor_problem(plugin_id, descriptor, expected_size)
            == Some(
            (
                PluginErrorKind::InvalidConfig,
                "native plugin '"@ + plugin_id + "' returned no register callback"@,
            ),
        ),
        descriptor.struct_size >= expected_size && descriptor.plugin_kind is Some
            && descriptor.has_register && native_text(Some(&descriptor.plugin_kind->0)) == Ok::<
            Seq<char>,
            ErrorView,
        >(kind) && kind != plugin_id ==> created_plugin_problem(
            plugin_id,
            descriptor,
            expected_size,
        ) == Some(
            (
                PluginErrorKind::InvalidConfig,
                "native plugin returned kind '"@ + kind + "' but manifest id is '"@ + plugin_id
                    + "'"@,
            ),
        ),
{
}

/// Plugins are registered under the kind that they have, in the order in which they were loaded.
pub proof fn law_loaded_plugins_are_registered(
    loaded: Seq<Result<NativePluginInstance, PluginError>>,
    i: int,
)
    requires
        0 <= i < loaded.len(),
    ensures
        native_kinds(loaded).len() == loaded.len(),
        loaded[i] matches Ok(plugin) ==> native_kinds(loaded)[i] == Ok::<LoadedKind, ErrorView>(
            (plugin.plugin_kind@, plugin.allows_multiple_components),
        ) && loaded_plugins(loaded)[i] == plugin,
        loaded[i] matches Err(e) ==> native_kinds(loaded)[i] == Err::<LoadedKind, ErrorView>(e@),
{
}

} // verus!
