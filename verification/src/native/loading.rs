//! Loading of one native plugin: what the host does with its library, in order.
//!
//! The host looks at the library, opens it and calls its entry symbol; each outcome is handed
//! to [`NativeLoading::take`], which says what to do next.

use vstd::prelude::*;

use crate::dynamic::manifest::DynamicPluginManifest;
use crate::error::{failure, ErrorView, PluginError, PluginErrorKind};
use crate::native::load::{
    accept_native_plugin, created_plugin_problem, declares_target, entry_failure, entry_step,
    library_open_error, native_library_path, native_library_problem, native_manifest_problem,
    negotiate_entry, plan_native_load, prepare_native_library, symbol_missing_error, EntryStep,
    NativeAbi, NativeLoadTarget, NativePluginDescriptor, NativePluginInstance,
};
use crate::native::status::{message_or, LastError, NemoRelayStatus};
use crate::paths::resolved_beside;

verus! {

/// How far the loading of a native plugin is.
pub enum LoadingStage {
    /// The library is to be looked at.
    Library,
    /// The library is to be opened, for the given entry symbol.
    Opening(String),
    /// The entry symbol was called with a host table.
    Entering(String, NativeAbi),
    /// The plugin was created and is to be described.
    Describing,
    /// The loading is over.
    Over,
}

/// Something that happens while a native plugin is loaded.
pub enum LoadingEvent {
    /// Whether the library exists, and its bytes, which matter only where a digest is
    /// declared.
    Library(bool, Result<Vec<u8>, String>),
    /// What opening the library came to.
    Opened(Result<(), String>),
    /// The library has no such entry symbol, with the reason.
    SymbolMissing(String),
    /// What the entry symbol answered, and the message of the last failed call.
    Entered(NemoRelayStatus, LastError),
    /// What the entry symbol says about its plugin, and the size that a descriptor has.
    Described(NativePluginDescriptor, u64),
}

/// What the host does next while a native plugin is loaded.
pub enum LoadingAction {
    /// Nothing, as nobody asked for the event.
    Ignore,
    /// Open the library.
    Open,
    /// Call the entry symbol with a host table.
    Enter(NativeAbi),
    /// Drop the descriptor that was filled in and call the entry symbol with an older table.
    Reenter(NativeAbi),
    /// Read the descriptor.
    Describe,
    /// Go on with the plugin.
    Ready(NativePluginInstance),
    /// Fail.
    Fail(PluginError),
    /// Drop the descriptor that was filled in and fail.
    DropAndFail(PluginError),
}

/// The loading of one native plugin.
pub struct NativeLoading {
    /// Plugin identity.
    pub plugin_id: String,
    /// What the manifest says about the library.
    pub target: NativeLoadTarget,
    /// Where the library lies.
    pub path: String,
    /// How far the loading is.
    pub stage: LoadingStage,
}

/// Whether a stage waits for an event.
pub open spec fn loading_awaits(stage: LoadingStage, event: LoadingEvent) -> bool {
    match event {
        LoadingEvent::Library(_, _) => stage is Library,
        LoadingEvent::Opened(_) => stage is Opening,
        LoadingEvent::SymbolMissing(_) => stage is Entering,
        LoadingEvent::Entered(_, _) => stage is Entering,
        LoadingEvent::Described(_, _) => stage is Describing,
    }
}

/// What the bytes of a library are.
pub open spec fn library_bytes(contents: Result<Vec<u8>, String>) -> Result<Seq<u8>, Seq<char>> {
    match contents {
        Ok(bytes) => Ok(bytes@),
        Err(e) => Err(e@),
    }
}

/// The problem that an awaited event brings.
pub open spec fn loading_problem(loading: NativeLoading, event: LoadingEvent) -> Option<ErrorView> {
    match event {
        LoadingEvent::Library(exists, contents) => native_library_problem(
            loading.target,
            loading.path@,
            exists,
            library_bytes(contents),
        ),
        LoadingEvent::Opened(opened) => match opened {
            Ok(()) => None,
            Err(e) => Some(
                (
                    PluginErrorKind::Internal,
                    "failed to load native plugin library '"@ + loading.path@ + "': "@ + e@,
                ),
            ),
        },
        LoadingEvent::SymbolMissing(e) => Some(
            (
                PluginErrorKind::NotFound,
                "native plugin symbol '"@ + loading.stage->Entering_0@ + "' not found in '"@
                    + loading.path@ + "': "@ + e@,
            ),
        ),
        LoadingEvent::Entered(status, last_error) => if entry_step(
            loading.stage->Entering_1,
            status,
        ) == EntryStep::Failed {
            Some(
                (
                    PluginErrorKind::RegistrationFailed,
                    "native plugin entry symbol '"@ + loading.stage->Entering_0@ + "' failed: "@
                        + message_or(last_error@, status.name()),
                ),
            )
        } else {
            None
        },
        LoadingEvent::Described(descriptor, expected_size) => created_plugin_problem(
            loading.plugin_id@,
            descriptor,
            expected_size,
        ),
    }
}

/// Whether an entry symbol has filled in a descriptor when an event comes.
pub open spec fn holds_descriptor(event: LoadingEvent) -> bool {
    event is Entered || event is Described
}

/// What an awaited event without a problem leads to.
pub open spec fn loading_advances(
    loading: NativeLoading,
    event: LoadingEvent,
    stage: LoadingStage,
    action: LoadingAction,
) -> bool {
    match event {
        LoadingEvent::Library(_, _) => {
            &&& action is Open
            &&& stage matches LoadingStage::Opening(symbol)
            &&& loading.target.symbol == Some(symbol)
        },
        LoadingEvent::Opened(_) => stage == LoadingStage::Entering(
            loading.stage->Opening_0,
            NativeAbi::V4,
        ) && action == LoadingAction::Enter(NativeAbi::V4),
        LoadingEvent::SymbolMissing(_) => false,
        LoadingEvent::Entered(status, _) => match entry_step(loading.stage->Entering_1, status) {
            EntryStep::Accepted => stage is Describing && action is Describe,
            EntryStep::Retry(older) => stage == LoadingStage::Entering(
                loading.stage->Entering_0,
                older,
            ) && action == LoadingAction::Reenter(older),
            EntryStep::Failed => false,
        },
        LoadingEvent::Described(descriptor, _) => {
            &&& stage is Over
            &&& action matches LoadingAction::Ready(plugin)
            &&& plugin.plugin_kind@ == loading.plugin_id@
            &&& plugin.relay_compat@ == loading.target.relay_compat@
            &&& plugin.allows_multiple_components == descriptor.allows_multiple_components
            &&& plugin.has_validate == descriptor.has_validate
            &&& plugin.has_register
        },
    }
}

/// What an event leads to: the next stage and what the host does.
pub open spec fn loading_moves(
    loading: NativeLoading,
    event: LoadingEvent,
    stage: LoadingStage,
    action: LoadingAction,
) -> bool {
    if !loading_awaits(loading.stage, event) {
        stage == loading.stage && action is Ignore
    } else {
        match loading_problem(loading, event) {
            Some(e) => stage is Over && (if holds_descriptor(event) {
                action matches LoadingAction::DropAndFail(given) && given@ == e
            } else {
                action matches LoadingAction::Fail(given) && given@ == e
            }),
            None => loading_advances(loading, event, stage, action),
        }
    }
}

/// Goes to a stage, and does what that asks for.
fn go(stage: LoadingStage, action: LoadingAction) -> (r: (LoadingStage, LoadingAction))
    ensures
        r == (stage, action),
{
    (stage, action)
}

impl NativeLoading {
    /// Begins the loading of a native plugin by its manifest.
    pub fn begin(
        plugin_id: String,
        manifest: &DynamicPluginManifest,
        manifest_path: &str,
        host_version: &str,
    ) -> (r: Result<Self, PluginError>)
        ensures
            failure(r) == native_manifest_problem(*manifest, plugin_id@, host_version@),
            r matches Ok(loading) ==> loading.plugin_id == plugin_id && declares_target(
                *manifest,
                loading.target,
            ) && resolved_beside(manifest_path@, loading.target.library@, loading.path@)
                && loading.stage is Library,
    {
        match plan_native_load(plugin_id.as_str(), manifest, host_version) {
            Err(e) => Err(e),
            Ok(target) => {
                let path = native_library_path(manifest_path, &target);
                Ok(NativeLoading { plugin_id, target, path, stage: LoadingStage::Library })
            },
        }
    }

    /// Whether the library has to be read: only where a digest is declared.
    pub fn reads_library(&self) -> (r: bool)
        ensures
            r == (self.target.expected_digest is Some),
    {
        self.target.expected_digest.is_some()
    }

    /// Takes what happened, and says what to do next. Once the loading is over, nothing more
    /// is done.
    pub fn take(self, event: LoadingEvent) -> (r: (Self, LoadingAction))
        ensures
            r.0.plugin_id == self.plugin_id,
            r.0.target == self.target,
            r.0.path == self.path,
            loading_moves(self, event, r.0.stage, r.1),
    {
        let NativeLoading { plugin_id, target, path, stage } = self;
        let (stage, action) = match (stage, event) {
            (LoadingStage::Library, LoadingEvent::Library(exists, contents)) => {
                match prepare_native_library(&target, path.as_str(), exists, contents) {
                    Err(e) => go(LoadingStage::Over, LoadingAction::Fail(e)),
                    Ok(symbol) => go(LoadingStage::Opening(symbol), LoadingAction::Open),
                }
            },
            (LoadingStage::Opening(symbol), LoadingEvent::Opened(opened)) => match opened {
                Err(e) => go(
                    LoadingStage::Over,
                    LoadingAction::Fail(library_open_error(path.as_str(), e.as_str())),
                ),
                Ok(()) => go(
                    LoadingStage::Entering(symbol, NativeAbi::V4),
                    LoadingAction::Enter(NativeAbi::V4),
                ),
            },
            (LoadingStage::Entering(symbol, _), LoadingEvent::SymbolMissing(e)) => {
                let missing = symbol_missing_error(symbol.as_str(), path.as_str(), e.as_str());
                go(LoadingStage::Over, LoadingAction::Fail(missing))
            },
            (LoadingStage::Entering(symbol, tried), LoadingEvent::Entered(status, last_error)) => {
                match negotiate_entry(tried, status) {
                    EntryStep::Accepted => go(LoadingStage::Describing, LoadingAction::Describe),
                    EntryStep::Retry(older) => go(
                        LoadingStage::Entering(symbol, older),
                        LoadingAction::Reenter(older),
                    ),
                    EntryStep::Failed => {
                        let failed = entry_failure(symbol.as_str(), status, &last_error);
                        go(LoadingStage::Over, LoadingAction::DropAndFail(failed))
                    },
                }
            },
            (LoadingStage::Describing, LoadingEvent::Described(descriptor, expected_size)) => {
                match accept_native_plugin(
                    plugin_id.as_str(),
                    target.relay_compat.as_str(),
                    &descriptor,
                    expected_size,
                ) {
                    Err(e) => go(LoadingStage::Over, LoadingAction::DropAndFail(e)),
                    Ok(plugin) => go(LoadingStage::Over, LoadingAction::Ready(plugin)),
                }
            },
            (stage, _) => go(stage, LoadingAction::Ignore),
        };
        (NativeLoading { plugin_id, target, path, stage }, action)
    }
}

/// A library is opened only where it exists, has the declared digest and an entry symbol is
/// declared for it.
pub proof fn law_unchecked_libraries_stay_closed(
    loading: NativeLoading,
    event: LoadingEvent,
    stage: LoadingStage,
)
    requires
        loading_moves(loading, event, stage, LoadingAction::Open),
    ensures
        event matches LoadingEvent::Library(exists, contents) && native_library_problem(
            loading.target,
            loading.path@,
            exists,
            library_bytes(contents),
        ) is None,
{
}

/// A descriptor that an entry symbol filled in is kept only for a plugin that goes on: it is
/// dropped before every further call of the symbol and with every later failure.
pub proof fn law_rejected_descriptors_are_dropped(
    loading: NativeLoading,
    event: LoadingEvent,
    stage: LoadingStage,
    action: LoadingAction,
)
    requires
        loading_awaits(loading.stage, event),
        holds_descriptor(event),
        loading_moves(loading, event, stage, action),
    ensures
        action is Reenter || action is DropAndFail || action is Describe || action is Ready,
        action is Ready ==> event is Described,
{
}

/// A loading that is over stays over, whatever else happens.
pub proof fn law_finished_loading_does_nothing(
    loading: NativeLoading,
    event: LoadingEvent,
    stage: LoadingStage,
    action: LoadingAction,
)
    requires
        loading.stage is Over,
        loading_moves(loading, event, stage, action),
    ensures
        stage is Over,
        action is Ignore,
{
}

/// A library is looked at, opened, entered with the newest interface and asked for its descriptor,
/// in this order; each step follows the one before where that went well.
pub proof fn law_libraries_are_loaded_in_order(
    loading: NativeLoading,
    event: LoadingEvent,
    stage: LoadingStage,
    action: LoadingAction,
)
    requires
        loading_moves(loading, event, stage, action),
    ensures
        action is Open ==> loading.stage is Library && event is Library,
        action is Enter ==> loading.stage is Opening && event is Opened && action
            == LoadingAction::Enter(NativeAbi::V4),
        action is Reenter ==> loading.stage is Entering && event is Entered,
        action is Describe ==> loading.stage is Entering && (event matches LoadingEvent::Entered(
            status,
            _,
        ) && status == NemoRelayStatus::Success),
        action is Ready ==> loading.stage is Describing && event is Described,
        loading.stage is Opening && (event matches LoadingEvent::Opened(Ok(_))) ==> action
            == LoadingAction::Enter(NativeAbi::V4),
        loading.stage is Opening && (event matches LoadingEvent::Opened(Err(_))) ==> action is Fail
            && action->Fail_0@ == (
            PluginErrorKind::Internal,
            "failed to load native plugin library '"@ + loading.path@ + "': "@
                + event->Opened_0->Err_0@,
        ),
        loading.stage is Entering && (event matches LoadingEvent::Entered(status, _) && status
            == NemoRelayStatus::Success) ==> action is Describe && stage is Describing,
        loading.stage is Entering && (event matches LoadingEvent::SymbolMissing(_)) ==> action
            is Fail && (action->Fail_0@).0 == PluginErrorKind::NotFound && stage is Over,
        loading.stage is Describing && (event matches LoadingEvent::Described(descriptor, size)
            && created_plugin_problem(loading.plugin_id@, descriptor, size) is None) ==> action
            is Ready && action->Ready_0.plugin_kind@ == loading.plugin_id@
            && action->Ready_0.relay_compat@ == loading.target.relay_compat@,
        loading.stage is Describing && (event matches LoadingEvent::Described(descriptor, size)
            && created_plugin_problem(loading.plugin_id@, descriptor, size) is Some) ==> action
            is DropAndFail,
{
}

} // verus!
