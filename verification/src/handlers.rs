//! Registry of plugin kinds.

use vstd::prelude::*;

use crate::dynamic::teardown::DynamicPluginTeardownOutcome;
use crate::error::{self, ErrorView, PluginError, PluginErrorKind};
use crate::text::{self, concat4, concat5};
use crate::text_map::{entry_keys, TextMap};

verus! {

/// Who a plugin kind belongs to.
#[derive(Debug, Clone, Copy, PartialEq, Eq, Structural)]
pub enum PluginRegistrationOwner {
    /// Provided by the host itself.
    Builtin,
    /// Registered by an application or binding.
    External,
}

/// What removing a registration found.
#[derive(Debug, Clone, Copy, PartialEq, Eq, Structural)]
pub enum PluginDeregistrationOutcome {
    /// The registration was removed.
    Removed,
    /// The kind was not registered.
    Missing,
    /// The kind belongs to a later registration, which stays.
    Replaced,
}

/// What the registry knows of a registered plugin kind.
#[derive(Debug, Clone, Copy, PartialEq, Eq, Structural)]
pub struct RegisteredPlugin {
    /// Identity of the registration.
    pub registration_id: u64,
    /// Who the kind belongs to.
    pub owner: PluginRegistrationOwner,
    /// Whether the kind may occur several times in a configuration.
    pub allows_multiple_components: bool,
}

/// A plugin kind that the host provides itself.
#[derive(Debug)]
pub struct BuiltinPlugin {
    /// Plugin kind.
    pub kind: String,
    /// Whether the kind may occur several times in a configuration.
    pub allows_multiple_components: bool,
}

/// The registered plugin kinds.
pub struct PluginHandlers {
    /// Registrations by kind.
    pub plugins: TextMap<RegisteredPlugin>,
    /// Identity of the next registration.
    pub next_registration_id: u64,
}

/// The mathematical form of the registry: registrations by kind, and the next
/// identity.
pub ghost struct HandlersView {
    /// Registrations by kind.
    pub plugins: Map<Seq<char>, RegisteredPlugin>,
    /// Identity of the next registration.
    pub next_id: u64,
}

impl View for PluginHandlers {
    type V = HandlersView;

    open spec fn view(&self) -> HandlersView {
        HandlersView { plugins: self.plugins@, next_id: self.next_registration_id }
    }
}

impl PluginHandlers {
    /// Whether the kinds are kept in order.
    pub open spec fn wf(self) -> bool {
        self.plugins.ordered()
    }

    /// A registry without plugin kinds.
    pub fn new() -> (r: Self)
        ensures
            r.wf(),
            r@ == (HandlersView { plugins: Map::empty(), next_id: 1 }),
    {
        PluginHandlers { plugins: TextMap::new(), next_registration_id: 1 }
    }
}

/// The error for a kind that is registered already.
pub open spec fn already_registered_error(
    kind: Seq<char>,
    owner: PluginRegistrationOwner,
) -> ErrorView {
    let ownership = if owner == PluginRegistrationOwner::Builtin {
        "reserved builtin "@
    } else {
        ""@
    };
    (
        PluginErrorKind::RegistrationFailed,
        ownership + "plugin '"@ + kind + "' is already registered"@,
    )
}

/// The identity after a registration.
pub open spec fn next_identity(id: u64) -> u64 {
    if id < u64::MAX {
        (id + 1) as u64
    } else {
        0
    }
}

/// The registry with a new registration.
pub open spec fn with_plugin(
    handlers: HandlersView,
    kind: Seq<char>,
    allows_multiple_components: bool,
    owner: PluginRegistrationOwner,
) -> HandlersView {
    HandlersView {
        plugins: handlers.plugins.insert(
            kind,
            RegisteredPlugin {
                registration_id: handlers.next_id,
                owner,
                allows_multiple_components,
            },
        ),
        next_id: next_identity(handlers.next_id),
    }
}

/// The error of a kind that is registered already.
pub fn plugin_already_registered_error(plugin_kind: &str, owner: PluginRegistrationOwner) -> (r:
    PluginError)
    ensures
        r@ == already_registered_error(plugin_kind@, owner),
{
    let ownership = if owner == PluginRegistrationOwner::Builtin {
        "reserved builtin "
    } else {
        ""
    };
    PluginError::RegistrationFailed(
        concat4(ownership, "plugin '", plugin_kind, "' is already registered"),
    )
}

impl PluginHandlers {
    /// Registers a kind for an owner and returns the registration's identity. A
    /// builtin that is registered as such already keeps its registration.
    pub fn register_plugin_with_owner(
        &mut self,
        plugin_kind: &str,
        allows_multiple_components: bool,
        owner: PluginRegistrationOwner,
    ) -> (r: Result<u64, PluginError>)
        requires
            old(self).wf(),
        ensures
            final(self).wf(),
            !old(self)@.plugins.contains_key(plugin_kind@) ==> r == Ok::<u64, PluginError>(
                old(self).next_registration_id,
            ) && final(self)@ == with_plugin(
                old(self)@,
                plugin_kind@,
                allows_multiple_components,
                owner,
            ),
            old(self)@.plugins.contains_key(plugin_kind@) ==> {
                let existing = old(self)@.plugins[plugin_kind@];
                &&& *final(self) == *old(self)
                &&& if owner == PluginRegistrationOwner::Builtin && existing.owner
                    == PluginRegistrationOwner::Builtin {
                    r == Ok::<u64, PluginError>(existing.registration_id)
                } else {
                    error::failure(r) == Some(already_registered_error(plugin_kind@, owner))
                }
            },
    {
        if let Some(existing) = self.plugins.get(plugin_kind) {
            if owner == PluginRegistrationOwner::Builtin && existing.owner
                == PluginRegistrationOwner::Builtin {
                return Ok(existing.registration_id);
            }
            return Err(plugin_already_registered_error(plugin_kind, owner));
        }
        let registration_id = self.next_registration_id;
        self.next_registration_id = if registration_id < u64::MAX {
            registration_id + 1
        } else {
            0
        };
        self.plugins.insert(
            plugin_kind.to_owned(),
            RegisteredPlugin { registration_id, owner, allows_multiple_components },
        );
        Ok(registration_id)
    }

    /// Registers a builtin kind; one that is registered as such already stays.
    pub fn register_builtin_plugin(&mut self, plugin_kind: &str, allows_multiple_components: bool)
        -> (r: Result<(), PluginError>)
        requires
            old(self).wf(),
        ensures
            final(self).wf(),
            error::failure(r) == builtin_problem(old(self)@, plugin_kind@),
            final(self)@ == with_builtin(
                old(self)@,
                plugin_kind@,
                allows_multiple_components,
            ),
            r is Err ==> *final(self) == *old(self),
    {
        match self.register_plugin_with_owner(
            plugin_kind,
            allows_multiple_components,
            PluginRegistrationOwner::Builtin,
        ) {
            Ok(_) => Ok(()),
            Err(e) => Err(e),
        }
    }

    /// Whether every builtin kind is registered as such.
    pub fn all_builtins_registered(&self, builtins: &Vec<BuiltinPlugin>) -> (r: bool)
        ensures
            r == all_builtin(self@, builtin_kinds(builtins@)),
    {
        let mut i: usize = 0;
        while i < builtins.len()
            invariant
                i <= builtins.len(),
                forall|j: int|
                    0 <= j < i ==> is_builtin(self@, #[trigger] builtin_kinds(builtins@)[j]),
            decreases builtins.len() - i,
        {
            let registered = match self.plugins.get(builtins[i].kind.as_str()) {
                Some(plugin) => plugin.owner == PluginRegistrationOwner::Builtin,
                None => false,
            };
            assert(builtin_kinds(builtins@)[i as int] == builtins@[i as int].kind@);
            if !registered {
                return false;
            }
            i += 1;
        }
        true
    }

    /// Removes a kind, and says whether it was registered.
    pub fn deregister_plugin(&mut self, plugin_kind: &str) -> (r: bool)
        requires
            old(self).wf(),
        ensures
            final(self).wf(),
            r == old(self)@.plugins.contains_key(plugin_kind@),
            final(self)@ == (HandlersView {
                plugins: old(self)@.plugins.remove(plugin_kind@),
                ..old(self)@
            }),
    {
        self.plugins.remove(plugin_kind).is_some()
    }

    /// Removes a kind where it still belongs to a given registration.
    pub fn deregister_plugin_registration_checked(
        &mut self,
        plugin_kind: &str,
        expected_registration_id: u64,
    ) -> (r: PluginDeregistrationOutcome)
        requires
            old(self).wf(),
        ensures
            final(self).wf(),
            r == deregistration_outcome(old(self)@, plugin_kind@, expected_registration_id),
            final(self)@ == without_registration(
                old(self)@,
                plugin_kind@,
                expected_registration_id,
            ),
            r != PluginDeregistrationOutcome::Removed ==> *final(self) == *old(self),
    {
        let current = match self.plugins.get(plugin_kind) {
            Some(plugin) => Some(plugin.registration_id),
            None => None,
        };
        match current {
            Some(id) => if id == expected_registration_id {
                let _ = self.plugins.remove(plugin_kind);
                PluginDeregistrationOutcome::Removed
            } else {
                PluginDeregistrationOutcome::Replaced
            },
            None => PluginDeregistrationOutcome::Missing,
        }
    }

    /// The registered kinds, in order.
    pub fn kinds(&self) -> (r: Vec<String>)
        ensures
            text::texts(r@) == entry_keys(self.plugins.entries@),
    {
        let mut out: Vec<String> = Vec::new();
        let mut i: usize = 0;
        let ghost keys = entry_keys(self.plugins.entries@);
        assert(text::texts(out@) =~= keys.take(0));
        while i < self.plugins.entries.len()
            invariant
                i <= self.plugins.entries.len(),
                keys == entry_keys(self.plugins.entries@),
                text::texts(out@) == keys.take(i as int),
            decreases self.plugins.entries.len() - i,
        {
            let ghost before = out@;
            out.push(self.plugins.entries[i].0.clone());
            assert(text::texts(out@) =~= text::texts(before).push(keys[i as int]));
            assert(keys.take(i + 1) =~= keys.take(i as int).push(keys[i as int]));
            i += 1;
        }
        assert(keys.take(keys.len() as int) =~= keys);
        out
    }
}

/// Whether a kind is registered as a builtin.
pub open spec fn is_builtin(handlers: HandlersView, kind: Seq<char>) -> bool {
    handlers.plugins.contains_key(kind) && handlers.plugins[kind].owner
        == PluginRegistrationOwner::Builtin
}

/// What registering a builtin kind is refused with.
pub open spec fn builtin_problem(handlers: HandlersView, kind: Seq<char>) -> Option<ErrorView> {
    if handlers.plugins.contains_key(kind) && !is_builtin(handlers, kind) {
        Some(already_registered_error(kind, PluginRegistrationOwner::Builtin))
    } else {
        None
    }
}

/// The registry after registering a builtin kind.
pub open spec fn with_builtin(
    handlers: HandlersView,
    kind: Seq<char>,
    allows_multiple_components: bool,
) -> HandlersView {
    if handlers.plugins.contains_key(kind) {
        handlers
    } else {
        with_plugin(handlers, kind, allows_multiple_components, PluginRegistrationOwner::Builtin)
    }
}

/// The kinds of a list of builtins.
pub open spec fn builtin_kinds(builtins: Seq<BuiltinPlugin>) -> Seq<Seq<char>> {
    Seq::new(builtins.len(), |i: int| builtins[i].kind@)
}

/// Whether every kind of a list is registered as a builtin.
pub open spec fn all_builtin(handlers: HandlersView, kinds: Seq<Seq<char>>) -> bool {
    forall|i: int| 0 <= i < kinds.len() ==> is_builtin(handlers, #[trigger] kinds[i])
}

/// What registering the first builtins of a list in order leads to: the registry,
/// and the problem that it stopped at.
pub open spec fn builtins_registered(
    handlers: HandlersView,
    builtins: Seq<BuiltinPlugin>,
) -> (HandlersView, Option<ErrorView>)
    decreases builtins.len(),
{
    if builtins.len() == 0 {
        (handlers, None)
    } else {
        let (before, problem) = builtins_registered(handlers, builtins.drop_last());
        let last = builtins.last();
        match problem {
            Some(e) => (before, Some(e)),
            None => (
                with_builtin(before, last.kind@, last.allows_multiple_components),
                builtin_problem(before, last.kind@),
            ),
        }
    }
}

/// What removing a registration finds.
pub open spec fn deregistration_outcome(
    handlers: HandlersView,
    kind: Seq<char>,
    id: u64,
) -> PluginDeregistrationOutcome {
    if !handlers.plugins.contains_key(kind) {
        PluginDeregistrationOutcome::Missing
    } else if handlers.plugins[kind].registration_id == id {
        PluginDeregistrationOutcome::Removed
    } else {
        PluginDeregistrationOutcome::Replaced
    }
}

/// The registry without a registration.
pub open spec fn without_registration(
    handlers: HandlersView,
    kind: Seq<char>,
    id: u64,
) -> HandlersView {
    if deregistration_outcome(handlers, kind, id) == PluginDeregistrationOutcome::Removed {
        HandlersView { plugins: handlers.plugins.remove(kind), ..handlers }
    } else {
        handlers
    }
}

/// Registers a plugin kind with the plugin registry.
///
/// Registered plugins can then participate in validation and initialization of
/// configuration documents; registering the same kind twice is refused.
pub fn register_plugin(
    handlers: &mut PluginHandlers,
    plugin_kind: &str,
    allows_multiple_components: bool,
) -> (r: Result<(), PluginError>)
    requires
        old(handlers).wf(),
    ensures
        final(handlers).wf(),
        error::failure(r) == external_problem(old(handlers)@, plugin_kind@),
        r is Err ==> *final(handlers) == *old(handlers),
        r is Ok ==> final(handlers)@ == with_plugin(
            old(handlers)@,
            plugin_kind@,
            allows_multiple_components,
            PluginRegistrationOwner::External,
        ),
{
    match register_plugin_tracked(handlers, plugin_kind, allows_multiple_components) {
        Ok(_) => Ok(()),
        Err(e) => Err(e),
    }
}

/// What registering an external kind is refused with.
pub open spec fn external_problem(handlers: HandlersView, kind: Seq<char>) -> Option<ErrorView> {
    if handlers.plugins.contains_key(kind) {
        Some(already_registered_error(kind, PluginRegistrationOwner::External))
    } else {
        None
    }
}

/// Registers a plugin kind and returns the registration's identity.
pub fn register_plugin_tracked(
    handlers: &mut PluginHandlers,
    plugin_kind: &str,
    allows_multiple_components: bool,
) -> (r: Result<u64, PluginError>)
    requires
        old(handlers).wf(),
    ensures
        final(handlers).wf(),
        error::failure(r) == external_problem(old(handlers)@, plugin_kind@),
        r is Err ==> *final(handlers) == *old(handlers),
        r matches Ok(id) ==> id == old(handlers)@.next_id && final(handlers)@ == with_plugin(
            old(handlers)@,
            plugin_kind@,
            allows_multiple_components,
            PluginRegistrationOwner::External,
        ),
{
    handlers.register_plugin_with_owner(
        plugin_kind,
        allows_multiple_components,
        PluginRegistrationOwner::External,
    )
}

/// Registers the plugin kinds that the host provides.
///
/// Registration is idempotent for genuine builtins, so a removed builtin is
/// restored, and a kind that someone else has taken is refused until it is free
/// again.
pub fn ensure_builtin_plugins_registered(
    handlers: &mut PluginHandlers,
    builtins: &Vec<BuiltinPlugin>,
) -> (r: Result<(), PluginError>)
    requires
        old(handlers).wf(),
    ensures
        final(handlers).wf(),
        error::failure(r) == builtins_registered(old(handlers)@, builtins@).1,
        final(handlers)@ == builtins_registered(old(handlers)@, builtins@).0,
        r is Ok ==> all_builtin(final(handlers)@, builtin_kinds(builtins@)),
{
    let ghost start = handlers@;
    if handlers.all_builtins_registered(builtins) {
        proof {
            lemma_all_builtin_stays(start, builtins@);
        }
        return Ok(());
    }
    let mut i: usize = 0;
    assert(builtins@.take(0) =~= Seq::empty());
    while i < builtins.len()
        invariant
            i <= builtins.len(),
            start == old(handlers)@,
            handlers.wf(),
            builtins_registered(start, builtins@.take(i as int)) == (
                handlers@,
                None::<ErrorView>,
            ),
            forall|j: int|
                0 <= j < i ==> is_builtin(handlers@, #[trigger] builtin_kinds(builtins@)[j]),
        decreases builtins.len() - i,
    {
        let builtin = &builtins[i];
        let ghost before = handlers@;
        assert(builtins@.take(i + 1).drop_last() =~= builtins@.take(i as int));
        match handlers.register_builtin_plugin(
            builtin.kind.as_str(),
            builtin.allows_multiple_components,
        ) {
            Err(e) => {
                proof {
                    lemma_builtin_stop(start, builtins@, i + 1);
                }
                return Err(e);
            },
            Ok(()) => {},
        }
        proof {
            assert(builtin_kinds(builtins@)[i as int] == builtin.kind@);
            assert forall|j: int| 0 <= j < i + 1 implies is_builtin(
                handlers@,
                #[trigger] builtin_kinds(builtins@)[j],
            ) by {
                if j < i {
                    assert(is_builtin(before, builtin_kinds(builtins@)[j]));
                }
            }
        }
        i += 1;
    }
    assert(builtins@.take(builtins@.len() as int) =~= builtins@);
    Ok(())
}

/// Registering builtins stops at the first problem.
proof fn lemma_builtin_stop(handlers: HandlersView, builtins: Seq<BuiltinPlugin>, n: int)
    requires
        0 <= n <= builtins.len(),
        builtins_registered(handlers, builtins.take(n)).1 is Some,
    ensures
        builtins_registered(handlers, builtins) == builtins_registered(handlers, builtins.take(n)),
    decreases builtins.len(),
{
    if n == builtins.len() {
        assert(builtins.take(n) =~= builtins);
    } else {
        assert(builtins.drop_last().take(n) =~= builtins.take(n));
        lemma_builtin_stop(handlers, builtins.drop_last(), n);
    }
}

/// Registering builtins that are all registered changes nothing.
proof fn lemma_all_builtin_stays(handlers: HandlersView, builtins: Seq<BuiltinPlugin>)
    requires
        all_builtin(handlers, builtin_kinds(builtins)),
    ensures
        builtins_registered(handlers, builtins) == (handlers, None::<ErrorView>),
    decreases builtins.len(),
{
    if builtins.len() > 0 {
        let front = builtins.drop_last();
        assert forall|i: int| 0 <= i < front.len() implies is_builtin(
            handlers,
            #[trigger] builtin_kinds(front)[i],
        ) by {
            assert(is_builtin(handlers, builtin_kinds(builtins)[i]));
        }
        lemma_all_builtin_stays(handlers, front);
        assert(is_builtin(handlers, builtin_kinds(builtins)[builtins.len() - 1]));
    }
}

/// Registering the builtins again after it succeeded changes nothing.
pub proof fn law_builtin_registration_is_idempotent(
    handlers: HandlersView,
    builtins: Seq<BuiltinPlugin>,
)
    requires
        builtins_registered(handlers, builtins).1 is None,
    ensures
        ({
            let once = builtins_registered(handlers, builtins).0;
            builtins_registered(once, builtins) == (once, None::<ErrorView>)
        }),
{
    lemma_registered_are_builtin(handlers, builtins);
    lemma_all_builtin_stays(builtins_registered(handlers, builtins).0, builtins);
}

/// Once builtins are registered, each is registered as such.
proof fn lemma_registered_are_builtin(handlers: HandlersView, builtins: Seq<BuiltinPlugin>)
    requires
        builtins_registered(handlers, builtins).1 is None,
    ensures
        all_builtin(builtins_registered(handlers, builtins).0, builtin_kinds(builtins)),
    decreases builtins.len(),
{
    if builtins.len() > 0 {
        let front = builtins.drop_last();
        lemma_registered_are_builtin(handlers, front);
        let before = builtins_registered(handlers, front).0;
        let after = builtins_registered(handlers, builtins).0;
        assert forall|i: int| 0 <= i < builtins.len() implies is_builtin(
            after,
            #[trigger] builtin_kinds(builtins)[i],
        ) by {
            if i < front.len() {
                assert(is_builtin(before, builtin_kinds(front)[i]));
            }
        }
    }
}

/// A registration is removed by its own identity alone: what is left under the
/// kind after an attempt with another identity is what was there before.
pub proof fn law_only_the_own_registration_is_removed(
    handlers: HandlersView,
    kind: Seq<char>,
    id: u64,
    other: Seq<char>,
)
    ensures
        other != kind ==> without_registration(handlers, kind, id).plugins.contains_key(other)
            == handlers.plugins.contains_key(other),
        handlers.plugins.contains_key(kind) && handlers.plugins[kind].registration_id != id
            ==> without_registration(handlers, kind, id) == handlers,
        handlers.plugins.contains_key(kind) && handlers.plugins[kind].registration_id == id
            ==> !without_registration(handlers, kind, id).plugins.contains_key(kind),
{
}

/// What a kind that was registered anew is removed by: an earlier identity leaves
/// it in place, its own removes it.
pub proof fn law_reregistered_kind_survives_stale_removal(
    handlers: HandlersView,
    kind: Seq<char>,
    allows_multiple_components: bool,
    owner: PluginRegistrationOwner,
    stale: u64,
)
    requires
        stale != handlers.next_id,
    ensures
        ({
            let registered = with_plugin(handlers, kind, allows_multiple_components, owner);
            &&& without_registration(registered, kind, stale) == registered
            &&& deregistration_outcome(registered, kind, handlers.next_id)
                == PluginDeregistrationOutcome::Removed
        }),
{
}

/// Lists registered plugin kinds in sorted order.
///
/// Disabled or inactive components still appear here when their plugin kind is
/// registered. An empty list is returned when builtin registration fails.
pub fn list_plugin_kinds(handlers: &mut PluginHandlers, builtins: &Vec<BuiltinPlugin>) -> (r: Vec<
    String,
>)
    requires
        old(handlers).wf(),
    ensures
        final(handlers).wf(),
        final(handlers)@ == builtins_registered(old(handlers)@, builtins@).0,
        text::texts(r@) == (if builtins_registered(old(handlers)@, builtins@).1 is Some {
            Seq::empty()
        } else {
            entry_keys(final(handlers).plugins.entries@)
        }),
{
    match ensure_builtin_plugins_registered(handlers, builtins) {
        Err(_) => {
            let none: Vec<String> = Vec::new();
            assert(text::texts(none@) =~= Seq::empty());
            none
        },
        Ok(()) => handlers.kinds(),
    }
}

/// The kinds of a well-formed registry come in strictly ascending order, each
/// registered kind once.
pub proof fn law_kinds_are_sorted(handlers: PluginHandlers, i: int, j: int)
    requires
        handlers.wf(),
        0 <= i < j < entry_keys(handlers.plugins.entries@).len(),
    ensures
        text::less(
            entry_keys(handlers.plugins.entries@)[i],
            entry_keys(handlers.plugins.entries@)[j],
        ),
{
    assert(text::less(handlers.plugins.entries@[i].0@, handlers.plugins.entries@[j].0@));
}

/// Looks up a registered plugin by kind; an unknown kind and a failed builtin
/// registration give nothing.
pub fn lookup_plugin(
    handlers: &mut PluginHandlers,
    builtins: &Vec<BuiltinPlugin>,
    plugin_kind: &str,
) -> (r: Option<RegisteredPlugin>)
    requires
        old(handlers).wf(),
    ensures
        final(handlers).wf(),
        final(handlers)@ == builtins_registered(old(handlers)@, builtins@).0,
        r == (if builtins_registered(old(handlers)@, builtins@).1 is None
            && final(handlers)@.plugins.contains_key(plugin_kind@) {
            Some(final(handlers)@.plugins[plugin_kind@])
        } else {
            None
        }),
{
    match ensure_builtin_plugins_registered(handlers, builtins) {
        Err(_) => None,
        Ok(()) => lookup_registered_plugin(handlers, plugin_kind),
    }
}

/// The registration of a kind.
pub fn lookup_registered_plugin(handlers: &PluginHandlers, plugin_kind: &str) -> (r: Option<
    RegisteredPlugin,
>)
    ensures
        r == (if handlers@.plugins.contains_key(plugin_kind@) {
            Some(handlers@.plugins[plugin_kind@])
        } else {
            None
        }),
{
    match handlers.plugins.get(plugin_kind) {
        Some(plugin) => Some(*plugin),
        None => None,
    }
}

/// The text that a teardown records for what removing a registration found, and
/// whether unloading stays safe.
pub open spec fn teardown_error(
    plugin_type: Seq<char>,
    kind: Seq<char>,
    found: Result<PluginDeregistrationOutcome, ErrorView>,
) -> Option<(Seq<char>, bool)> {
    match found {
        Ok(PluginDeregistrationOutcome::Removed) => None,
        Ok(PluginDeregistrationOutcome::Missing) => Some(
            (plugin_type + " plugin kind '"@ + kind + "' was not registered during teardown"@, true),
        ),
        Ok(PluginDeregistrationOutcome::Replaced) => Some(
            (
                plugin_type + " plugin kind '"@ + kind
                    + "' was replaced during teardown and was left registered"@,
                true,
            ),
        ),
        Err(e) => Some(
            (
                "failed to deregister "@ + plugin_type + " plugin kind '"@ + kind + "': "@
                    + error::error_text(e),
                false,
            ),
        ),
    }
}

/// Records in a teardown what removing a registration found.
pub fn record_deregistration(
    outcome: &mut DynamicPluginTeardownOutcome,
    plugin_type: &str,
    plugin_kind: &str,
    found: Result<PluginDeregistrationOutcome, PluginError>,
)
    ensures
        ({
            let recorded = teardown_error(
                plugin_type@,
                plugin_kind@,
                match found {
                    Ok(f) => Ok(f),
                    Err(e) => Err(e@),
                },
            );
            match recorded {
                None => text::texts(final(outcome).errors@) == text::texts(old(outcome).errors@)
                    && final(outcome).safe_to_unload == old(outcome).safe_to_unload,
                Some((message, safe)) => text::texts(final(outcome).errors@) == text::texts(
                    old(outcome).errors@,
                ).push(message) && final(outcome).safe_to_unload == (old(outcome).safe_to_unload
                    && safe),
            }
        }),
{
    let ghost before = outcome.errors@;
    match found {
        Ok(PluginDeregistrationOutcome::Removed) => {},
        Ok(PluginDeregistrationOutcome::Missing) => {
            let message = concat4(
                plugin_type,
                " plugin kind '",
                plugin_kind,
                "' was not registered during teardown",
            );
            outcome.record_error(message, true);
            assert(text::texts(outcome.errors@) =~= text::texts(before).push(message@));
        },
        Ok(PluginDeregistrationOutcome::Replaced) => {
            let message = concat4(
                plugin_type,
                " plugin kind '",
                plugin_kind,
                "' was replaced during teardown and was left registered",
            );
            outcome.record_error(message, true);
            assert(text::texts(outcome.errors@) =~= text::texts(before).push(message@));
        },
        Err(e) => {
            let detail = e.to_text();
            let start = concat5(
                "failed to deregister ",
                plugin_type,
                " plugin kind '",
                plugin_kind,
                "': ",
            );
            let message = text::concat2(start.as_str(), detail.as_str());
            outcome.record_error(message, false);
            assert(text::texts(outcome.errors@) =~= text::texts(before).push(message@));
        },
    }
}

/// What tearing down the last registrations of a list, last first, leads to: the
/// registry and the error texts.
pub open spec fn torn_down(
    handlers: HandlersView,
    registrations: Seq<(String, u64)>,
    plugin_type: Seq<char>,
) -> (HandlersView, Seq<Seq<char>>)
    decreases registrations.len(),
{
    if registrations.len() == 0 {
        (handlers, Seq::empty())
    } else {
        let (kind, id) = registrations.last();
        let found = deregistration_outcome(handlers, kind@, id);
        let (rest, errors) = torn_down(
            without_registration(handlers, kind@, id),
            registrations.drop_last(),
            plugin_type,
        );
        match teardown_error(plugin_type, kind@, Ok(found)) {
            None => (rest, errors),
            Some((message, _)) => (rest, seq![message] + errors),
        }
    }
}

/// Removes tracked registrations in reverse order, and records each one that was
/// missing or belongs to a later registration. Neither makes unloading unsafe.
pub fn deregister_tracked_registrations_checked(
    handlers: &mut PluginHandlers,
    registrations: &mut Vec<(String, u64)>,
    plugin_type: &str,
) -> (r: DynamicPluginTeardownOutcome)
    requires
        old(handlers).wf(),
    ensures
        final(handlers).wf(),
        final(registrations)@ == Seq::<(String, u64)>::empty(),
        final(handlers)@ == torn_down(old(handlers)@, old(registrations)@, plugin_type@).0,
        text::texts(r.errors@) == torn_down(
            old(handlers)@,
            old(registrations)@,
            plugin_type@,
        ).1,
        r.safe_to_unload,
{
    let mut outcome = DynamicPluginTeardownOutcome::success();
    let ghost all = registrations@;
    let ghost start = handlers@;
    assert(all.take(all.len() as int) =~= all);
    assert(text::texts(outcome.errors@) =~= Seq::empty());
    assert(text::texts(outcome.errors@) + torn_down(start, all, plugin_type@).1 =~= torn_down(
        start,
        all,
        plugin_type@,
    ).1);
    while registrations.len() > 0
        invariant
            handlers.wf(),
            registrations@.len() <= all.len(),
            outcome.safe_to_unload,
            torn_down(start, all, plugin_type@).0 == torn_down(
                handlers@,
                registrations@,
                plugin_type@,
            ).0,
            torn_down(start, all, plugin_type@).1 == text::texts(outcome.errors@) + torn_down(
                handlers@,
                registrations@,
                plugin_type@,
            ).1,
        decreases registrations.len(),
    {
        let ghost before = registrations@;
        let ghost errors_before = text::texts(outcome.errors@);
        let ghost state = handlers@;
        match registrations.pop() {
            Some((plugin_kind, registration_id)) => {
                assert(registrations@ =~= before.drop_last());
                let found = handlers.deregister_plugin_registration_checked(
                    plugin_kind.as_str(),
                    registration_id,
                );
                record_deregistration(
                    &mut outcome,
                    plugin_type,
                    plugin_kind.as_str(),
                    Ok(found),
                );
                proof {
                    let rest = torn_down(handlers@, registrations@, plugin_type@).1;
                    let all_errors = torn_down(state, before, plugin_type@).1;
                    match teardown_error(plugin_type@, plugin_kind@, Ok(found)) {
                        None => {
                            assert(all_errors == rest);
                        },
                        Some((message, _)) => {
                            assert(all_errors == seq![message] + rest);
                            assert(errors_before.push(message) + rest =~= errors_before + (
                            seq![message] + rest));
                        },
                    }
                }
            },
            None => {},
        }
    }
    assert(text::texts(outcome.errors@) + Seq::<Seq<char>>::empty() =~= text::texts(
        outcome.errors@,
    ));
    outcome
}

/// A kind that is registered is found under the identity that it was given, by its owner; no other
/// kind changes, and the next registration gets the next identity.
pub proof fn law_registered_kinds_are_found(
    handlers: HandlersView,
    kind: Seq<char>,
    other: Seq<char>,
    allows_multiple_components: bool,
    owner: PluginRegistrationOwner,
)
    ensures
        ({
            let r = with_plugin(handlers, kind, allows_multiple_components, owner);
            &&& r.plugins.contains_key(kind)
            &&& r.plugins[kind].registration_id == handlers.next_id
            &&& r.plugins[kind].owner == owner
            &&& r.plugins[kind].allows_multiple_components == allows_multiple_components
            &&& other != kind ==> r.plugins.contains_key(other) == handlers.plugins.contains_key(
                other,
            ) && (handlers.plugins.contains_key(other) ==> r.plugins[other]
                == handlers.plugins[other])
            &&& handlers.next_id < u64::MAX ==> r.next_id == handlers.next_id + 1
        }),
{
}

/// A kind that is registered cannot be registered again by a plugin from outside; a builtin one may
/// be registered again as a builtin one, which changes nothing, but not where a plugin from outside
/// has it.
pub proof fn law_registered_kinds_are_taken(
    handlers: HandlersView,
    kind: Seq<char>,
    allows_multiple_components: bool,
)
    ensures
        external_problem(handlers, kind) is None <==> !handlers.plugins.contains_key(kind),
        handlers.plugins.contains_key(kind) ==> external_problem(handlers, kind) == Some(
            (
                PluginErrorKind::RegistrationFailed,
                ""@ + "plugin '"@ + kind + "' is already registered"@,
            ),
        ),
        builtin_problem(handlers, kind) is None <==> (!handlers.plugins.contains_key(kind)
            || handlers.plugins[kind].owner == PluginRegistrationOwner::Builtin),
        builtin_problem(handlers, kind) is Some ==> builtin_problem(handlers, kind) == Some(
            (
                PluginErrorKind::RegistrationFailed,
                "reserved builtin "@ + "plugin '"@ + kind + "' is already registered"@,
            ),
        ),
        handlers.plugins.contains_key(kind) ==> with_builtin(
            handlers,
            kind,
            allows_multiple_components,
        ) == handlers,
        !handlers.plugins.contains_key(kind) ==> with_builtin(
            handlers,
            kind,
            allows_multiple_components,
        ).plugins[kind].owner == PluginRegistrationOwner::Builtin,
{
}

/// A registration is removed where the kind still has it, missing where the kind is not registered,
/// and replaced where another registration has taken its place; only the first changes anything,
/// and only that kind.
pub proof fn law_removal_tells_what_was_found(
    handlers: HandlersView,
    kind: Seq<char>,
    id: u64,
    other: Seq<char>,
)
    ensures
        deregistration_outcome(handlers, kind, id) == PluginDeregistrationOutcome::Missing
            <==> !handlers.plugins.contains_key(kind),
        deregistration_outcome(handlers, kind, id) == PluginDeregistrationOutcome::Removed
            <==> handlers.plugins.contains_key(kind) && handlers.plugins[kind].registration_id == id,
        deregistration_outcome(handlers, kind, id) == PluginDeregistrationOutcome::Replaced
            <==> handlers.plugins.contains_key(kind) && handlers.plugins[kind].registration_id != id,
        ({
            let r = without_registration(handlers, kind, id);
            &&& handlers.plugins.contains_key(kind) && handlers.plugins[kind].registration_id == id
                ==> !r.plugins.contains_key(kind)
            &&& handlers.plugins.contains_key(kind) && handlers.plugins[kind].registration_id != id
                ==> r == handlers
            &&& other != kind ==> r.plugins.contains_key(other) == handlers.plugins.contains_key(
                other,
            ) && (handlers.plugins.contains_key(other) ==> r.plugins[other]
                == handlers.plugins[other])
            &&& r.next_id == handlers.next_id
        }),
{
}

/// What a teardown notes: nothing where a registration was removed, that the kind was missing or
/// replaced, after which unloading is still safe, and a failure, after which it is not.
pub proof fn law_teardown_notes_what_was_found(plugin_type: Seq<char>, kind: Seq<char>, e: ErrorView)
    ensures
        teardown_error(plugin_type, kind, Ok(PluginDeregistrationOutcome::Removed)) is None,
        teardown_error(plugin_type, kind, Ok(PluginDeregistrationOutcome::Missing)) == Some(
            (plugin_type + " plugin kind '"@ + kind + "' was not registered during teardown"@, true),
        ),
        teardown_error(plugin_type, kind, Ok(PluginDeregistrationOutcome::Replaced)) == Some(
            (
                plugin_type + " plugin kind '"@ + kind
                    + "' was replaced during teardown and was left registered"@,
                true,
            ),
        ),
        teardown_error(plugin_type, kind, Err(e)) == Some(
            (
                "failed to deregister "@ + plugin_type + " plugin kind '"@ + kind + "': "@
                    + error::error_text(e),
                false,
            ),
        ),
{
}

/// A teardown removes each of its registrations that is still in place and leaves every other
/// registration where it is.
pub proof fn law_teardown_removes_its_registrations(
    handlers: HandlersView,
    registrations: Seq<(String, u64)>,
    plugin_type: Seq<char>,
    kind: Seq<char>,
)
    ensures
        ({
            let r = torn_down(handlers, registrations, plugin_type).0;
            &&& r.plugins.contains_key(kind) ==> handlers.plugins.contains_key(kind)
                && r.plugins[kind] == handlers.plugins[kind]
            &&& handlers.plugins.contains_key(kind) ==> (!r.plugins.contains_key(kind) <==> exists|
                i: int,
            |
                0 <= i < registrations.len() && (#[trigger] registrations[i]).0@ == kind
                    && registrations[i].1 == handlers.plugins[kind].registration_id)
            &&& r.next_id == handlers.next_id
        }),
    decreases registrations.len(),
{
    if registrations.len() > 0 {
        let (last, id) = registrations.last();
        let front = registrations.drop_last();
        let middle = without_registration(handlers, last@, id);
        law_teardown_removes_its_registrations(middle, front, plugin_type, kind);
        let r = torn_down(handlers, registrations, plugin_type).0;
        assert(r == torn_down(middle, front, plugin_type).0);
        if handlers.plugins.contains_key(kind) {
            let own = handlers.plugins[kind].registration_id;
            if exists|i: int|
                0 <= i < registrations.len() && (#[trigger] registrations[i]).0@ == kind
                    && registrations[i].1 == own {
                let i = choose|i: int|
                    0 <= i < registrations.len() && (#[trigger] registrations[i]).0@ == kind
                        && registrations[i].1 == own;
                if i < front.len() {
                    assert(front[i] == registrations[i]);
                }
            }
            if exists|i: int|
                0 <= i < front.len() && (#[trigger] front[i]).0@ == kind && front[i].1 == own {
                let i = choose|i: int|
                    0 <= i < front.len() && (#[trigger] front[i]).0@ == kind && front[i].1 == own;
                assert(registrations[i] == front[i]);
            }
            if last@ == kind && id == own {
                assert(registrations[registrations.len() - 1].0@ == kind);
            }
        }
    }
}

/// A kind that is taken is refused, and one that is reserved says so; identities count up and start
/// over at the end.
pub proof fn law_taken_kinds_are_told(handlers: HandlersView, kind: Seq<char>, id: u64)
    ensures
        already_registered_error(kind, PluginRegistrationOwner::Builtin) == (
            PluginErrorKind::RegistrationFailed,
            "reserved builtin "@ + "plugin '"@ + kind + "' is already registered"@,
        ),
        already_registered_error(kind, PluginRegistrationOwner::External) == (
            PluginErrorKind::RegistrationFailed,
            ""@ + "plugin '"@ + kind + "' is already registered"@,
        ),
        id < u64::MAX ==> next_identity(id) == id + 1,
        next_identity(u64::MAX) == 0,
        is_builtin(handlers, kind) <==> handlers.plugins.contains_key(kind)
            && handlers.plugins[kind].owner == PluginRegistrationOwner::Builtin,
{
}

} // verus!
