//! Registration of the kinds of loaded plugins.
//!
//! Kinds are registered one after the other. Where one cannot be registered, those before
//! it are removed again, so that a failed load leaves the registered kinds as they were.

use vstd::prelude::*;

use crate::error::ErrorView;
use crate::handlers::{
    external_problem, torn_down, with_plugin, without_registration, HandlersView,
    PluginRegistrationOwner,
};

verus! {

/// The kind of a loaded plugin, and whether it may occur several times in a
/// configuration.
pub type LoadedKind = (Seq<char>, bool);

/// The registry after registering a loaded plugin's kind.
pub open spec fn with_loaded(handlers: HandlersView, loaded: LoadedKind) -> HandlersView {
    with_plugin(handlers, loaded.0, loaded.1, PluginRegistrationOwner::External)
}

/// What registering loaded plugins in order leads to: the registry, the identities
/// that were given out, and the problem that it stopped at.
pub open spec fn kinds_registered(
    handlers: HandlersView,
    loaded: Seq<Result<LoadedKind, ErrorView>>,
) -> (HandlersView, Seq<(Seq<char>, u64)>, Option<ErrorView>)
    decreases loaded.len(),
{
    if loaded.len() == 0 {
        (handlers, Seq::empty(), None)
    } else {
        let (before, registrations, problem) = kinds_registered(handlers, loaded.drop_last());
        match problem {
            Some(e) => (before, registrations, Some(e)),
            None => match loaded.last() {
                Err(e) => (before, registrations, Some(e)),
                Ok(plugin) => match external_problem(before, plugin.0) {
                    Some(e) => (before, registrations, Some(e)),
                    None => (
                        with_loaded(before, plugin),
                        registrations.push((plugin.0, before.next_id)),
                        None,
                    ),
                },
            },
        }
    }
}

/// The kinds and identities of tracked registrations.
pub open spec fn registration_list(registrations: Seq<(String, u64)>) -> Seq<(Seq<char>, u64)> {
    Seq::new(registrations.len(), |i: int| (registrations[i].0@, registrations[i].1))
}

/// Registering loaded plugins stops at the first problem.
pub proof fn lemma_kinds_stop(
    handlers: HandlersView,
    loaded: Seq<Result<LoadedKind, ErrorView>>,
    n: int,
)
    requires
        0 <= n <= loaded.len(),
        kinds_registered(handlers, loaded.take(n)).2 is Some,
    ensures
        kinds_registered(handlers, loaded) == kinds_registered(handlers, loaded.take(n)),
    decreases loaded.len(),
{
    if n == loaded.len() {
        assert(loaded.take(n) =~= loaded);
    } else {
        assert(loaded.drop_last().take(n) =~= loaded.take(n));
        lemma_kinds_stop(handlers, loaded.drop_last(), n);
    }
}

/// What tearing down leaves registered does not rest on the next identity.
proof fn lemma_torn_down_plugins(
    a: HandlersView,
    b: HandlersView,
    registrations: Seq<(String, u64)>,
    plugin_type: Seq<char>,
)
    requires
        a.plugins == b.plugins,
    ensures
        torn_down(a, registrations, plugin_type).0.plugins == torn_down(
            b,
            registrations,
            plugin_type,
        ).0.plugins,
    decreases registrations.len(),
{
    if registrations.len() > 0 {
        let (kind, id) = registrations.last();
        lemma_torn_down_plugins(
            without_registration(a, kind@, id),
            without_registration(b, kind@, id),
            registrations.drop_last(),
            plugin_type,
        );
    }
}

/// Tearing down gives no identity out.
proof fn lemma_torn_down_keeps_next_id(
    handlers: HandlersView,
    registrations: Seq<(String, u64)>,
    plugin_type: Seq<char>,
)
    ensures
        torn_down(handlers, registrations, plugin_type).0.next_id == handlers.next_id,
    decreases registrations.len(),
{
    if registrations.len() > 0 {
        let (kind, id) = registrations.last();
        lemma_torn_down_keeps_next_id(
            without_registration(handlers, kind@, id),
            registrations.drop_last(),
            plugin_type,
        );
    }
}

/// Tearing down what was registered leaves the kinds that were there before. The identities
/// that were given out stay used.
pub proof fn lemma_teardown_undoes(
    handlers: HandlersView,
    loaded: Seq<Result<LoadedKind, ErrorView>>,
    registrations: Seq<(String, u64)>,
    plugin_type: Seq<char>,
)
    requires
        registration_list(registrations) == kinds_registered(handlers, loaded).1,
    ensures
        torn_down(
            kinds_registered(handlers, loaded).0,
            registrations,
            plugin_type,
        ).0.plugins == handlers.plugins,
        torn_down(
            kinds_registered(handlers, loaded).0,
            registrations,
            plugin_type,
        ).0.next_id == kinds_registered(handlers, loaded).0.next_id,
    decreases loaded.len(),
{
    lemma_torn_down_keeps_next_id(
        kinds_registered(handlers, loaded).0,
        registrations,
        plugin_type,
    );
    let (after, ids, problem) = kinds_registered(handlers, loaded);
    assert(registration_list(registrations).len() == registrations.len());
    if loaded.len() > 0 {
        let front = loaded.drop_last();
        let (before, front_ids, front_problem) = kinds_registered(handlers, front);
        if problem is Some {
            lemma_teardown_undoes(handlers, front, registrations, plugin_type);
        } else {
            let plugin = loaded.last()->Ok_0;
            let last = registrations.last();
            assert(registration_list(registrations)[registrations.len() - 1] == (
                last.0@,
                last.1,
            ));
            assert(ids.last() == (plugin.0, before.next_id));
            let removed = without_registration(after, last.0@, last.1);
            assert(removed.plugins =~= before.plugins);
            let rest = registrations.drop_last();
            assert(registration_list(rest) =~= front_ids) by {
                assert(front_ids =~= ids.drop_last());
                assert forall|i: int| 0 <= i < rest.len() implies registration_list(rest)[i]
                    == front_ids[i] by {
                    assert(registration_list(registrations)[i] == ids[i]);
                }
            }
            lemma_teardown_undoes(handlers, front, rest, plugin_type);
            lemma_torn_down_plugins(removed, before, rest, plugin_type);
        }
    }
}

/// Kinds are registered one after the other, each as one from outside and under the identity that
/// is next; the first that was not loaded or is taken ends it with its error.
pub proof fn law_kinds_are_registered_in_order(
    handlers: HandlersView,
    loaded: Seq<Result<LoadedKind, ErrorView>>,
    last: Result<LoadedKind, ErrorView>,
)
    ensures
        kinds_registered(handlers, Seq::empty()) == (
            handlers,
            Seq::<(Seq<char>, u64)>::empty(),
            None::<ErrorView>,
        ),
        ({
            let before = kinds_registered(handlers, loaded);
            let after = kinds_registered(handlers, loaded.push(last));
            &&& before.2 is Some ==> after == before
            &&& before.2 is None && last is Err ==> after.0 == before.0 && after.1 == before.1
                && after.2 == Some(last->Err_0)
            &&& before.2 is None && last is Ok && before.0.plugins.contains_key((last->Ok_0).0)
                ==> after.0 == before.0 && after.1 == before.1 && after.2 is Some
            &&& before.2 is None && last is Ok && !before.0.plugins.contains_key((last->Ok_0).0)
                ==> {
                &&& after.2 is None
                &&& after.1 == before.1.push(((last->Ok_0).0, before.0.next_id))
                &&& after.0.plugins.contains_key((last->Ok_0).0)
                &&& after.0.plugins[(last->Ok_0).0].registration_id == before.0.next_id
                &&& after.0.plugins[(last->Ok_0).0].owner == PluginRegistrationOwner::External
                &&& after.0.plugins[(last->Ok_0).0].allows_multiple_components == (last->Ok_0).1
            }
        }),
{
    assert(loaded.push(last).drop_last() =~= loaded);
    assert(loaded.push(last).last() == last);
}

} // verus!
