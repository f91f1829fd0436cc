//! Layering of plugin configuration documents.
//!
//! A document of higher precedence is laid over one of lower precedence: objects
//! merge key by key and anything else is replaced, except that components pair up
//! by kind and that certain lists inside a component's configuration are joined,
//! with the entries of higher precedence first.

use vstd::prelude::*;

use crate::json::{
    array_view, field, found_at, json_view, json_wf, lemma_inserted_wf, lemma_object_view,
    lemma_object_view_insert, object_view, text_field, text_of, Json, JsonView,
};
use crate::text::{text_eq, texts};
use crate::text_map::{
    lemma_entries_domain, lemma_entries_first, lemma_entries_update, lemma_unique_first, TextMap,
};

verus! {

/// What happens to lists that meet.
#[derive(Clone, Copy, Debug, PartialEq, Eq, Structural)]
pub enum ListRule {
    /// The list of higher precedence replaces the other.
    Replace,
    /// The lists of a component's configuration; the flag tells whether it is the
    /// observability component.
    ComponentConfig(bool),
}

/// Whether a path is that of the endpoints of a log or metric signal.
pub open spec fn signal_endpoints(path: Seq<Seq<char>>) -> bool {
    path.len() == 3 && path[0] == "opentelemetry"@ && (path[1] == "logs"@ || path[1] == "metrics"@)
        && path[2] == "endpoints"@
}

/// Whether the lists at a path of a component's configuration are joined: those
/// directly below the configuration, and the declared observability collections.
pub open spec fn list_concatenates(path: Seq<Seq<char>>, observability: bool) -> bool {
    ||| path.len() == 1
    ||| observability && path.len() == 2 && ({
        ||| path[0] == "atof"@ && path[1] == "sinks"@
        ||| path[0] == "opentelemetry"@ && (path[1] == "traces"@ || path[1] == "endpoints"@)
        ||| path[0] == "atif"@ && path[1] == "storage"@
    })
    ||| observability && signal_endpoints(path)
}

/// Whether an explicit empty list at a path clears the one of lower precedence.
pub open spec fn empty_list_replaces(path: Seq<Seq<char>>, observability: bool) -> bool {
    observability && signal_endpoints(path)
}

/// The list that two lists at a path give.
pub open spec fn layered_list(
    low: Seq<JsonView>,
    high: Seq<JsonView>,
    path: Seq<Seq<char>>,
    rule: ListRule,
) -> Seq<JsonView> {
    match rule {
        ListRule::Replace => high,
        ListRule::ComponentConfig(observability) => if !list_concatenates(path, observability) {
            high
        } else if high.len() == 0 && empty_list_replaces(path, observability) {
            Seq::empty()
        } else {
            high + low
        },
    }
}

/// `low` with `high` laid over it, both standing at `path`.
pub open spec fn layered_value(
    low: JsonView,
    high: JsonView,
    path: Seq<Seq<char>>,
    rule: ListRule,
) -> JsonView
    decreases high,
{
    match (low, high) {
        (JsonView::Object(a), JsonView::Object(b)) => JsonView::Object(
            Map::new(
                |k: Seq<char>| a.contains_key(k) || b.contains_key(k),
                |k: Seq<char>|
                    if b.contains_key(k) {
                        if a.contains_key(k) {
                            layered_value(a[k], b[k], path.push(k), rule)
                        } else {
                            b[k]
                        }
                    } else {
                        a[k]
                    },
            ),
        ),
        (JsonView::Array(a), JsonView::Array(b)) => JsonView::Array(
            layered_list(a, b, path, rule),
        ),
        _ => high,
    }
}

/// `low` with `high` laid over it: objects merge key by key, anything else is
/// replaced.
pub open spec fn merged(low: JsonView, high: JsonView) -> JsonView {
    layered_value(low, high, Seq::empty(), ListRule::Replace)
}

/// Whether a key occurs at or after a position.
pub open spec fn has_from<V>(entries: Seq<(String, V)>, from: int, key: Seq<char>) -> bool {
    exists|i: int| from <= i < entries.len() && (#[trigger] entries[i]).0@ == key
}

/// What a key of two objects gives, by a function of the key and both values.
pub open spec fn combined(
    a: Map<Seq<char>, JsonView>,
    b: Map<Seq<char>, JsonView>,
    f: spec_fn(Seq<char>, JsonView, JsonView) -> JsonView,
    k: Seq<char>,
) -> JsonView {
    if a.contains_key(k) {
        f(k, a[k], b[k])
    } else {
        b[k]
    }
}

/// Whether `c` is the object `a` with the entries at and after a position laid
/// over it, `b` being the object of all entries and `f` what two values of a key
/// give.
pub open spec fn layered_from(
    a: Map<Seq<char>, JsonView>,
    b: Map<Seq<char>, JsonView>,
    f: spec_fn(Seq<char>, JsonView, JsonView) -> JsonView,
    all: Seq<(String, Json)>,
    from: int,
    c: Map<Seq<char>, JsonView>,
) -> bool {
    &&& forall|k: Seq<char>| #[trigger]
        c.contains_key(k) <==> a.contains_key(k) || has_from(all, from, k)
    &&& forall|k: Seq<char>| #[trigger]
        c.contains_key(k) ==> c[k] == (if has_from(all, from, k) {
            combined(a, b, f, k)
        } else {
            a[k]
        })
}

/// Laying one further entry over the object.
proof fn lemma_layered_step(
    a: Map<Seq<char>, JsonView>,
    b: Map<Seq<char>, JsonView>,
    f: spec_fn(Seq<char>, JsonView, JsonView) -> JsonView,
    all: Seq<(String, Json)>,
    n: int,
    before: Map<Seq<char>, JsonView>,
    after: Map<Seq<char>, JsonView>,
)
    requires
        1 <= n <= all.len(),
        layered_from(a, b, f, all, n, before),
        after == before.insert(all[n - 1].0@, combined(a, b, f, all[n - 1].0@)),
    ensures
        layered_from(a, b, f, all, n - 1, after),
{
    let key = all[n - 1].0@;
    assert forall|k: Seq<char>| has_from(all, n - 1, k) == (k == key || has_from(all, n, k)) by {
        if has_from(all, n - 1, k) && k != key {
            let i = choose|i: int| n - 1 <= i < all.len() && (#[trigger] all[i]).0@ == k;
            assert(all[i].0@ == k);
        }
        if has_from(all, n, k) {
            let i = choose|i: int| n <= i < all.len() && (#[trigger] all[i]).0@ == k;
            assert(all[i].0@ == k);
        }
        if k == key {
            assert(all[n - 1].0@ == k);
        }
    }
}

/// Once all entries are laid over, every key of the higher object counts.
proof fn lemma_layered_all(
    a: Map<Seq<char>, JsonView>,
    f: spec_fn(Seq<char>, JsonView, JsonView) -> JsonView,
    all: Seq<(String, Json)>,
    c: Map<Seq<char>, JsonView>,
)
    requires
        layered_from(a, object_view(all), f, all, 0, c),
    ensures
        forall|k: Seq<char>| #[trigger]
            c.contains_key(k) <==> a.contains_key(k) || object_view(all).contains_key(k),
        forall|k: Seq<char>| #[trigger]
            c.contains_key(k) ==> c[k] == (if object_view(all).contains_key(k) {
                combined(a, object_view(all), f, k)
            } else {
                a[k]
            }),
{
    assert forall|k: Seq<char>| has_from(all, 0, k) == #[trigger] object_view(all).contains_key(
        k,
    ) by {
        lemma_object_view(all, k);
        lemma_entries_domain(all, k);
    }
}

/// The last of the remaining entries of an ordered object is the only one of its
/// key, and its value is that of the object.
proof fn lemma_last_entry(all: Seq<(String, Json)>, n: int)
    requires
        1 <= n <= all.len(),
        crate::text_map::keys_ascend(all),
    ensures
        !has_from(all, n, all[n - 1].0@),
        object_view(all).contains_key(all[n - 1].0@),
        object_view(all)[all[n - 1].0@] == json_view(all[n - 1].1),
{
    let key = all[n - 1].0@;
    lemma_unique_first(all, n - 1);
    lemma_entries_first(all, key, n - 1);
    lemma_object_view(all, key);
    assert forall|i: int| n <= i < all.len() implies (#[trigger] all[i]).0@ != key by {
        assert(crate::text::less(all[n - 1].0@, all[i].0@));
        crate::text::lemma_less_irreflexive(key);
    }
}

/// Replacing the value of an entry in place replaces it in the object.
proof fn lemma_entry_replaced(
    before: Seq<(String, Json)>,
    after: Seq<(String, Json)>,
    i: int,
    key: Seq<char>,
)
    requires
        crate::text_map::first_at(before, key, i),
        after == before.update(i, (before[i].0, after[i].1)),
    ensures
        object_view(after) == object_view(before).insert(key, json_view(after[i].1)),
        crate::text_map::keys_ascend(before) ==> crate::text_map::keys_ascend(after),
{
    lemma_entries_update(before, i, (before[i].0, after[i].1));
    lemma_object_view_insert(before, after, key, after[i].1);
    if crate::text_map::keys_ascend(before) {
        assert forall|x: int, y: int| 0 <= x < y < after.len() implies crate::text::less(
            (#[trigger] after[x]).0@,
            (#[trigger] after[y]).0@,
        ) by {
            assert(crate::text::less(before[x].0@, before[y].0@));
        }
    }
}

/// Whether two texts and a path component are the same.
fn at(path: &Vec<String>, i: usize, name: &str) -> (r: bool)
    requires
        i < path.len(),
    ensures
        r == (texts(path@)[i as int] == name@),
{
    text_eq(path[i].as_str(), name)
}

/// Whether a path is that of the endpoints of a log or metric signal.
fn is_signal_endpoints(path: &Vec<String>) -> (r: bool)
    ensures
        r == signal_endpoints(texts(path@)),
{
    path.len() == 3 && at(path, 0, "opentelemetry") && (at(path, 1, "logs") || at(
        path,
        1,
        "metrics",
    )) && at(path, 2, "endpoints")
}

/// Whether the lists at a path of a component's configuration are joined.
pub fn plugin_config_list_concatenates(path: &Vec<String>, is_observability: bool) -> (r: bool)
    ensures
        r == list_concatenates(texts(path@), is_observability),
{
    path.len() == 1 || (is_observability && path.len() == 2 && ((at(path, 0, "atof") && at(
        path,
        1,
        "sinks",
    )) || (at(path, 0, "opentelemetry") && (at(path, 1, "traces") || at(path, 1, "endpoints")))
        || (at(path, 0, "atif") && at(path, 1, "storage")))) || (is_observability
        && is_signal_endpoints(path))
}

/// Whether an explicit empty list at a path clears the one of lower precedence.
pub fn plugin_config_empty_list_replaces(path: &Vec<String>, is_observability: bool) -> (r: bool)
    ensures
        r == empty_list_replaces(texts(path@), is_observability),
{
    is_observability && is_signal_endpoints(path)
}

/// Lays `high` over `low` at a path.
fn layer_lists(low: &mut Vec<Json>, high: Vec<Json>, path: &Vec<String>, rule: ListRule)
    ensures
        array_view(final(low)@) == layered_list(
            array_view(old(low)@),
            array_view(high@),
            texts(path@),
            rule,
        ),
        (forall|i: int| 0 <= i < old(low)@.len() ==> json_wf(#[trigger] old(low)@[i])) && (forall|
            i: int,
        |
            0 <= i < high@.len() ==> json_wf(#[trigger] high@[i])) ==> (forall|i: int|
            0 <= i < final(low)@.len() ==> json_wf(#[trigger] final(low)@[i])),
{
    let mut joined = high;
    let ghost low_before = low@;
    match rule {
        ListRule::Replace => {},
        ListRule::ComponentConfig(is_observability) => {
            if plugin_config_list_concatenates(path, is_observability) && !(joined.len() == 0
                && plugin_config_empty_list_replaces(path, is_observability)) {
                joined.append(low);
                assert(array_view(joined@) =~= array_view(high@) + array_view(low_before));
            }
        },
    }
    *low = joined;
    assert(array_view(Seq::<Json>::empty()) =~= Seq::empty());
    assert(high@.len() == 0 ==> array_view(high@) =~= Seq::empty());
}

/// Lays `high` over `low`, both standing at `path`.
fn layer_values(low: &mut Json, high: Json, path: &mut Vec<String>, rule: ListRule)
    requires
        json_wf(high),
    ensures
        final(path)@ == old(path)@,
        json_view(*final(low)) == layered_value(
            json_view(*old(low)),
            json_view(high),
            texts(old(path)@),
            rule,
        ),
        json_wf(*old(low)) ==> json_wf(*final(low)),
    decreases high,
{
    match high {
        Json::Object(high_object) => match low {
            Json::Object(low_object) => {
                layer_objects(low_object, high_object, path, rule);
            },
            _ => {
                *low = Json::Object(high_object);
            },
        },
        Json::Array(high_items) => match low {
            Json::Array(low_items) => {
                layer_lists(low_items, high_items, path, rule);
            },
            _ => {
                *low = Json::Array(high_items);
            },
        },
        other => {
            *low = other;
        },
    }
}

/// Lays the entries of `high` over `low`, both standing at `path`.
fn layer_objects(
    low: &mut TextMap<Json>,
    high: TextMap<Json>,
    path: &mut Vec<String>,
    rule: ListRule,
)
    requires
        json_wf(Json::Object(high)),
    ensures
        final(path)@ == old(path)@,
        JsonView::Object(object_view(final(low).entries@)) == layered_value(
            JsonView::Object(object_view(old(low).entries@)),
            JsonView::Object(object_view(high.entries@)),
            texts(old(path)@),
            rule,
        ),
        json_wf(Json::Object(*old(low))) ==> json_wf(Json::Object(*final(low))),
    decreases high,
{
    let ghost a = object_view(low.entries@);
    let ghost all = high.entries@;
    let ghost here = texts(path@);
    let ghost start = path@;
    let ghost f = |k: Seq<char>, x: JsonView, y: JsonView|
        layered_value(x, y, here.push(k), rule);
    let ghost before = *low;
    let mut rest = high.entries;
    assert(all.take(all.len() as int) =~= all);
    while rest.len() > 0
        invariant
            rest@ == all.take(rest@.len() as int),
            rest@.len() <= all.len(),
            high.entries@ == all,
            json_wf(Json::Object(high)),
            path@ == start,
            here == texts(start),
            f == (|k: Seq<char>, x: JsonView, y: JsonView|
                layered_value(x, y, here.push(k), rule)),
            layered_from(a, object_view(all), f, all, rest@.len() as int, object_view(low.entries@)),
            json_wf(Json::Object(before)) ==> json_wf(Json::Object(*low)),
        decreases rest.len(),
    {
        let ghost n = rest@.len() as int;
        let ghost known = object_view(low.entries@);
        let ghost low_before = low.entries@;
        match rest.pop() {
            Some((key, value)) => {
                assert(rest@ =~= all.take(n - 1));
                assert(all[n - 1] == (key, value));
                proof {
                    lemma_last_entry(all, n);
                    lemma_object_view(low_before, key@);
                }
                match low.find(key.as_str()) {
                    Some(i) => {
                        path.push(key.clone());
                        assert(texts(path@) =~= here.push(key@));
                        layer_values(&mut low.entries[i].1, value, path, rule);
                        let _ = path.pop();
                        assert(path@ =~= start);
                        proof {
                            lemma_entry_replaced(low_before, low.entries@, i as int, key@);
                        }
                    },
                    None => {
                        let ghost held = *low;
                        low.insert(key, value);
                        proof {
                            lemma_object_view_insert(low_before, low.entries@, key@, value);
                            if json_wf(Json::Object(held)) {
                                lemma_inserted_wf(held, *low, key, value);
                            }
                        }
                    },
                }
                proof {
                    lemma_layered_step(
                        a,
                        object_view(all),
                        f,
                        all,
                        n,
                        known,
                        object_view(low.entries@),
                    );
                }
            },
            None => {},
        }
    }
    proof {
        lemma_layered_all(a, f, all, object_view(low.entries@));
        let whole = layered_value(
            JsonView::Object(a),
            JsonView::Object(object_view(all)),
            here,
            rule,
        )->Object_0;
        assert(object_view(low.entries@) =~= whole);
    }
}

/// Where lists are replaced, the path does not matter.
pub proof fn lemma_replace_ignores_path(
    low: JsonView,
    high: JsonView,
    p: Seq<Seq<char>>,
    q: Seq<Seq<char>>,
)
    ensures
        layered_value(low, high, p, ListRule::Replace) == layered_value(
            low,
            high,
            q,
            ListRule::Replace,
        ),
    decreases high,
{
    match (low, high) {
        (JsonView::Object(a), JsonView::Object(b)) => {
            let x = layered_value(low, high, p, ListRule::Replace)->Object_0;
            let y = layered_value(low, high, q, ListRule::Replace)->Object_0;
            assert forall|k: Seq<char>| #[trigger] x.contains_key(k) implies x[k] == y[k] by {
                if a.contains_key(k) && b.contains_key(k) {
                    lemma_replace_ignores_path(a[k], b[k], p.push(k), q.push(k));
                }
            }
            assert(x =~= y);
        },
        _ => {},
    }
}

/// Merges `right` into a `left` JSON object; arrays and scalars are replaced.
pub fn merge_json_value(left: &mut Json, right: Json)
    requires
        json_wf(right),
    ensures
        json_view(*final(left)) == merged(json_view(*old(left)), json_view(right)),
        json_wf(*old(left)) ==> json_wf(*final(left)),
{
    let mut path: Vec<String> = Vec::new();
    assert(texts(path@) =~= Seq::empty());
    layer_values(left, right, &mut path, ListRule::Replace);
}

/// Recursively merges plugin component config with scoped list concatenation.
pub fn merge_plugin_config_value(
    lower_priority: &mut Json,
    higher_priority: Json,
    is_observability: bool,
)
    requires
        json_wf(higher_priority),
    ensures
        json_view(*final(lower_priority)) == layered_value(
            json_view(*old(lower_priority)),
            json_view(higher_priority),
            Seq::empty(),
            ListRule::ComponentConfig(is_observability),
        ),
        json_wf(*old(lower_priority)) ==> json_wf(*final(lower_priority)),
{
    let mut path: Vec<String> = Vec::new();
    assert(texts(path@) =~= Seq::empty());
    layer_values(
        lower_priority,
        higher_priority,
        &mut path,
        ListRule::ComponentConfig(is_observability),
    );
}

/// The kind of a component.
pub open spec fn kind_of(component: JsonView) -> Option<Seq<char>> {
    text_of(field(component, "kind"@))
}

/// The kind of a component.
pub fn component_kind<'a>(component: &'a Json) -> (r: Option<&'a str>)
    ensures
        crate::text::opt_str(r) == kind_of(json_view(*component)),
{
    text_field(component, "kind")
}

/// Whether the higher component, or else the lower one, is the observability
/// component.
pub open spec fn is_observability_pair(low: JsonView, high: JsonView) -> bool {
    match kind_of(high) {
        Some(kind) => kind == "observability"@,
        None => kind_of(low) == Some("observability"@),
    }
}

/// What the values of one key of two components give: their configurations merge
/// with lists joined where the rule says, anything else merges plainly.
pub open spec fn component_field(
    key: Seq<char>,
    low: JsonView,
    high: JsonView,
    observability: bool,
) -> JsonView {
    if key == "config"@ {
        layered_value(low, high, Seq::empty(), ListRule::ComponentConfig(observability))
    } else {
        merged(low, high)
    }
}

/// A component with its match of higher precedence laid over it.
pub open spec fn merged_component(low: JsonView, high: JsonView) -> JsonView {
    match (low, high) {
        (JsonView::Object(a), JsonView::Object(b)) => JsonView::Object(
            Map::new(
                |k: Seq<char>| a.contains_key(k) || b.contains_key(k),
                |k: Seq<char>|
                    if !b.contains_key(k) {
                        a[k]
                    } else if a.contains_key(k) {
                        component_field(k, a[k], b[k], is_observability_pair(low, high))
                    } else {
                        b[k]
                    },
            ),
        ),
        _ => high,
    }
}

/// The entries that are left of a well-formed object are well-formed.
proof fn lemma_removed_wf(before: TextMap<Json>, after: TextMap<Json>)
    requires
        json_wf(Json::Object(before)),
        after.ordered(),
        forall|i: int|
            0 <= i < after.entries@.len() ==> before.entries@.contains(
                #[trigger] after.entries@[i],
            ),
    ensures
        json_wf(Json::Object(after)),
{
    assert forall|i: int| 0 <= i < after.entries@.len() implies json_wf(
        (#[trigger] after.entries@[i]).1,
    ) by {
        let j = before.entries@.index_of(after.entries@[i]);
        assert(before.entries@[j] == after.entries@[i]);
    }
}

/// The value of a key of a well-formed object is well-formed.
proof fn lemma_value_wf(object: TextMap<Json>, key: Seq<char>)
    requires
        json_wf(Json::Object(object)),
        object@.contains_key(key),
    ensures
        json_wf(object@[key]),
{
    let entries = object.entries@;
    lemma_entries_domain(entries, key);
    let i = choose|i: int| 0 <= i < entries.len() && (#[trigger] entries[i]).0@ == key;
    lemma_unique_first(entries, i);
    lemma_entries_first(entries, key, i);
    assert(json_wf(entries[i].1));
}

/// Lays the entries of `high` but for one key over `low`, and returns the value of
/// that key.
fn layer_all_but(low: &mut TextMap<Json>, high: TextMap<Json>, key: &str) -> (r: Option<Json>)
    requires
        json_wf(Json::Object(high)),
    ensures
        ({
            let a = object_view(old(low).entries@);
            let b = object_view(high.entries@);
            let c = object_view(final(low).entries@);
            &&& forall|k: Seq<char>| #[trigger]
                c.contains_key(k) <==> a.contains_key(k) || (k != key@ && b.contains_key(k))
            &&& forall|k: Seq<char>| #[trigger]
                c.contains_key(k) ==> c[k] == (if k == key@ || !b.contains_key(k) {
                    a[k]
                } else if a.contains_key(k) {
                    merged(a[k], b[k])
                } else {
                    b[k]
                })
            &&& match r {
                Some(v) => b.contains_key(key@) && json_view(v) == b[key@] && json_wf(v),
                None => !b.contains_key(key@),
            }
        }),
        json_wf(Json::Object(*old(low))) ==> json_wf(Json::Object(*final(low))),
{
    let mut rest = high;
    let ghost a = object_view(low.entries@);
    let ghost b = object_view(high.entries@);
    let special = rest.remove(key);
    proof {
        lemma_object_view(high.entries@, key@);
        crate::json::lemma_object_view_remove(high.entries@, rest.entries@, key@);
        lemma_removed_wf(high, rest);
        if special is Some {
            lemma_value_wf(high, key@);
        }
    }
    let mut path: Vec<String> = Vec::new();
    assert(texts(path@) =~= Seq::empty());
    layer_objects(low, rest, &mut path, ListRule::Replace);
    proof {
        let c = object_view(low.entries@);
        assert forall|k: Seq<char>| #[trigger] c.contains_key(k) && a.contains_key(k)
            && b.contains_key(k) && k != key@ implies c[k] == merged(a[k], b[k]) by {
            lemma_replace_ignores_path(a[k], b[k], Seq::<Seq<char>>::empty().push(k), Seq::empty());
        }
    }
    special
}

/// Merges one higher-precedence component into its lower-precedence match.
///
/// Direct list fields in a component's `config` object concatenate with
/// higher-precedence entries first. Declared observability collections do the
/// same, except that an explicit empty log or metric endpoint list clears the
/// lower-precedence list so it remains distinguishable from an omitted list.
/// Deeper implementation-specific lists retain replacement semantics.
pub fn merge_plugin_component(existing: &mut Json, higher_priority: Json)
    requires
        json_wf(higher_priority),
    ensures
        json_view(*final(existing)) == merged_component(
            json_view(*old(existing)),
            json_view(higher_priority),
        ),
        json_wf(*old(existing)) ==> json_wf(*final(existing)),
{
    let is_observability = match component_kind(&higher_priority) {
        Some(kind) => text_eq(kind, "observability"),
        None => match component_kind(existing) {
            Some(kind) => text_eq(kind, "observability"),
            None => false,
        },
    };
    let ghost low_view = json_view(*existing);
    let ghost high_view = json_view(higher_priority);
    assert(is_observability == is_observability_pair(low_view, high_view));
    match higher_priority {
        Json::Object(high) => match existing {
            Json::Object(low) => {
                let ghost a = object_view(low.entries@);
                let ghost b = object_view(high.entries@);
                let config = layer_all_but(low, high, "config");
                let ghost middle = *low;
                match config {
                    Some(config) => {
                        let ghost low_before = low.entries@;
                        proof {
                            lemma_object_view(low_before, "config"@);
                        }
                        match low.find("config") {
                            Some(i) => {
                                merge_plugin_config_value(
                                    &mut low.entries[i].1,
                                    config,
                                    is_observability,
                                );
                                proof {
                                    lemma_entry_replaced(
                                        low_before,
                                        low.entries@,
                                        i as int,
                                        "config"@,
                                    );
                                }
                            },
                            None => {
                                let key = "config".to_owned();
                                low.insert(key, config);
                                proof {
                                    lemma_object_view_insert(
                                        low_before,
                                        low.entries@,
                                        "config"@,
                                        config,
                                    );
                                    if json_wf(Json::Object(middle)) {
                                        lemma_inserted_wf(middle, *low, key, config);
                                    }
                                }
                            },
                        }
                    },
                    None => {},
                }
                proof {
                    let whole = merged_component(JsonView::Object(a), JsonView::Object(b))->Object_0;
                    assert(object_view(low.entries@) =~= whole);
                }
            },
            _ => {
                *existing = Json::Object(high);
            },
        },
        other => {
            *existing = other;
        },
    }
}

/// How many components of a list have a kind.
pub open spec fn count_kind(components: Seq<JsonView>, kind: Seq<char>) -> nat
    decreases components.len(),
{
    if components.len() == 0 {
        0
    } else {
        count_kind(components.drop_last(), kind) + if kind_of(components.last()) == Some(kind) {
            1nat
        } else {
            0nat
        }
    }
}

/// Whether position `i` holds the component that has `nth` earlier ones of its
/// kind.
pub open spec fn is_nth_of_kind(
    components: Seq<JsonView>,
    kind: Seq<char>,
    nth: nat,
    i: int,
) -> bool {
    &&& 0 <= i < components.len()
    &&& kind_of(components[i]) == Some(kind)
    &&& count_kind(components.take(i), kind) == nth
}

/// The position of the component that has `nth` earlier ones of its kind.
pub open spec fn nth_of_kind(components: Seq<JsonView>, kind: Seq<char>, nth: nat) -> Option<int> {
    if exists|i: int| is_nth_of_kind(components, kind, nth, i) {
        Some(choose|i: int| is_nth_of_kind(components, kind, nth, i))
    } else {
        None
    }
}

/// More components hold no fewer of a kind.
proof fn lemma_count_grows(components: Seq<JsonView>, kind: Seq<char>, i: int, j: int)
    requires
        0 <= i <= j <= components.len(),
    ensures
        count_kind(components.take(i), kind) <= count_kind(components.take(j), kind),
        i < j && kind_of(components[i]) == Some(kind) ==> count_kind(components.take(i), kind)
            < count_kind(components.take(j), kind),
    decreases j,
{
    if i < j {
        assert(components.take(j).drop_last() =~= components.take(j - 1));
        assert(components.take(j).last() == components[j - 1]);
        lemma_count_grows(components, kind, i, j - 1);
    }
}

/// At most one component has a given number of earlier ones of its kind.
proof fn lemma_nth_unique(components: Seq<JsonView>, kind: Seq<char>, nth: nat, i: int)
    requires
        is_nth_of_kind(components, kind, nth, i),
    ensures
        nth_of_kind(components, kind, nth) == Some(i),
{
    let j = choose|j: int| is_nth_of_kind(components, kind, nth, j);
    if i < j {
        lemma_count_grows(components, kind, i, j);
    } else if j < i {
        lemma_count_grows(components, kind, j, i);
    }
}

/// Counts depend on kinds alone.
proof fn lemma_count_by_kinds(a: Seq<JsonView>, b: Seq<JsonView>, kind: Seq<char>)
    requires
        a.len() == b.len(),
        forall|i: int| 0 <= i < a.len() ==> kind_of(#[trigger] a[i]) == kind_of(b[i]),
    ensures
        count_kind(a, kind) == count_kind(b, kind),
    decreases a.len(),
{
    if a.len() > 0 {
        lemma_count_by_kinds(a.drop_last(), b.drop_last(), kind);
    }
}

/// The position among the first `limit` components of the one that has `nth`
/// earlier ones of its kind.
pub fn nth_component_by_kind(components: &Vec<Json>, limit: usize, kind: &str, nth: usize) -> (r:
    Option<usize>)
    requires
        limit <= components.len(),
    ensures
        match r {
            Some(i) => nth_of_kind(array_view(components@).take(limit as int), kind@, nth as nat)
                == Some(i as int) && is_nth_of_kind(
                array_view(components@).take(limit as int),
                kind@,
                nth as nat,
                i as int,
            ),
            None => nth_of_kind(array_view(components@).take(limit as int), kind@, nth as nat)
                is None,
        },
{
    let ghost base = array_view(components@).take(limit as int);
    let mut seen: usize = 0;
    let mut i: usize = 0;
    assert(base.take(0) =~= Seq::empty());
    while i < limit
        invariant
            i <= limit <= components.len(),
            base == array_view(components@).take(limit as int),
            seen == count_kind(base.take(i as int), kind@),
            seen <= i,
            seen <= nth,
            forall|j: int| 0 <= j < i ==> !is_nth_of_kind(base, kind@, nth as nat, j),
        decreases limit - i,
    {
        let same = match component_kind(&components[i]) {
            Some(k) => text_eq(k, kind),
            None => false,
        };
        assert(base[i as int] == json_view(components@[i as int]));
        assert(same == (kind_of(base[i as int]) == Some(kind@)));
        assert(base.take(i + 1).drop_last() =~= base.take(i as int));
        assert(base.take(i + 1).last() == base[i as int]);
        if same {
            if seen == nth {
                proof {
                    lemma_nth_unique(base, kind@, nth as nat, i as int);
                }
                return Some(i);
            }
            seen += 1;
        }
        i += 1;
    }
    None
}

/// The components of `low` with those of `high` laid over them: each component of
/// `high` merges into the one of `low` that has as many earlier ones of its kind,
/// or is added at the end where there is none.
pub open spec fn layered_components(low: Seq<JsonView>, high: Seq<JsonView>) -> Seq<JsonView>
    decreases high.len(),
{
    if high.len() == 0 {
        low
    } else {
        let before = layered_components(low, high.drop_last());
        let component = high.last();
        match paired(low, high) {
            Some(i) => before.update(i, merged_component(before[i], component)),
            None => before.push(component),
        }
    }
}

/// The position in `low` that the last component of `high` pairs with.
pub open spec fn paired(low: Seq<JsonView>, high: Seq<JsonView>) -> Option<int> {
    match kind_of(high.last()) {
        Some(kind) => nth_of_kind(low, kind, count_kind(high.drop_last(), kind)),
        None => None,
    }
}

/// Merging a component with one of the same kind keeps the kind.
proof fn lemma_merged_kind(low: JsonView, high: JsonView)
    requires
        kind_of(high) is Some,
        kind_of(low) == kind_of(high),
    ensures
        kind_of(merged_component(low, high)) == kind_of(low),
{
    lemma_kind_key();
}

/// The kind and the configuration of a component stand under different keys.
proof fn lemma_kind_key()
    ensures
        "kind"@ != "config"@,
{
    reveal_strlit("kind");
    reveal_strlit("config");
    assert("kind"@.len() != "config"@.len());
}

/// Layering keeps the number and kinds of the lower components in front.
pub proof fn lemma_layered_components_keep(low: Seq<JsonView>, high: Seq<JsonView>)
    ensures
        layered_components(low, high).len() >= low.len(),
        forall|i: int|
            0 <= i < low.len() ==> kind_of(#[trigger] layered_components(low, high)[i])
                == kind_of(low[i]),
    decreases high.len(),
{
    if high.len() > 0 {
        lemma_layered_components_keep(low, high.drop_last());
        let before = layered_components(low, high.drop_last());
        match paired(low, high) {
            Some(i) => {
                let kind = kind_of(high.last())->0;
                assert(is_nth_of_kind(low, kind, count_kind(high.drop_last(), kind), i));
                assert(kind_of(before[i]) == kind_of(low[i]));
                lemma_merged_kind(before[i], high.last());
            },
            None => {},
        }
    }
}

/// The document value of components with others laid over them.
pub open spec fn layered_components_value(low: JsonView, high: JsonView) -> JsonView {
    match (low, high) {
        (JsonView::Array(a), JsonView::Array(b)) => JsonView::Array(layered_components(a, b)),
        _ => high,
    }
}

/// Merges `right` components into `left` by `kind`, pairing repeated kinds
/// positionally.
pub fn merge_plugin_components(left: &mut Json, right: Json)
    requires
        json_wf(right),
    ensures
        json_view(*final(left)) == layered_components_value(
            json_view(*old(left)),
            json_view(right),
        ),
        json_wf(*old(left)) ==> json_wf(*final(left)),
{
    match right {
        Json::Array(right_components) => match left {
            Json::Array(left_components) => {
                merge_component_lists(left_components, right_components);
            },
            _ => {
                *left = Json::Array(right_components);
            },
        },
        other => {
            *left = other;
        },
    }
}

/// Merges a list of components into another.
fn merge_component_lists(left: &mut Vec<Json>, right: Vec<Json>)
    requires
        crate::json::items_wf(right@),
    ensures
        array_view(final(left)@) == layered_components(array_view(old(left)@), array_view(right@)),
        crate::json::items_wf(old(left)@) ==> crate::json::items_wf(final(left)@),
{
    let ghost low = array_view(left@);
    let ghost high = array_view(right@);
    let ghost left_before = left@;
    let base: usize = left.len();
    let mut consumed: TextMap<usize> = TextMap::new();
    let total: usize = right.len();
    let mut rest = right;
    let ghost mut done: int = 0;
    assert(high.take(0) =~= Seq::empty());
    assert(right@.subrange(0, right@.len() as int) =~= right@);
    while rest.len() > 0
        invariant
            0 <= done <= right@.len(),
            rest@ == right@.subrange(done, right@.len() as int),
            low == array_view(left_before),
            high == array_view(right@),
            base == low.len(),
            total == right@.len(),
            crate::json::items_wf(right@),
            array_view(left@) == layered_components(low, high.take(done)),
            forall|k: Seq<char>| #[trigger]
                consumed@.contains_key(k) ==> consumed@[k] == count_kind(high.take(done), k),
            forall|k: Seq<char>|
                !#[trigger] consumed@.contains_key(k) ==> count_kind(high.take(done), k) == 0,
            crate::json::items_wf(left_before) ==> crate::json::items_wf(left@),
        decreases rest.len(),
    {
        proof {
            lemma_layered_components_keep(low, high.take(done));
            assert(rest@[0] == right@[done]);
        }
        let component = rest.remove(0);
        let ghost next = high.take(done + 1);
        let ghost held = left@;
        proof {
            assert(rest@ =~= right@.subrange(done + 1, right@.len() as int));
            assert(next.drop_last() =~= high.take(done));
            assert(next.last() == json_view(component));
            assert(json_wf(component));
            lemma_count_step(high, done);
        }
        let kind = match component_kind(&component) {
            Some(kind) => Some(kind.to_owned()),
            None => None,
        };
        match kind {
            None => {
                left.push(component);
                assert(array_view(left@) =~= array_view(held).push(json_view(component)));
            },
            Some(kind) => {
                let nth: usize = match consumed.get(kind.as_str()) {
                    Some(n) => *n,
                    None => 0,
                };
                proof {
                    lemma_count_bound(high.take(done), kind@);
                    lemma_pairs_by_kinds(low, array_view(left@).take(base as int), kind@, nth as nat);
                }
                let slot = nth_component_by_kind(left, base, kind.as_str(), nth);
                consumed.insert(kind, nth + 1);
                match slot {
                    Some(i) => {
                        merge_plugin_component(&mut left[i], component);
                        assert(array_view(left@) =~= array_view(held).update(
                            i as int,
                            merged_component(array_view(held)[i as int], json_view(component)),
                        ));
                    },
                    None => {
                        left.push(component);
                        assert(array_view(left@) =~= array_view(held).push(json_view(component)));
                    },
                }
            },
        }
        proof {
            done = done + 1;
        }
    }
    assert(high.take(high.len() as int) =~= high);
}

/// A kind occurs no more often than there are components.
proof fn lemma_count_bound(components: Seq<JsonView>, kind: Seq<char>)
    ensures
        count_kind(components, kind) <= components.len(),
    decreases components.len(),
{
    if components.len() > 0 {
        lemma_count_bound(components.drop_last(), kind);
    }
}

/// One further component counts for its own kind alone.
proof fn lemma_count_step(components: Seq<JsonView>, n: int)
    requires
        0 <= n < components.len(),
    ensures
        forall|k: Seq<char>| #[trigger]
            count_kind(components.take(n + 1), k) == count_kind(components.take(n), k) + (
            if kind_of(components[n]) == Some(k) {
                1nat
            } else {
                0nat
            }),
{
    assert(components.take(n + 1).drop_last() =~= components.take(n));
    assert(components.take(n + 1).last() == components[n]);
}

/// Pairing depends on kinds alone.
proof fn lemma_pairs_by_kinds(a: Seq<JsonView>, b: Seq<JsonView>, kind: Seq<char>, nth: nat)
    requires
        a.len() == b.len(),
        forall|i: int| 0 <= i < a.len() ==> kind_of(#[trigger] b[i]) == kind_of(a[i]),
    ensures
        nth_of_kind(a, kind, nth) == nth_of_kind(b, kind, nth),
{
    assert forall|i: int| is_nth_of_kind(a, kind, nth, i) == is_nth_of_kind(b, kind, nth, i) by {
        if 0 <= i < a.len() {
            lemma_count_by_kinds(b.take(i), a.take(i), kind);
            assert(kind_of(b[i]) == kind_of(a[i]));
        }
    }
    if exists|i: int| is_nth_of_kind(a, kind, nth, i) {
        let i = choose|i: int| is_nth_of_kind(a, kind, nth, i);
        lemma_nth_unique(a, kind, nth, i);
        lemma_nth_unique(b, kind, nth, i);
    } else {
        assert forall|i: int| !is_nth_of_kind(b, kind, nth, i) by {
            assert(!is_nth_of_kind(a, kind, nth, i));
        }
    }
}

/// What the values of one key of two documents give.
pub open spec fn document_field(key: Seq<char>, low: JsonView, high: JsonView) -> JsonView {
    if key == "components"@ {
        layered_components_value(low, high)
    } else {
        merged(low, high)
    }
}

/// A document with another of higher precedence laid over it.
pub open spec fn layered_document(low: JsonView, high: JsonView) -> JsonView {
    match (low, high) {
        (JsonView::Object(a), JsonView::Object(b)) => JsonView::Object(
            Map::new(
                |k: Seq<char>| a.contains_key(k) || b.contains_key(k),
                |k: Seq<char>|
                    if !b.contains_key(k) {
                        a[k]
                    } else if a.contains_key(k) {
                        document_field(k, a[k], b[k])
                    } else {
                        b[k]
                    },
            ),
        ),
        _ => high,
    }
}

/// Layers `right` (higher precedence) onto `left` in place.
///
/// Objects merge recursively and arrays/scalars are replaced by `right`, except:
///
/// - the top-level `components` array pairs entries by `kind` in order of
///   appearance so multi-instance kinds are not collapsed;
/// - lists inside a component's `config` concatenate with higher-precedence
///   entries first.
pub fn layer_config(left: &mut Json, right: Json)
    requires
        json_wf(right),
    ensures
        json_view(*final(left)) == layered_document(json_view(*old(left)), json_view(right)),
        json_wf(*old(left)) ==> json_wf(*final(left)),
{
    match right {
        Json::Object(high) => match left {
            Json::Object(low) => {
                let ghost a = object_view(low.entries@);
                let ghost b = object_view(high.entries@);
                let components = layer_all_but(low, high, "components");
                let ghost middle = *low;
                match components {
                    Some(components) => {
                        let ghost low_before = low.entries@;
                        proof {
                            lemma_object_view(low_before, "components"@);
                        }
                        match low.find("components") {
                            Some(i) => {
                                merge_plugin_components(&mut low.entries[i].1, components);
                                proof {
                                    lemma_entry_replaced(
                                        low_before,
                                        low.entries@,
                                        i as int,
                                        "components"@,
                                    );
                                }
                            },
                            None => {
                                let key = "components".to_owned();
                                low.insert(key, components);
                                proof {
                                    lemma_object_view_insert(
                                        low_before,
                                        low.entries@,
                                        "components"@,
                                        components,
                                    );
                                    if json_wf(Json::Object(middle)) {
                                        lemma_inserted_wf(middle, *low, key, components);
                                    }
                                }
                            },
                        }
                    },
                    None => {},
                }
                proof {
                    let whole = layered_document(JsonView::Object(a), JsonView::Object(b))->Object_0;
                    assert(object_view(low.entries@) =~= whole);
                }
            },
            _ => {
                *left = Json::Object(high);
            },
        },
        other => {
            *left = other;
        },
    }
}

/// Laying an empty object over a document changes nothing.
pub proof fn law_empty_overlay_changes_nothing(low: Map<Seq<char>, JsonView>)
    ensures
        layered_document(JsonView::Object(low), JsonView::Object(Map::empty())) == JsonView::Object(
            low,
        ),
{
    let whole = layered_document(
        JsonView::Object(low),
        JsonView::Object(Map::empty()),
    )->Object_0;
    assert(whole =~= low);
}

/// Laying a document over an empty object gives the document.
pub proof fn law_overlay_of_empty_is_the_overlay(high: Map<Seq<char>, JsonView>)
    ensures
        layered_document(JsonView::Object(Map::empty()), JsonView::Object(high))
            == JsonView::Object(high),
{
    let whole = layered_document(
        JsonView::Object(Map::empty()),
        JsonView::Object(high),
    )->Object_0;
    assert(whole =~= high);
}

/// A plain merge follows the higher value wherever that is no object, and gives
/// every key of either object.
pub proof fn law_merge_prefers_higher(low: JsonView, high: JsonView)
    ensures
        !(high is Object) ==> merged(low, high) == high,
        !(low is Object) ==> merged(low, high) == high,
        low is Object && high is Object ==> merged(low, high) is Object && forall|k: Seq<char>|
            #![trigger merged(low, high)->Object_0.contains_key(k)]
            merged(low, high)->Object_0.contains_key(k) <==> low->Object_0.contains_key(k)
                || high->Object_0.contains_key(k),
{
}

/// The lists directly below a component's configuration keep the entries of both,
/// those of higher precedence first.
pub proof fn law_component_lists_concatenate(
    low: Map<Seq<char>, JsonView>,
    high: Map<Seq<char>, JsonView>,
    key: Seq<char>,
    a: Seq<JsonView>,
    b: Seq<JsonView>,
    observability: bool,
)
    requires
        low.contains_key(key),
        high.contains_key(key),
        low[key] == JsonView::Array(a),
        high[key] == JsonView::Array(b),
    ensures
        field(
            layered_value(
                JsonView::Object(low),
                JsonView::Object(high),
                Seq::empty(),
                ListRule::ComponentConfig(observability),
            ),
            key,
        ) == Some(JsonView::Array(b + a)),
{
    reveal_with_fuel(layered_value, 2);
    let path = Seq::<Seq<char>>::empty().push(key);
    assert(list_concatenates(path, observability));
    assert(!signal_endpoints(path));
}

/// A component that higher precedence declares by a kind that lower precedence
/// lacks is added as it is, after all lower components.
pub proof fn law_new_component_is_appended(low: Seq<JsonView>, component: JsonView)
    requires
        match kind_of(component) {
            Some(kind) => count_kind(low, kind) == 0,
            None => true,
        },
    ensures
        layered_components(low, seq![component]) == low.push(component),
{
    let high = seq![component];
    assert(high.drop_last() =~= Seq::empty());
    assert(layered_components(low, high.drop_last()) == low);
    match kind_of(component) {
        Some(kind) => {
            if exists|i: int| is_nth_of_kind(low, kind, 0, i) {
                let i = choose|i: int| is_nth_of_kind(low, kind, 0, i);
                lemma_count_grows(low, kind, i, low.len() as int);
                assert(low.take(low.len() as int) =~= low);
            }
        },
        None => {},
    }
}

/// What both documents hold behind a row of keys is layered there.
proof fn lemma_layered_below(
    low: JsonView,
    high: JsonView,
    path: Seq<Seq<char>>,
    rule: ListRule,
    keys: Seq<Seq<char>>,
)
    requires
        found_at(low, keys) is Some,
        found_at(high, keys) is Some,
    ensures
        found_at(layered_value(low, high, path, rule), keys) == Some(
            layered_value(found_at(low, keys)->0, found_at(high, keys)->0, path + keys, rule),
        ),
    decreases keys.len(),
{
    if keys.len() == 0 {
        assert(path + keys =~= path);
    } else {
        let k = keys[0];
        let a = low->Object_0;
        let b = high->Object_0;
        lemma_layered_below(a[k], b[k], path.push(k), rule, keys.drop_first());
        assert(path.push(k) + keys.drop_first() =~= path + keys);
        let r = layered_value(low, high, path, rule);
        assert(r is Object && r->Object_0.contains_key(k));
        assert(r->Object_0[k] == layered_value(a[k], b[k], path.push(k), rule));
    }
}

/// In the configuration of the observability component, what two documents list under
/// `atof.sinks`, `opentelemetry.traces`, `opentelemetry.endpoints` and `atif.storage` is kept of
/// both, that of higher precedence first. So it is under `opentelemetry.logs.endpoints` and
/// `opentelemetry.metrics.endpoints`, where an empty list of higher precedence clears it.
pub proof fn law_observability_lists_keep_both(
    low: JsonView,
    high: JsonView,
    keys: Seq<Seq<char>>,
    a: Seq<JsonView>,
    b: Seq<JsonView>,
)
    requires
        found_at(low, keys) == Some(JsonView::Array(a)),
        found_at(high, keys) == Some(JsonView::Array(b)),
    ensures
        ({
            let r = found_at(
                layered_value(low, high, Seq::empty(), ListRule::ComponentConfig(true)),
                keys,
            );
            &&& keys == seq!["atof"@, "sinks"@] ==> r == Some(JsonView::Array(b + a))
            &&& keys == seq!["opentelemetry"@, "traces"@] ==> r == Some(JsonView::Array(b + a))
            &&& keys == seq!["opentelemetry"@, "endpoints"@] ==> r == Some(JsonView::Array(b + a))
            &&& keys == seq!["atif"@, "storage"@] ==> r == Some(JsonView::Array(b + a))
            &&& keys == seq!["opentelemetry"@, "logs"@, "endpoints"@] || keys
                == seq!["opentelemetry"@, "metrics"@, "endpoints"@] ==> r == Some(
                JsonView::Array(
                    if b.len() == 0 {
                        Seq::empty()
                    } else {
                        b + a
                    },
                ),
            )
        }),
{
    lemma_layered_below(low, high, Seq::empty(), ListRule::ComponentConfig(true), keys);
    assert(Seq::empty() + keys =~= keys);
}

/// Every other list below the first level of a component's configuration is the one of higher
/// precedence; so is every such list of a component that is not the observability component, and
/// every list of a document that is merged plainly.
pub proof fn law_other_lists_are_replaced(
    low: JsonView,
    high: JsonView,
    keys: Seq<Seq<char>>,
    a: Seq<JsonView>,
    b: Seq<JsonView>,
    observability: bool,
)
    requires
        found_at(low, keys) == Some(JsonView::Array(a)),
        found_at(high, keys) == Some(JsonView::Array(b)),
    ensures
        found_at(merged(low, high), keys) == Some(JsonView::Array(b)),
        keys.len() != 1 && (!observability || (keys != seq!["atof"@, "sinks"@] && keys
            != seq!["opentelemetry"@, "traces"@] && keys != seq!["opentelemetry"@, "endpoints"@]
            && keys != seq!["atif"@, "storage"@] && keys
            != seq!["opentelemetry"@, "logs"@, "endpoints"@] && keys
            != seq!["opentelemetry"@, "metrics"@, "endpoints"@])) ==> found_at(
            layered_value(low, high, Seq::empty(), ListRule::ComponentConfig(observability)),
            keys,
        ) == Some(JsonView::Array(b)),
{
    lemma_layered_below(low, high, Seq::empty(), ListRule::Replace, keys);
    lemma_layered_below(low, high, Seq::empty(), ListRule::ComponentConfig(observability), keys);
    assert(Seq::empty() + keys =~= keys);
    if keys.len() == 2 {
        assert(keys =~= seq![keys[0], keys[1]]);
    }
    if keys.len() == 3 {
        assert(keys =~= seq![keys[0], keys[1], keys[2]]);
    }
}

/// Behind every row of keys, a value of higher precedence that is no object and no list is the one
/// that counts, as is one that meets a value of another type; a key that only one of two objects
/// has keeps its value.
pub proof fn law_layering_prefers_higher_everywhere(
    low: JsonView,
    high: JsonView,
    rule: ListRule,
    keys: Seq<Seq<char>>,
    key: Seq<char>,
)
    requires
        found_at(low, keys) is Some,
        found_at(high, keys) is Some,
    ensures
        ({
            let r = found_at(layered_value(low, high, Seq::empty(), rule), keys);
            let a = found_at(low, keys)->0;
            let b = found_at(high, keys)->0;
            &&& r is Some
            &&& !(b is Object) && !(b is Array) ==> r == Some(b)
            &&& b is Object && !(a is Object) ==> r == Some(b)
            &&& b is Array && !(a is Array) ==> r == Some(b)
            &&& a is Object && b is Object && !field(b, key).is_some() ==> field(r->0, key)
                == field(a, key)
            &&& a is Object && b is Object && !field(a, key).is_some() ==> field(r->0, key)
                == field(b, key)
        }),
{
    lemma_layered_below(low, high, Seq::empty(), rule, keys);
}

/// Counting the components of a kind adds up: each component of the kind counts once.
pub proof fn law_components_are_counted_by_kind(
    a: Seq<JsonView>,
    b: Seq<JsonView>,
    kind: Seq<char>,
    component: JsonView,
)
    ensures
        count_kind(a + b, kind) == count_kind(a, kind) + count_kind(b, kind),
        count_kind(seq![component], kind) == (if field(component, "kind"@) == Some(
            JsonView::Text(kind),
        ) {
            1nat
        } else {
            0nat
        }),
    decreases b.len(),
{
    assert(seq![component].drop_last() =~= Seq::empty());
    assert(count_kind(seq![component].drop_last(), kind) == 0);
    if b.len() > 0 {
        law_components_are_counted_by_kind(a, b.drop_last(), kind, component);
        assert((a + b).drop_last() =~= a + b.drop_last());
    } else {
        assert(a + b =~= a);
    }
}

/// Whether a component of lower precedence and one of higher are the same in number among those of
/// their kind.
pub open spec fn pairs_up(low: Seq<JsonView>, high: Seq<JsonView>, i: int, j: int) -> bool {
    &&& 0 <= i < low.len()
    &&& 0 <= j < high.len()
    &&& kind_of(low[i]) is Some
    &&& kind_of(low[i]) == kind_of(high[j])
    &&& count_kind(low.take(i), kind_of(low[i])->0) == count_kind(
        high.take(j),
        kind_of(low[i])->0,
    )
}

/// Components pair up by kind and number: the first of a kind in one document with the first of
/// that kind in the other, and so on. A paired component is merged at its place in the lower
/// document, an unpaired one of the lower document stays as it is, and those of the higher document
/// that have no partner follow behind all of these.
pub proof fn law_components_pair_by_kind(low: Seq<JsonView>, high: Seq<JsonView>)
    ensures
        ({
            let r = layered_components(low, high);
            &&& r.len() >= low.len()
            &&& forall|i: int, j: int| #[trigger]
                pairs_up(low, high, i, j) ==> r[i] == merged_component(low[i], high[j])
            &&& forall|i: int|
                0 <= i < low.len() && (forall|j: int| !#[trigger] pairs_up(low, high, i, j))
                    ==> #[trigger] r[i] == low[i]
            &&& high.len() > 0 && (forall|i: int| !#[trigger]
                pairs_up(low, high, i, high.len() - 1)) ==> r.last() == high.last() && r.len()
                == layered_components(low, high.drop_last()).len() + 1
            &&& high.len() > 0 && (exists|i: int| #[trigger]
                pairs_up(low, high, i, high.len() - 1)) ==> r.len() == layered_components(
                low,
                high.drop_last(),
            ).len()
        }),
    decreases high.len(),
{
    let r = layered_components(low, high);
    if high.len() > 0 {
        let rest = high.drop_last();
        let last = high.len() - 1;
        let before = layered_components(low, rest);
        law_components_pair_by_kind(low, rest);
        assert forall|i: int, j: int| j < last implies #[trigger] pairs_up(low, high, i, j)
            == pairs_up(low, rest, i, j) by {
            if 0 <= j < last {
                assert(high.take(j) =~= rest.take(j));
            }
        }
        assert(high.take(last) =~= rest);
        assert forall|i: int| #[trigger] pairs_up(low, high, i, last) implies paired(low, high)
            == Some(i) && (forall|j: int| !#[trigger] pairs_up(low, rest, i, j)) by {
            let kind = kind_of(low[i])->0;
            assert(is_nth_of_kind(low, kind, count_kind(rest, kind), i));
            lemma_nth_unique(low, kind, count_kind(rest, kind), i);
            assert forall|j: int| !#[trigger] pairs_up(low, rest, i, j) by {
                if pairs_up(low, rest, i, j) {
                    lemma_count_grows(rest, kind, j, rest.len() as int);
                    assert(rest.take(rest.len() as int) =~= rest);
                }
            }
        }
        match paired(low, high) {
            Some(p) => {
                let kind = kind_of(high.last())->0;
                assert(is_nth_of_kind(low, kind, count_kind(rest, kind), p));
                assert(pairs_up(low, high, p, last));
                assert(before[p] == low[p]);
                assert forall|i: int, j: int| #[trigger] pairs_up(low, high, i, j) implies r[i]
                    == merged_component(low[i], high[j]) by {
                    if j < last {
                        assert(pairs_up(low, rest, i, j));
                        assert(i != p);
                    } else {
                        assert(i == p);
                    }
                }
                assert forall|i: int|
                    0 <= i < low.len() && (forall|j: int| !#[trigger] pairs_up(low, high, i, j))
                    implies #[trigger] r[i] == low[i] by {
                    assert(!pairs_up(low, high, i, last));
                    assert(i != p);
                    assert forall|j: int| !#[trigger] pairs_up(low, rest, i, j) by {
                        assert(!pairs_up(low, high, i, j));
                    }
                    assert(before[i] == low[i]);
                }
            },
            None => {
                assert forall|i: int, j: int| #[trigger] pairs_up(low, high, i, j) implies r[i]
                    == merged_component(low[i], high[j]) by {
                    assert(j < last);
                    assert(pairs_up(low, rest, i, j));
                }
                assert forall|i: int|
                    0 <= i < low.len() && (forall|j: int| !#[trigger] pairs_up(low, high, i, j))
                    implies #[trigger] r[i] == low[i] by {
                    assert forall|j: int| !#[trigger] pairs_up(low, rest, i, j) by {
                        assert(!pairs_up(low, high, i, j));
                    }
                    assert(before[i] == low[i]);
                }
            },
        }
    }
}

/// Two components are merged field by field. The configuration is layered by the rules for
/// component configurations, with those of the observability component where the component that
/// counts is of the kind `observability`; lists in the other fields are replaced.
pub proof fn law_components_merge_by_field(
    a: Map<Seq<char>, JsonView>,
    b: Map<Seq<char>, JsonView>,
    key: Seq<char>,
    observability: bool,
)
    requires
        observability == (match field(JsonView::Object(b), "kind"@) {
            Some(JsonView::Text(kind)) => kind == "observability"@,
            _ => field(JsonView::Object(a), "kind"@) == Some(JsonView::Text("observability"@)),
        }),
    ensures
        ({
            let r = merged_component(JsonView::Object(a), JsonView::Object(b));
            &&& r is Object
            &&& !b.contains_key(key) ==> field(r, key) == field(JsonView::Object(a), key)
            &&& !a.contains_key(key) ==> field(r, key) == field(JsonView::Object(b), key)
            &&& a.contains_key(key) && b.contains_key(key) && key != "config"@ ==> field(r, key)
                == Some(merged(a[key], b[key]))
            &&& a.contains_key("config"@) && b.contains_key("config"@) ==> field(r, "config"@)
                == Some(
                layered_value(
                    a["config"@],
                    b["config"@],
                    Seq::empty(),
                    ListRule::ComponentConfig(observability),
                ),
            )
        }),
{
}

/// In layered documents the components are paired, and every other field is merged plainly: a
/// setting of higher precedence counts, and its lists replace those of lower precedence.
pub proof fn law_documents_layer_by_field(
    a: Map<Seq<char>, JsonView>,
    b: Map<Seq<char>, JsonView>,
    key: Seq<char>,
    x: Seq<JsonView>,
    y: Seq<JsonView>,
)
    ensures
        ({
            let r = layered_document(JsonView::Object(a), JsonView::Object(b));
            &&& r is Object
            &&& !b.contains_key(key) ==> field(r, key) == field(JsonView::Object(a), key)
            &&& !a.contains_key(key) ==> field(r, key) == field(JsonView::Object(b), key)
            &&& a.contains_key(key) && b.contains_key(key) && key != "components"@ ==> field(r, key)
                == Some(merged(a[key], b[key]))
            &&& field(JsonView::Object(a), "components"@) == Some(JsonView::Array(x)) && field(
                JsonView::Object(b),
                "components"@,
            ) == Some(JsonView::Array(y)) ==> field(r, "components"@) == Some(
                JsonView::Array(layered_components(x, y)),
            )
        }),
{
}

} // verus!
