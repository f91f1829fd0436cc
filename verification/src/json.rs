//! JSON values.

use vstd::prelude::*;

use crate::text::{opt_str, text_eq};
use crate::text_map::{
    entries_map, keys_ascend, lemma_entries_domain, lemma_entries_first, lemma_unique_first, TextMap,
};

verus! {

/// A JSON number. A number that is no integer is kept as it is written.
pub enum JsonNumber {
    /// A non-negative integer.
    Unsigned(u64),
    /// A negative integer.
    Negative(i64),
    /// Any other number, as it is written.
    Float(String),
}

/// A JSON value.
pub enum Json {
    /// `null`.
    Null,
    /// A boolean.
    Bool(bool),
    /// A number.
    Number(JsonNumber),
    /// A string.
    Text(String),
    /// An array.
    Array(Vec<Json>),
    /// An object.
    Object(TextMap<Json>),
}

/// The mathematical form of a JSON number.
pub ghost enum NumberView {
    /// A non-negative integer.
    Unsigned(u64),
    /// A negative integer.
    Negative(i64),
    /// Any other number, as it is written.
    Float(Seq<char>),
}

/// The mathematical form of a JSON value.
pub ghost enum JsonView {
    /// `null`.
    Null,
    /// A boolean.
    Bool(bool),
    /// A number.
    Number(NumberView),
    /// A string.
    Text(Seq<char>),
    /// An array.
    Array(Seq<JsonView>),
    /// An object.
    Object(Map<Seq<char>, JsonView>),
}

/// The mathematical form of a number.
pub open spec fn number_view(n: JsonNumber) -> NumberView {
    match n {
        JsonNumber::Unsigned(v) => NumberView::Unsigned(v),
        JsonNumber::Negative(v) => NumberView::Negative(v),
        JsonNumber::Float(s) => NumberView::Float(s@),
    }
}

/// The mathematical form of a value.
pub open spec fn json_view(j: Json) -> JsonView
    decreases j,
{
    match j {
        Json::Null => JsonView::Null,
        Json::Bool(b) => JsonView::Bool(b),
        Json::Number(n) => JsonView::Number(number_view(n)),
        Json::Text(s) => JsonView::Text(s@),
        Json::Array(v) => JsonView::Array(array_view(v@)),
        Json::Object(m) => JsonView::Object(object_view(m.entries@)),
    }
}

/// The mathematical form of a list of values.
pub open spec fn array_view(items: Seq<Json>) -> Seq<JsonView>
    decreases items,
{
    Seq::new(
        items.len(),
        |i: int|
            if 0 <= i < items.len() {
                json_view(items[i])
            } else {
                JsonView::Null
            },
    )
}

/// The mathematical form of a list of entries.
pub open spec fn object_view(entries: Seq<(String, Json)>) -> Map<Seq<char>, JsonView>
    decreases entries,
{
    if entries.len() == 0 {
        Map::empty()
    } else {
        object_view(entries.subrange(1, entries.len() as int)).insert(
            entries[0].0@,
            json_view(entries[0].1),
        )
    }
}

/// Whether the keys of every object in a value ascend strictly.
pub open spec fn json_wf(j: Json) -> bool
    decreases j,
{
    match j {
        Json::Array(v) => items_wf(v@),
        Json::Object(m) => keys_ascend(m.entries@) && entries_wf(m.entries@),
        _ => true,
    }
}

/// Whether every item of a list is well-formed.
pub open spec fn items_wf(items: Seq<Json>) -> bool
    decreases items,
{
    forall|i: int| 0 <= i < items.len() ==> json_wf(#[trigger] items[i])
}

/// Whether the value of every entry of a list is well-formed.
pub open spec fn entries_wf(entries: Seq<(String, Json)>) -> bool
    decreases entries,
{
    forall|i: int| 0 <= i < entries.len() ==> json_wf((#[trigger] entries[i]).1)
}

/// The mathematical form of an object follows the map of its entries.
pub proof fn lemma_object_view(entries: Seq<(String, Json)>, key: Seq<char>)
    ensures
        object_view(entries).contains_key(key) == entries_map(entries).contains_key(key),
        entries_map(entries).contains_key(key) ==> object_view(entries)[key] == json_view(
            entries_map(entries)[key],
        ),
    decreases entries.len(),
{
    if entries.len() > 0 {
        lemma_object_view(entries.subrange(1, entries.len() as int), key);
    }
}

/// Objects whose maps differ in one key differ so in their mathematical form.
pub proof fn lemma_object_view_insert(
    before: Seq<(String, Json)>,
    after: Seq<(String, Json)>,
    key: Seq<char>,
    value: Json,
)
    requires
        entries_map(after) == entries_map(before).insert(key, value),
    ensures
        object_view(after) == object_view(before).insert(key, json_view(value)),
{
    assert forall|k: Seq<char>| #[trigger]
        object_view(after).contains_key(k) == object_view(before).insert(
            key,
            json_view(value),
        ).contains_key(k) by {
        lemma_object_view(before, k);
        lemma_object_view(after, k);
    }
    assert forall|k: Seq<char>| #[trigger] object_view(after).contains_key(k) implies object_view(
        after,
    )[k] == object_view(before).insert(key, json_view(value))[k] by {
        lemma_object_view(before, k);
        lemma_object_view(after, k);
    }
    assert(object_view(after) =~= object_view(before).insert(key, json_view(value)));
}

/// Removing a key from an object removes it from its mathematical form.
pub proof fn lemma_object_view_remove(
    before: Seq<(String, Json)>,
    after: Seq<(String, Json)>,
    key: Seq<char>,
)
    requires
        entries_map(after) == entries_map(before).remove(key),
    ensures
        object_view(after) == object_view(before).remove(key),
{
    assert forall|k: Seq<char>| #[trigger]
        object_view(after).contains_key(k) == object_view(before).remove(key).contains_key(k) by {
        lemma_object_view(before, k);
        lemma_object_view(after, k);
    }
    assert forall|k: Seq<char>| #[trigger] object_view(after).contains_key(k) implies object_view(
        after,
    )[k] == object_view(before).remove(key)[k] by {
        lemma_object_view(before, k);
        lemma_object_view(after, k);
    }
    assert(object_view(after) =~= object_view(before).remove(key));
}

/// The value that an object has under a key.
pub open spec fn field(value: JsonView, key: Seq<char>) -> Option<JsonView> {
    match value {
        JsonView::Object(m) => if m.contains_key(key) {
            Some(m[key])
        } else {
            None
        },
        _ => None,
    }
}

/// What stands in a document behind a row of keys.
pub open spec fn found_at(document: JsonView, keys: Seq<Seq<char>>) -> Option<JsonView>
    decreases keys.len(),
{
    if keys.len() == 0 {
        Some(document)
    } else {
        match document {
            JsonView::Object(m) => if m.contains_key(keys[0]) {
                found_at(m[keys[0]], keys.drop_first())
            } else {
                None
            },
            _ => None,
        }
    }
}

/// The text of a string value.
pub open spec fn text_of(value: Option<JsonView>) -> Option<Seq<char>> {
    match value {
        Some(JsonView::Text(s)) => Some(s),
        _ => None,
    }
}

/// The boolean of a boolean value.
pub open spec fn bool_of(value: Option<JsonView>) -> Option<bool> {
    match value {
        Some(JsonView::Bool(b)) => Some(b),
        _ => None,
    }
}

/// The items of an array value.
pub open spec fn items_of(value: Option<JsonView>) -> Option<Seq<JsonView>> {
    match value {
        Some(JsonView::Array(items)) => Some(items),
        _ => None,
    }
}

/// The value that a value which may be missing has under a key.
pub open spec fn inner_field(value: Option<JsonView>, key: Seq<char>) -> Option<JsonView> {
    match value {
        Some(v) => field(v, key),
        None => None,
    }
}

/// The first item of an array value.
pub open spec fn first_of(value: Option<JsonView>) -> Option<JsonView> {
    match items_of(value) {
        Some(items) => if items.len() > 0 {
            Some(items[0])
        } else {
            None
        },
        None => None,
    }
}

/// The mathematical form of a value that may be missing.
pub open spec fn opt_view(value: Option<&Json>) -> Option<JsonView> {
    match value {
        Some(j) => Some(json_view(*j)),
        None => None,
    }
}

impl Json {
    /// The value that an object has under a key.
    pub fn get(&self, key: &str) -> (r: Option<&Json>)
        ensures
            opt_view(r) == field(json_view(*self), key@),
            json_wf(*self) && r is Some ==> json_wf(*r->0),
    {
        match self {
            Json::Object(m) => {
                proof {
                    lemma_object_view(m.entries@, key@);
                }
                match m.find(key) {
                    Some(i) => Some(&m.entries[i].1),
                    None => None,
                }
            },
            _ => None,
        }
    }

    /// The text of a string value.
    pub fn as_str(&self) -> (r: Option<&str>)
        ensures
            opt_str(r) == text_of(Some(json_view(*self))),
    {
        match self {
            Json::Text(s) => Some(s.as_str()),
            _ => None,
        }
    }

    /// The boolean of a boolean value.
    pub fn as_bool(&self) -> (r: Option<bool>)
        ensures
            r == bool_of(Some(json_view(*self))),
    {
        match self {
            Json::Bool(b) => Some(*b),
            _ => None,
        }
    }

    /// The items of an array value.
    pub fn as_array(&self) -> (r: Option<&Vec<Json>>)
        ensures
            match r {
                Some(v) => *self == Json::Array(*v) && json_view(*self) == JsonView::Array(
                    array_view(v@),
                ),
                None => !(json_view(*self) is Array),
            },
    {
        match self {
            Json::Array(v) => Some(v),
            _ => None,
        }
    }

    /// Whether the value is `null`.
    pub fn is_null(&self) -> (r: bool)
        ensures
            r == (json_view(*self) == JsonView::Null),
    {
        matches!(self, Json::Null)
    }
}

/// The text that an object has under a key.
pub fn text_field<'a>(value: &'a Json, key: &str) -> (r: Option<&'a str>)
    ensures
        opt_str(r) == text_of(field(json_view(*value), key@)),
{
    match value.get(key) {
        Some(j) => j.as_str(),
        None => None,
    }
}

/// The boolean that an object has under a key.
pub fn bool_field(value: &Json, key: &str) -> (r: Option<bool>)
    ensures
        r == bool_of(field(json_view(*value), key@)),
{
    match value.get(key) {
        Some(j) => j.as_bool(),
        None => None,
    }
}

/// The value that a value which may be missing has under a key.
pub fn inner_value<'a>(value: Option<&'a Json>, key: &str) -> (r: Option<&'a Json>)
    ensures
        opt_view(r) == inner_field(opt_view(value), key@),
{
    match value {
        Some(v) => v.get(key),
        None => None,
    }
}

/// The text that a value which may be missing has under a key.
pub fn inner_text<'a>(value: Option<&'a Json>, key: &str) -> (r: Option<&'a str>)
    ensures
        opt_str(r) == text_of(inner_field(opt_view(value), key@)),
{
    match value {
        Some(v) => text_field(v, key),
        None => None,
    }
}

/// Whether a text is there and equals another.
pub fn is_text(value: Option<&str>, expected: &str) -> (r: bool)
    ensures
        r == (opt_str(value) == Some(expected@)),
{
    match value {
        Some(v) => text_eq(v, expected),
        None => false,
    }
}

/// The first item of an array value.
pub fn first_item(value: Option<&Json>) -> (r: Option<&Json>)
    ensures
        opt_view(r) == first_of(opt_view(value)),
{
    match value {
        Some(v) => match v.as_array() {
            Some(items) => if items.len() > 0 {
                assert(array_view(items@)[0] == json_view(items@[0]));
                Some(&items[0])
            } else {
                None
            },
            None => None,
        },
        None => None,
    }
}

/// A copy of a value.
pub fn copy_json(value: &Json) -> (r: Json)
    ensures
        json_view(r) == json_view(*value),
        json_wf(*value) ==> json_wf(r),
    decreases value,
{
    match value {
        Json::Null => Json::Null,
        Json::Bool(b) => Json::Bool(*b),
        Json::Number(n) => Json::Number(
            match n {
                JsonNumber::Unsigned(v) => JsonNumber::Unsigned(*v),
                JsonNumber::Negative(v) => JsonNumber::Negative(*v),
                JsonNumber::Float(s) => JsonNumber::Float(s.clone()),
            },
        ),
        Json::Text(s) => Json::Text(s.clone()),
        Json::Array(v) => {
            let mut out: Vec<Json> = Vec::new();
            let mut i: usize = 0;
            while i < v.len()
                invariant
                    i <= v.len(),
                    out.len() == i,
                    *value == Json::Array(*v),
                    forall|k: int| 0 <= k < i ==> json_view(#[trigger] out@[k]) == json_view(v@[k]),
                    json_wf(*value) ==> forall|k: int| 0 <= k < i ==> json_wf(#[trigger] out@[k]),
                decreases v.len() - i,
            {
                proof {
                    if json_wf(*value) {
                        lemma_array_item_wf(*v, i as int);
                    }
                }
                out.push(copy_json(&v[i]));
                i += 1;
            }
            assert(array_view(out@) =~= array_view(v@));
            Json::Array(out)
        },
        Json::Object(m) => {
            let mut out: Vec<(String, Json)> = Vec::new();
            let mut i: usize = 0;
            while i < m.entries.len()
                invariant
                    i <= m.entries.len(),
                    out.len() == i,
                    *value == Json::Object(*m),
                    forall|k: int|
                        0 <= k < i ==> (#[trigger] out@[k]).0 == m.entries@[k].0 && json_view(
                            out@[k].1,
                        ) == json_view(m.entries@[k].1),
                    json_wf(*value) ==> forall|k: int|
                        0 <= k < i ==> json_wf((#[trigger] out@[k]).1),
                decreases m.entries.len() - i,
            {
                assert(json_wf(*value) ==> json_wf(m.entries@[i as int].1));
                out.push((m.entries[i].0.clone(), copy_json(&m.entries[i].1)));
                i += 1;
            }
            proof {
                lemma_same_entries(out@, m.entries@);
                if keys_ascend(m.entries@) {
                    assert forall|a: int, b: int| 0 <= a < b < out.len() implies crate::text::less(
                        (#[trigger] out@[a]).0@,
                        (#[trigger] out@[b]).0@,
                    ) by {
                        assert(crate::text::less(m.entries@[a].0@, m.entries@[b].0@));
                    }
                }
            }
            Json::Object(TextMap { entries: out })
        },
    }
}

/// Whether two numbers are written alike.
fn number_eq(a: &JsonNumber, b: &JsonNumber) -> (r: bool)
    ensures
        r == (number_view(*a) == number_view(*b)),
{
    match (a, b) {
        (JsonNumber::Unsigned(x), JsonNumber::Unsigned(y)) => *x == *y,
        (JsonNumber::Negative(x), JsonNumber::Negative(y)) => *x == *y,
        (JsonNumber::Float(x), JsonNumber::Float(y)) => text_eq(x.as_str(), y.as_str()),
        _ => false,
    }
}

/// Whether two values are equal.
pub fn json_eq(a: &Json, b: &Json) -> (r: bool)
    requires
        json_wf(*a),
        json_wf(*b),
    ensures
        r == (json_view(*a) == json_view(*b)),
    decreases a,
{
    match (a, b) {
        (Json::Null, Json::Null) => true,
        (Json::Bool(x), Json::Bool(y)) => *x == *y,
        (Json::Number(x), Json::Number(y)) => number_eq(x, y),
        (Json::Text(x), Json::Text(y)) => text_eq(x.as_str(), y.as_str()),
        (Json::Array(x), Json::Array(y)) => {
            if x.len() != y.len() {
                assert(array_view(x@).len() != array_view(y@).len());
                return false;
            }
            let mut i: usize = 0;
            while i < x.len()
                invariant
                    i <= x.len(),
                    x.len() == y.len(),
                    *a == Json::Array(*x),
                    *b == Json::Array(*y),
                    json_wf(*a),
                    json_wf(*b),
                    forall|k: int| 0 <= k < i ==> json_view(#[trigger] x@[k]) == json_view(y@[k]),
                decreases x.len() - i,
            {
                proof {
                    lemma_array_item_wf(*x, i as int);
                    lemma_array_item_wf(*y, i as int);
                }
                if !json_eq(&x[i], &y[i]) {
                    assert(array_view(x@)[i as int] != array_view(y@)[i as int]);
                    return false;
                }
                i += 1;
            }
            assert(array_view(x@) =~= array_view(y@));
            true
        },
        (Json::Object(x), Json::Object(y)) => objects_eq(x, y),
        _ => false,
    }
}

/// Whether two objects hold the same fields.
pub fn objects_eq(a: &TextMap<Json>, b: &TextMap<Json>) -> (r: bool)
    requires
        json_wf(Json::Object(*a)),
        json_wf(Json::Object(*b)),
    ensures
        r == (object_view(a.entries@) == object_view(b.entries@)),
    decreases a,
{
    let ghost left = object_view(a.entries@);
    let ghost right = object_view(b.entries@);
    let mut i: usize = 0;
    while i < a.entries.len()
        invariant
            i <= a.entries.len(),
            json_wf(Json::Object(*a)),
            json_wf(Json::Object(*b)),
            left == object_view(a.entries@),
            right == object_view(b.entries@),
            forall|k: int|
                0 <= k < i ==> right.contains_key((#[trigger] a.entries@[k]).0@)
                    && right[a.entries@[k].0@] == json_view(a.entries@[k].1),
        decreases a.entries.len() - i,
    {
        let key = &a.entries[i].0;
        proof {
            lemma_unique_first(a.entries@, i as int);
            lemma_entries_first(a.entries@, key@, i as int);
            lemma_object_view(a.entries@, key@);
            lemma_object_view(b.entries@, key@);
            assert(json_wf(a.entries@[i as int].1));
        }
        match b.find(key.as_str()) {
            None => {
                assert(left.contains_key(key@) && !right.contains_key(key@));
                return false;
            },
            Some(j) => {
                assert(json_wf(b.entries@[j as int].1));
                if !json_eq(&a.entries[i].1, &b.entries[j].1) {
                    assert(left[key@] != right[key@]);
                    return false;
                }
            },
        }
        i += 1;
    }
    let mut j: usize = 0;
    while j < b.entries.len()
        invariant
            j <= b.entries.len(),
            left == object_view(a.entries@),
            right == object_view(b.entries@),
            forall|k: int| 0 <= k < j ==> left.contains_key((#[trigger] b.entries@[k]).0@),
        decreases b.entries.len() - j,
    {
        let key = &b.entries[j].0;
        proof {
            lemma_object_view(a.entries@, key@);
            lemma_object_view(b.entries@, key@);
            lemma_entries_domain(b.entries@, key@);
        }
        if !a.contains_key(key.as_str()) {
            assert(right.contains_key(key@) && !left.contains_key(key@));
            return false;
        }
        j += 1;
    }
    proof {
        assert forall|k: Seq<char>| left.contains_key(k) == right.contains_key(k) by {
            lemma_object_view(a.entries@, k);
            lemma_object_view(b.entries@, k);
            lemma_entries_domain(a.entries@, k);
            lemma_entries_domain(b.entries@, k);
        }
        assert forall|k: Seq<char>| left.contains_key(k) implies left[k] == right[k] by {
            lemma_object_view(a.entries@, k);
            lemma_entries_domain(a.entries@, k);
            let n = choose|n: int| 0 <= n < a.entries@.len() && (#[trigger] a.entries@[n]).0@ == k;
            lemma_unique_first(a.entries@, n);
            lemma_entries_first(a.entries@, k, n);
        }
        assert(left =~= right);
    }
    true
}

/// The items of a well-formed array are well-formed.
pub proof fn lemma_array_item_wf(items: Vec<Json>, i: int)
    requires
        json_wf(Json::Array(items)),
        0 <= i < items@.len(),
    ensures
        json_wf(items@[i]),
{
}

/// Entries that agree in key and value have the same mathematical form.
pub proof fn lemma_same_entries(a: Seq<(String, Json)>, b: Seq<(String, Json)>)
    requires
        a.len() == b.len(),
        forall|k: int|
            0 <= k < a.len() ==> (#[trigger] a[k]).0 == b[k].0 && json_view(a[k].1) == json_view(
                b[k].1,
            ),
    ensures
        object_view(a) == object_view(b),
    decreases a.len(),
{
    if a.len() > 0 {
        lemma_same_entries(a.subrange(1, a.len() as int), b.subrange(1, b.len() as int));
    }
}

/// An ordered object with a well-formed value put in stays well-formed.
pub proof fn lemma_inserted_wf(
    before: TextMap<Json>,
    after: TextMap<Json>,
    key: String,
    value: Json,
)
    requires
        json_wf(Json::Object(before)),
        json_wf(value),
        after.ordered(),
        forall|i: int|
            0 <= i < after.entries@.len() ==> (#[trigger] after.entries@[i]) == (key, value)
                || before.entries@.contains(after.entries@[i]),
    ensures
        json_wf(Json::Object(after)),
{
    assert forall|i: int| 0 <= i < after.entries@.len() implies json_wf(
        (#[trigger] after.entries@[i]).1,
    ) by {
        if after.entries@[i] != (key, value) {
            let j = before.entries@.index_of(after.entries@[i]);
            assert(before.entries@[j] == after.entries@[i]);
        }
    }
}

/// Sets a field of an object.
pub fn put(object: &mut TextMap<Json>, key: &str, value: Json)
    ensures
        object_view(final(object).entries@) == object_view(old(object).entries@).insert(
            key@,
            json_view(value),
        ),
        json_wf(Json::Object(*old(object))) && json_wf(value) ==> json_wf(
            Json::Object(*final(object)),
        ),
{
    let ghost before = *object;
    let name = key.to_owned();
    object.insert(name, value);
    proof {
        lemma_object_view_insert(before.entries@, object.entries@, key@, value);
        if json_wf(Json::Object(before)) && json_wf(value) {
            lemma_inserted_wf(before, *object, name, value);
        }
    }
}

/// A string value.
pub fn text_json(value: &str) -> (r: Json)
    ensures
        json_view(r) == JsonView::Text(value@),
        json_wf(r),
{
    Json::Text(value.to_owned())
}

/// An object without fields.
pub fn new_object() -> (r: TextMap<Json>)
    ensures
        object_view(r.entries@) == Map::<Seq<char>, JsonView>::empty(),
        json_wf(Json::Object(r)),
{
    TextMap::new()
}

/// An object with one field.
pub fn object1(
    a: &str,
    a_value: Json,
) -> (r: Json)
    ensures
        json_view(r) == JsonView::Object(map![a@ => json_view(a_value)]),
        json_wf(a_value) ==> json_wf(r),
{
    let mut object = new_object();
    put(&mut object, a, a_value);
    Json::Object(object)
}

/// An object with two fields.
pub fn object2(
    a: &str,
    a_value: Json,
    b: &str,
    b_value: Json,
) -> (r: Json)
    ensures
        json_view(r) == JsonView::Object(map![a@ => json_view(a_value), b@ => json_view(b_value)]),
        json_wf(a_value) && json_wf(b_value) ==> json_wf(r),
{
    let mut object = new_object();
    put(&mut object, a, a_value);
    put(&mut object, b, b_value);
    Json::Object(object)
}

/// An object with three fields.
pub fn object3(
    a: &str,
    a_value: Json,
    b: &str,
    b_value: Json,
    c: &str,
    c_value: Json,
) -> (r: Json)
    ensures
        json_view(r) == JsonView::Object(map![a@ => json_view(a_value), b@ => json_view(b_value), c@ => json_view(c_value)]),
        json_wf(a_value) && json_wf(b_value) && json_wf(c_value) ==> json_wf(r),
{
    let mut object = new_object();
    put(&mut object, a, a_value);
    put(&mut object, b, b_value);
    put(&mut object, c, c_value);
    Json::Object(object)
}

/// The mathematical form of an optional value.
pub open spec fn opt_json(value: Option<Json>) -> Option<JsonView> {
    match value {
        Some(v) => Some(json_view(v)),
        None => None,
    }
}

/// A value gives what it is, and nothing where it is something else.
pub proof fn law_values_are_read_by_type(value: JsonView, key: Seq<char>)
    ensures
        text_of(Some(value)) == (match value {
            JsonView::Text(s) => Some(s),
            _ => None,
        }),
        bool_of(Some(value)) == (match value {
            JsonView::Bool(b) => Some(b),
            _ => None,
        }),
        items_of(Some(value)) == (match value {
            JsonView::Array(items) => Some(items),
            _ => None,
        }),
        text_of(None) is None,
        bool_of(None) is None,
        items_of(None) is None,
        field(value, key) == found_at(value, seq![key]),
        inner_field(Some(value), key) == field(value, key),
        inner_field(None, key) is None,
        value matches JsonView::Array(items) ==> (items.len() > 0 ==> first_of(Some(value)) == Some(
            items[0],
        )),
        value == JsonView::Array(Seq::empty()) || !(value is Array) ==> first_of(Some(value)) is None,
{
    reveal_with_fuel(found_at, 2);
    assert(seq![key].drop_first() =~= Seq::empty());
}

/// Lists keep their items in order, and numbers keep their kind and value.
pub proof fn law_items_and_numbers_are_kept(
    items: Seq<Json>,
    i: int,
    unsigned: u64,
    negative: i64,
    text: String,
)
    ensures
        array_view(items).len() == items.len(),
        0 <= i < items.len() ==> array_view(items)[i] == json_view(items[i]),
        number_view(JsonNumber::Unsigned(unsigned)) == NumberView::Unsigned(unsigned),
        number_view(JsonNumber::Negative(negative)) == NumberView::Negative(negative),
        number_view(JsonNumber::Float(text)) == NumberView::Float(text@),
{
}

} // verus!
