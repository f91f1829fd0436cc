//! Discovery of plugin configuration files and their layering.

use vstd::prelude::*;

use crate::config::{
    default_policy, findings, push_diagnostic, ConfigDiagnostic, ConfigPolicy, DiagnosticLevel,
    DiagnosticView, PluginComponentSpec, PluginConfig, UnsupportedBehavior, PLUGIN_CONFIG_VERSION,
};
use crate::error::{self, ErrorView, PluginError};
use crate::json::{
    array_view, bool_field, bool_of, copy_json, field, items_of, items_wf, json_view, json_wf,
    lemma_inserted_wf, lemma_object_view_insert, new_object, object_view, put, text_json, Json,
    JsonNumber, JsonView, NumberView,
};
use crate::json_text::{json_u32, parse_toml, toml_of, u32_error_of, u32_of};
use crate::layering::{
    component_kind, count_kind, kind_of, layer_config, layered_document, nth_component_by_kind,
    nth_of_kind,
};
use crate::paths::{
    adjoined, ends_with, join_for, lemma_config_directory_name, lemma_config_file_name,
    lemma_home_config_directory, unix_joined, verbatim,
};
use crate::text::{
    self, concat2, concat4, concat5, format_u64, join, less, opt_str, text_eq, texts,
};
use crate::text_map::TextMap;

verus! {

/// Keeps, of paths that lead to the same file, the one of highest precedence. The
/// paths come lowest precedence first, with the file that each leads to.
pub open spec fn deduplicated(
    paths: Seq<Seq<char>>,
    identities: Seq<Seq<char>>,
    n: nat,
) -> Seq<Seq<char>>
    decreases n,
{
    if n == 0 {
        Seq::empty()
    } else {
        let i = n - 1;
        let before = deduplicated(paths, identities, i as nat);
        if occurs_after(identities, i) {
            before
        } else {
            before.push(paths[i])
        }
    }
}

/// Whether the text at a position occurs again later.
pub open spec fn occurs_after(items: Seq<Seq<char>>, i: int) -> bool {
    exists|j: int| i < j < items.len() && #[trigger] items[j] == items[i]
}

/// Removes physical duplicates while preserving the highest-precedence path.
/// `identities` holds the file that each path leads to.
pub fn deduplicate_plugin_config_paths(paths: &Vec<String>, identities: &Vec<String>) -> (r: Vec<
    String,
>)
    requires
        paths@.len() == identities@.len(),
    ensures
        texts(r@) == deduplicated(texts(paths@), texts(identities@), paths@.len()),
{
    let mut unique: Vec<String> = Vec::new();
    let mut i: usize = 0;
    assert(texts(unique@) =~= Seq::empty());
    while i < paths.len()
        invariant
            i <= paths.len(),
            paths@.len() == identities@.len(),
            texts(unique@) == deduplicated(texts(paths@), texts(identities@), i as nat),
        decreases paths.len() - i,
    {
        if !text_occurs_after(identities, i) {
            let ghost before = unique@;
            unique.push(paths[i].clone());
            assert(texts(unique@) =~= texts(before).push(paths@[i as int]@));
        }
        i += 1;
    }
    unique
}

/// Whether the text at a position occurs again later.
fn text_occurs_after(items: &Vec<String>, i: usize) -> (r: bool)
    requires
        i < items.len(),
    ensures
        r == occurs_after(texts(items@), i as int),
{
    let mut j: usize = i + 1;
    while j < items.len()
        invariant
            i < j <= items.len(),
            forall|k: int| i < k < j ==> texts(items@)[k] != texts(items@)[i as int],
        decreases items.len() - j,
    {
        if text_eq(items[j].as_str(), items[i].as_str()) {
            assert(texts(items@)[j as int] == texts(items@)[i as int]);
            return true;
        }
        j += 1;
    }
    false
}

/// Every file is kept once: what is kept are exactly the paths whose file no later
/// path leads to, in their order.
pub proof fn law_deduplication_keeps_each_file_once(
    paths: Seq<Seq<char>>,
    identities: Seq<Seq<char>>,
    i: int,
)
    requires
        paths.len() == identities.len(),
        0 <= i < paths.len(),
        !occurs_after(identities, i),
    ensures
        deduplicated(paths, identities, paths.len()).contains(paths[i]),
{
    lemma_deduplicated_contains(paths, identities, paths.len(), i);
}

/// A path that is kept stays kept.
proof fn lemma_deduplicated_contains(
    paths: Seq<Seq<char>>,
    identities: Seq<Seq<char>>,
    n: nat,
    i: int,
)
    requires
        0 <= i < n <= paths.len() == identities.len(),
        !occurs_after(identities, i),
    ensures
        deduplicated(paths, identities, n).contains(paths[i]),
    decreases n,
{
    let all = deduplicated(paths, identities, n);
    if i == n - 1 {
        assert(all[all.len() - 1] == paths[i]);
    } else {
        lemma_deduplicated_contains(paths, identities, (n - 1) as nat, i);
        let before = deduplicated(paths, identities, (n - 1) as nat);
        let k = before.index_of(paths[i]);
        assert(all[k] == paths[i]);
    }
}

/// Where there are no repeats, nothing is dropped.
pub proof fn law_deduplication_keeps_distinct_files(
    paths: Seq<Seq<char>>,
    identities: Seq<Seq<char>>,
    n: nat,
)
    requires
        n <= paths.len() == identities.len(),
        forall|i: int, j: int|
            0 <= i < j < identities.len() ==> #[trigger] identities[i] != #[trigger] identities[j],
    ensures
        deduplicated(paths, identities, n) == paths.take(n as int),
    decreases n,
{
    if n > 0 {
        law_deduplication_keeps_distinct_files(paths, identities, (n - 1) as nat);
        assert(paths.take(n as int) =~= paths.take(n - 1).push(paths[n - 1]));
    } else {
        assert(paths.take(0) =~= Seq::empty());
    }
}

/// Where plugin configuration files are looked for, lowest precedence first: the
/// user's, then the system's.
pub fn plugin_config_paths(user: Option<String>, system: String) -> (r: Vec<String>)
    ensures
        r@ == (match user {
            Some(path) => seq![path, system],
            None => seq![system],
        }),
{
    let mut paths: Vec<String> = Vec::new();
    match user {
        Some(path) => paths.push(path),
        None => {},
    }
    paths.push(system);
    assert(paths@ =~= (match user {
        Some(path) => seq![path, system],
        None => seq![system],
    }));
    paths
}

/// Whether a path is that of a name below a directory, on Windows or on a platform where `/`
/// separates the components of a path.
pub open spec fn lies_below(
    windows: bool,
    directory: Seq<char>,
    name: Seq<char>,
    path: Seq<char>,
) -> bool {
    if windows {
        ends_with(path, name) && (!verbatim(directory) ==> adjoined(directory, name, path))
    } else {
        path == unix_joined(directory, name)
    }
}

/// Where the configuration file of a directory lies.
fn config_file(windows: bool, directory: &str) -> (r: String)
    ensures
        lies_below(windows, directory@, "plugins.toml"@, r@),
{
    proof {
        lemma_config_file_name();
    }
    join_for(windows, directory, "plugins.toml")
}

/// Whether paths are those of the configuration files, lowest precedence first: the user's, where
/// there is a user directory, and the system's.
pub open spec fn default_paths(
    user_dir: Option<Seq<char>>,
    windows: bool,
    program_data: Option<Seq<char>>,
    paths: Seq<Seq<char>>,
) -> bool {
    match user_dir {
        Some(dir) => {
            &&& paths.len() == 2
            &&& lies_below(windows, dir, "plugins.toml"@, paths[0])
            &&& system_config_file(windows, program_data, paths[1])
        },
        None => paths.len() == 1 && system_config_file(windows, program_data, paths[0]),
    }
}

/// Default `plugins.toml` search path (lowest precedence first): user, then
/// system. Which separator Windows is given between a directory and the file name rests on the
/// platform that the library runs on.
pub fn default_plugin_config_paths(
    user_dir: Option<&str>,
    windows: bool,
    program_data: Option<&str>,
) -> (r: Vec<String>)
    ensures
        default_paths(opt_str(user_dir), windows, opt_str(program_data), texts(r@)),
{
    let user = match user_dir {
        Some(dir) => Some(config_file(windows, dir)),
        None => None,
    };
    let system_dir = system_config_dir(windows, program_data);
    let system = config_file(windows, system_dir.as_str());
    proof {
        assert(is_system_config_dir(windows, opt_str(program_data), system_dir@));
        if !windows {
            lemma_system_config_file();
        }
    }
    plugin_config_paths(user, system)
}

/// The system's configuration file where it lies in a fixed place.
proof fn lemma_system_config_file()
    ensures
        unix_joined("/etc/nemo-relay"@, "plugins.toml"@) == "/etc/nemo-relay/plugins.toml"@,
{
    reveal_strlit("/etc/nemo-relay");
    reveal_strlit("/");
    reveal_strlit("plugins.toml");
    reveal_strlit("/etc/nemo-relay/plugins.toml");
    assert("/etc/nemo-relay"@ + "/"@ + "plugins.toml"@ =~= "/etc/nemo-relay/plugins.toml"@);
}

/// Whether a path is that of the system's configuration file: a fixed one, but on Windows the
/// one in the system configuration directory.
pub open spec fn system_config_file(
    windows: bool,
    program_data: Option<Seq<char>>,
    path: Seq<char>,
) -> bool {
    if windows {
        exists|directory: Seq<char>| #[trigger]
            is_system_config_dir(true, program_data, directory) && lies_below(
                true,
                directory,
                "plugins.toml"@,
                path,
            )
    } else {
        path == "/etc/nemo-relay/plugins.toml"@
    }
}

/// Whether a path is the system configuration directory: a fixed one, but on Windows the one
/// below `ProgramData`.
pub open spec fn is_system_config_dir(
    windows: bool,
    program_data: Option<Seq<char>>,
    directory: Seq<char>,
) -> bool {
    if windows {
        lies_below(
            true,
            match program_data {
                Some(base) => base,
                None => "C:\\ProgramData"@,
            },
            "nemo-relay"@,
            directory,
        )
    } else {
        directory == "/etc/nemo-relay"@
    }
}

/// Resolves the platform system configuration directory. `program_data` is what the variable
/// `ProgramData` holds.
pub fn system_config_dir(windows: bool, program_data: Option<&str>) -> (r: String)
    ensures
        is_system_config_dir(windows, opt_str(program_data), r@),
{
    if windows {
        proof {
            lemma_config_directory_name();
        }
        let base = match program_data {
            Some(base) => base,
            None => "C:\\ProgramData",
        };
        join_for(true, base, "nemo-relay")
    } else {
        "/etc/nemo-relay".to_owned()
    }
}

/// Whether a directory is the user configuration directory, by what the variables
/// `XDG_CONFIG_HOME`, `HOME` and `USERPROFILE` hold.
pub open spec fn is_user_config_dir(
    windows: bool,
    xdg_config_home: Option<Seq<char>>,
    home: Option<Seq<char>>,
    user_profile: Option<Seq<char>>,
    directory: Option<Seq<char>>,
) -> bool {
    let base = if home is Some {
        home
    } else {
        user_profile
    };
    match (xdg_config_home, base, directory) {
        (Some(base), _, Some(directory)) => lies_below(windows, base, "nemo-relay"@, directory),
        (None, Some(base), Some(directory)) => if windows {
            !verbatim(base) ==> adjoined(base, ".config/nemo-relay"@, directory)
        } else {
            directory == unix_joined(base, ".config/nemo-relay"@)
        },
        (None, None, None) => true,
        _ => false,
    }
}

/// Resolves the user configuration directory from what the variables `XDG_CONFIG_HOME`, `HOME`
/// and `USERPROFILE` hold, the first that is set.
pub fn user_config_dir(
    windows: bool,
    xdg_config_home: Option<String>,
    home: Option<String>,
    user_profile: Option<String>,
) -> (r: Option<String>)
    ensures
        is_user_config_dir(
            windows,
            text::opt_text(xdg_config_home),
            text::opt_text(home),
            text::opt_text(user_profile),
            text::opt_text(r),
        ),
{
    proof {
        lemma_config_directory_name();
        lemma_home_config_directory();
    }
    match user_config_base(xdg_config_home, home, user_profile) {
        Some((base, below)) => Some(join_for(windows, base.as_str(), below)),
        None => None,
    }
}

/// The directory that the user's configuration lies under, and the part below it:
/// `XDG_CONFIG_HOME`, else `HOME`, else `USERPROFILE`.
pub fn user_config_base(
    xdg_config_home: Option<String>,
    home: Option<String>,
    user_profile: Option<String>,
) -> (r: Option<(String, &'static str)>)
    ensures
        match r {
            Some((base, below)) => if xdg_config_home is Some {
                base == xdg_config_home->0 && below@ == "nemo-relay"@
            } else {
                below@ == ".config/nemo-relay"@ && (if home is Some {
                    base == home->0
                } else {
                    user_profile == Some(base)
                })
            },
            None => xdg_config_home is None && home is None && user_profile is None,
        },
{
    if let Some(base) = xdg_config_home {
        return Some((base, "nemo-relay"));
    }
    if let Some(base) = home {
        return Some((base, ".config/nemo-relay"));
    }
    match user_profile {
        Some(base) => Some((base, ".config/nemo-relay")),
        None => None,
    }
}

/// A parsed configuration file.
pub struct PluginConfigDocument {
    /// Where it was read from.
    pub path: String,
    /// What it holds.
    pub value: Json,
}

/// The problem of a file's schema version.
pub open spec fn version_problem(
    path: Seq<char>,
    document: JsonView,
) -> Option<ErrorView> {
    match field(document, "version"@) {
        None => None,
        Some(raw) => match u32_of(raw) {
            None => error::invalid(
                "invalid plugin config version in "@ + path + ": "@ + u32_error_of(raw),
            ),
            Some(version) => if version == PLUGIN_CONFIG_VERSION {
                None
            } else {
                error::invalid(
                    "plugin config version "@ + text::decimal(version as nat) + " in "@ + path
                        + " is unsupported; expected 1"@,
                )
            },
        },
    }
}

/// Rejects a file with an unsupported top-level plugin config version before
/// layering can overwrite it with a higher-precedence source or typed default.
pub fn validate_plugin_config_version(document: &PluginConfigDocument) -> (r: Result<
    (),
    PluginError,
>)
    ensures
        error::failure(r) == version_problem(document.path@, json_view(document.value)),
{
    match document.value.get("version") {
        None => Ok(()),
        Some(raw) => {
            match json_u32(raw) {
                Err(e) => Err(
                    PluginError::InvalidConfig(
                        concat4(
                            "invalid plugin config version in ",
                            document.path.as_str(),
                            ": ",
                            e.as_str(),
                        ),
                    ),
                ),
                Ok(version) => {
                    if version == PLUGIN_CONFIG_VERSION {
                        return Ok(());
                    }
                    let number = format_u64(version as u64);
                    Err(
                        PluginError::InvalidConfig(
                            concat5(
                                "plugin config version ",
                                number.as_str(),
                                " in ",
                                document.path.as_str(),
                                " is unsupported; expected 1",
                            ),
                        ),
                    )
                },
            }
        },
    }
}

/// The components of a document.
pub open spec fn components_of(document: JsonView) -> Seq<JsonView> {
    match items_of(field(document, "components"@)) {
        Some(items) => items,
        None => Seq::empty(),
    }
}

/// Whether a list of texts ascends strictly.
pub open spec fn ascending(items: Seq<Seq<char>>) -> bool {
    forall|i: int, j: int|
        0 <= i < j < items.len() ==> less(#[trigger] items[i], #[trigger] items[j])
}

/// Whether a list holds, in ascending order, the kinds that occur more than once.
pub open spec fn lists_duplicates(kinds: Seq<Seq<char>>, components: Seq<JsonView>) -> bool {
    &&& ascending(kinds)
    &&& forall|k: Seq<char>| #[trigger] kinds.contains(k) <==> count_kind(components, k) > 1
}

/// The kinds that occur more than once, in ascending order.
pub open spec fn duplicate_kinds(components: Seq<JsonView>) -> Seq<Seq<char>> {
    choose|kinds: Seq<Seq<char>>| lists_duplicates(kinds, components)
}

/// The problem of a file that declares a kind more than once.
pub open spec fn duplicate_problem(path: Seq<char>, document: JsonView) -> Option<ErrorView> {
    let kinds = duplicate_kinds(components_of(document));
    if kinds.len() == 0 {
        None
    } else {
        error::invalid(
            "duplicate plugin component kind in "@ + path + ": "@ + text::joined(kinds, ", "@)
                + "; declare each kind once per plugins.toml"@,
        )
    }
}

/// Ascending lists with the same items are the same.
proof fn lemma_ascending_unique(a: Seq<Seq<char>>, b: Seq<Seq<char>>)
    requires
        ascending(a),
        ascending(b),
        forall|k: Seq<char>| #[trigger] a.contains(k) <==> b.contains(k),
    ensures
        a == b,
    decreases a.len(),
{
    if a.len() == 0 {
        if b.len() > 0 {
            assert(b.contains(b[0]));
            assert(a.contains(b[0]));
        }
        assert(a =~= b);
    } else {
        assert(a.contains(a.last()));
        assert(b.contains(a.last()));
        assert(b.contains(b.last()));
        assert(a.contains(b.last()));
        let i = b.index_of(a.last());
        let j = a.index_of(b.last());
        if a.last() != b.last() {
            assert(less(b[i], b[b.len() - 1]));
            assert(less(a[j], a[a.len() - 1]));
            text::lemma_less_transitive(a.last(), b.last(), a.last());
            text::lemma_less_irreflexive(a.last());
        }
        let x = a.drop_last();
        let y = b.drop_last();
        assert forall|k: Seq<char>| #[trigger] x.contains(k) <==> y.contains(k) by {
            if x.contains(k) {
                let p = x.index_of(k);
                assert(a[p] == k);
                assert(a.contains(k));
                assert(b.contains(k));
                let q = b.index_of(k);
                if q == b.len() - 1 {
                    assert(less(a[p], a[a.len() - 1]));
                    text::lemma_less_irreflexive(k);
                }
                assert(y[q] == k);
            }
            if y.contains(k) {
                let p = y.index_of(k);
                assert(b[p] == k);
                assert(b.contains(k));
                assert(a.contains(k));
                let q = a.index_of(k);
                if q == a.len() - 1 {
                    assert(less(b[p], b[b.len() - 1]));
                    text::lemma_less_irreflexive(k);
                }
                assert(x[q] == k);
            }
        }
        assert(ascending(x)) by {
            assert forall|p: int, q: int| 0 <= p < q < x.len() implies less(
                #[trigger] x[p],
                #[trigger] x[q],
            ) by {
                assert(less(a[p], a[q]));
            }
        }
        assert(ascending(y)) by {
            assert forall|p: int, q: int| 0 <= p < q < y.len() implies less(
                #[trigger] y[p],
                #[trigger] y[q],
            ) by {
                assert(less(b[p], b[q]));
            }
        }
        lemma_ascending_unique(x, y);
        assert(a =~= x.push(a.last()));
        assert(b =~= y.push(b.last()));
    }
}

/// Collects the kinds that occur more than once, in ascending order.
fn collect_duplicate_kinds(components: &Vec<Json>) -> (r: Vec<String>)
    ensures
        lists_duplicates(texts(r@), array_view(components@)),
        texts(r@) == duplicate_kinds(array_view(components@)),
{
    let ghost all = array_view(components@);
    let mut seen: TextMap<bool> = TextMap::new();
    let mut i: usize = 0;
    assert(all.take(0) =~= Seq::empty());
    while i < components.len()
        invariant
            i <= components.len(),
            all == array_view(components@),
            seen.ordered(),
            forall|k: Seq<char>| #[trigger]
                seen@.contains_key(k) <==> count_kind(all.take(i as int), k) > 0,
            forall|k: Seq<char>| #[trigger]
                seen@.contains_key(k) ==> seen@[k] == (count_kind(all.take(i as int), k) > 1),
        decreases components.len() - i,
    {
        assert(all.take(i + 1).drop_last() =~= all.take(i as int));
        assert(all.take(i + 1).last() == json_view(components@[i as int]));
        if let Some(kind) = component_kind(&components[i]) {
            let repeated = seen.contains_key(kind);
            seen.insert(kind.to_owned(), repeated);
        }
        i += 1;
    }
    assert(all.take(all.len() as int) =~= all);
    let kinds = collect_marked(&seen);
    proof {
        assert forall|k: Seq<char>| #[trigger] texts(kinds@).contains(k) <==> count_kind(all, k)
            > 1 by {
            assert(seen@.contains_key(k) <==> count_kind(all, k) > 0);
        }
        assert(lists_duplicates(texts(kinds@), all));
        let chosen = duplicate_kinds(all);
        assert(lists_duplicates(chosen, all));
        assert forall|k: Seq<char>| #[trigger] texts(kinds@).contains(k) <==> chosen.contains(
            k,
        ) by {}
        lemma_ascending_unique(texts(kinds@), chosen);
    }
    kinds
}

/// The keys of a map that are marked, in ascending order.
fn collect_marked(marks: &TextMap<bool>) -> (r: Vec<String>)
    requires
        marks.ordered(),
    ensures
        ascending(texts(r@)),
        forall|k: Seq<char>| #[trigger]
            texts(r@).contains(k) <==> marks@.contains_key(k) && marks@[k],
{
    let mut out: Vec<String> = Vec::new();
    let mut i: usize = 0;
    let ghost entries = marks.entries@;
    while i < marks.entries.len()
        invariant
            i <= marks.entries.len(),
            entries == marks.entries@,
            marks.ordered(),
            ascending(texts(out@)),
            forall|p: int| 0 <= p < out.len() ==> before_entry(entries, i as int, #[trigger] texts(out@)[p]),
            forall|q: int|
                0 <= q < i && (#[trigger] entries[q]).1 ==> texts(out@).contains(entries[q].0@),
        decreases marks.entries.len() - i,
    {
        let ghost held = texts(out@);
        if marks.entries[i].1 {
            let key = marks.entries[i].0.clone();
            out.push(key);
            let ghost now = texts(out@);
            assert(now =~= held.push(entries[i as int].0@));
            assert(ascending(now)) by {
                assert forall|p: int, q: int| 0 <= p < q < now.len() implies less(
                    #[trigger] now[p],
                    #[trigger] now[q],
                ) by {
                    assert(now[p] == held[p]);
                    if q == held.len() {
                        assert(before_entry(entries, i as int, held[p]));
                    } else {
                        assert(now[q] == held[q]);
                    }
                }
            }
            assert forall|q: int|
                0 <= q < i + 1 && (#[trigger] entries[q]).1 implies now.contains(entries[q].0@) by {
                if q < i {
                    let p = held.index_of(entries[q].0@);
                    assert(now[p] == entries[q].0@);
                } else {
                    assert(now[held.len() as int] == entries[q].0@);
                }
            }
            assert forall|p: int| 0 <= p < now.len() implies before_entry(
                entries,
                i + 1,
                #[trigger] now[p],
            ) by {
                if p < held.len() {
                    assert(now[p] == held[p]);
                    lemma_before_next(entries, i as int, held[p]);
                } else {
                    lemma_before_own(entries, i as int);
                }
            }
        } else {
            assert forall|p: int| 0 <= p < held.len() implies before_entry(
                entries,
                i + 1,
                #[trigger] held[p],
            ) by {
                lemma_before_next(entries, i as int, held[p]);
            }
        }
        i += 1;
    }
    proof {
        assert forall|k: Seq<char>| #[trigger] texts(out@).contains(k) <==> marks@.contains_key(k)
            && marks@[k] by {
            crate::text_map::lemma_entries_domain(entries, k);
            if texts(out@).contains(k) {
                let p = texts(out@).index_of(k);
                assert(before_entry(entries, i as int, texts(out@)[p]));
                let q = choose|q: int|
                    0 <= q < i && (#[trigger] entries[q]).0@ == k && entries[q].1;
                crate::text_map::lemma_unique_first(entries, q);
                crate::text_map::lemma_entries_first(entries, k, q);
            }
            if marks@.contains_key(k) && marks@[k] {
                let q = choose|q: int| 0 <= q < entries.len() && (#[trigger] entries[q]).0@ == k;
                crate::text_map::lemma_unique_first(entries, q);
                crate::text_map::lemma_entries_first(entries, k, q);
                assert(entries[q].1);
            }
        }
    }
    out
}

/// Whether a text is the key of a marked entry before a position, and comes before
/// the keys at and after it.
spec fn before_entry(entries: Seq<(String, bool)>, i: int, key: Seq<char>) -> bool {
    &&& exists|q: int| 0 <= q < i && (#[trigger] entries[q]).0@ == key && entries[q].1
    &&& forall|q: int| i <= q < entries.len() ==> less(key, (#[trigger] entries[q]).0@)
}

/// What comes before an entry comes before the next one.
proof fn lemma_before_next(entries: Seq<(String, bool)>, i: int, key: Seq<char>)
    requires
        before_entry(entries, i, key),
    ensures
        before_entry(entries, i + 1, key),
{
    let q = choose|q: int| 0 <= q < i && (#[trigger] entries[q]).0@ == key && entries[q].1;
    assert(entries[q].0@ == key);
}

/// A marked entry comes before the next one.
proof fn lemma_before_own(entries: Seq<(String, bool)>, i: int)
    requires
        0 <= i < entries.len(),
        entries[i].1,
        crate::text_map::keys_ascend(entries),
    ensures
        before_entry(entries, i + 1, entries[i].0@),
{
    assert forall|q: int| i + 1 <= q < entries.len() implies less(
        entries[i].0@,
        (#[trigger] entries[q]).0@,
    ) by {}
}

/// Rejects a single file that declares the same component `kind` more than once.
pub fn validate_unique_component_kinds(path: &str, document: &Json) -> (r: Result<(), PluginError>)
    ensures
        error::failure(r) == duplicate_problem(path@, json_view(*document)),
{
    let duplicates = match document.get("components") {
        Some(components) => match components.as_array() {
            Some(items) => collect_duplicate_kinds(items),
            None => {
                let none: Vec<Json> = Vec::new();
                assert(array_view(none@) =~= Seq::empty());
                collect_duplicate_kinds(&none)
            },
        },
        None => {
            let none: Vec<Json> = Vec::new();
            assert(array_view(none@) =~= Seq::empty());
            collect_duplicate_kinds(&none)
        },
    };
    assert(texts(duplicates@).len() == duplicates@.len());
    if duplicates.len() == 0 {
        return Ok(());
    }
    let joined = join(&duplicates, ", ");
    Err(
        PluginError::InvalidConfig(
            concat5(
                "duplicate plugin component kind in ",
                path,
                ": ",
                joined.as_str(),
                "; declare each kind once per plugins.toml",
            ),
        ),
    )
}

/// Whether a component is switched off in its file.
pub open spec fn switched_off(component: JsonView) -> bool {
    bool_of(field(component, "enabled"@)) == Some(false)
}

/// The components of a list that are not switched off.
pub open spec fn not_switched_off(components: Seq<JsonView>) -> Seq<JsonView>
    decreases components.len(),
{
    if components.len() == 0 {
        Seq::empty()
    } else {
        let before = not_switched_off(components.drop_last());
        if switched_off(components.last()) {
            before
        } else {
            before.push(components.last())
        }
    }
}

/// A document without the components that it switches off.
pub open spec fn without_disabled(document: JsonView) -> JsonView {
    match items_of(field(document, "components"@)) {
        Some(items) => JsonView::Object(
            document->Object_0.insert("components"@, JsonView::Array(not_switched_off(items))),
        ),
        None => document,
    }
}

/// The components of a list that are not switched off.
fn retain_enabled(components: &Vec<Json>) -> (r: Vec<Json>)
    ensures
        array_view(r@) == not_switched_off(array_view(components@)),
        items_wf(components@) ==> items_wf(r@),
{
    let ghost all = array_view(components@);
    let mut kept: Vec<Json> = Vec::new();
    let mut i: usize = 0;
    assert(all.take(0) =~= Seq::empty());
    assert(array_view(kept@) =~= Seq::empty());
    while i < components.len()
        invariant
            i <= components.len(),
            all == array_view(components@),
            array_view(kept@) == not_switched_off(all.take(i as int)),
            items_wf(components@) ==> items_wf(kept@),
        decreases components.len() - i,
    {
        assert(all.take(i + 1).drop_last() =~= all.take(i as int));
        assert(all.take(i + 1).last() == json_view(components@[i as int]));
        let off = match bool_field(&components[i], "enabled") {
            Some(enabled) => !enabled,
            None => false,
        };
        if !off {
            let ghost before = kept@;
            assert(items_wf(components@) ==> json_wf(components@[i as int]));
            let component = copy_json(&components[i]);
            kept.push(component);
            assert(array_view(kept@) =~= array_view(before).push(json_view(component)));
        }
        i += 1;
    }
    assert(all.take(all.len() as int) =~= all);
    kept
}

/// Removes disabled components from one discovered plugin document before
/// layering.
pub fn filter_disabled_plugin_components(document: &mut Json)
    ensures
        json_view(*final(document)) == without_disabled(json_view(*old(document))),
        json_wf(*old(document)) ==> json_wf(*final(document)),
{
    let ghost given = *document;
    let kept = match document.get("components") {
        Some(components) => match components.as_array() {
            Some(items) => Some(retain_enabled(items)),
            None => None,
        },
        None => None,
    };
    match kept {
        Some(items) => match document {
            Json::Object(object) => {
                let ghost before = *object;
                let key = "components".to_owned();
                let value = Json::Array(items);
                object.insert(key, value);
                proof {
                    lemma_object_view_insert(before.entries@, object.entries@, key@, value);
                    if json_wf(given) {
                        lemma_inserted_wf(before, *object, key, value);
                    }
                }
            },
            _ => {},
        },
        None => {},
    }
}

/// A configuration file that discovery looked at.
pub struct PluginConfigFile {
    /// Where it lies.
    pub path: String,
    /// Its text, or why it could not be read; nothing where there is no file.
    pub contents: Option<Result<String, String>>,
}

/// The problem of reading and parsing a file.
pub open spec fn file_problem(file: PluginConfigFile) -> Option<ErrorView> {
    match file.contents {
        None => None,
        Some(Err(e)) => error::invalid("failed to read "@ + file.path@ + ": "@ + e@),
        Some(Ok(raw)) => match toml_of(raw@) {
            Ok(_) => None,
            Err(e) => error::invalid("invalid plugin TOML in "@ + file.path@ + ": "@ + e),
        },
    }
}

/// The first problem of reading a list of files.
pub open spec fn files_problem(files: Seq<PluginConfigFile>) -> Option<ErrorView>
    decreases files.len(),
{
    if files.len() == 0 {
        None
    } else {
        match files_problem(files.drop_last()) {
            Some(e) => Some(e),
            None => file_problem(files.last()),
        }
    }
}

/// The documents of the files that exist, in order: path and value.
pub open spec fn read_documents(files: Seq<PluginConfigFile>) -> Seq<(Seq<char>, JsonView)>
    decreases files.len(),
{
    if files.len() == 0 {
        Seq::empty()
    } else {
        let front = read_documents(files.drop_last());
        match files.last().contents {
            Some(Ok(raw)) => match toml_of(raw@) {
                Ok(value) => front.push((files.last().path@, value)),
                Err(_) => front,
            },
            _ => front,
        }
    }
}

/// The paths and values of a list of documents.
pub open spec fn document_views(documents: Seq<PluginConfigDocument>) -> Seq<
    (Seq<char>, JsonView),
> {
    Seq::new(documents.len(), |i: int| (documents[i].path@, json_view(documents[i].value)))
}

/// A problem among the first files is the problem of the whole list.
proof fn lemma_files_problem_found(files: Seq<PluginConfigFile>, n: int)
    requires
        0 <= n <= files.len(),
        files_problem(files.take(n)) is Some,
    ensures
        files_problem(files) == files_problem(files.take(n)),
    decreases files.len(),
{
    if n == files.len() {
        assert(files.take(n) =~= files);
    } else {
        assert(files.drop_last().take(n) =~= files.take(n));
        lemma_files_problem_found(files.drop_last(), n);
    }
}

/// Parses one file's text.
pub fn parse_plugin_config_document(path: &str, raw: &str) -> (r: Result<
    PluginConfigDocument,
    PluginError,
>)
    ensures
        match r {
            Ok(document) => toml_of(raw@) == Ok::<JsonView, Seq<char>>(json_view(document.value))
                && document.path@ == path@ && json_wf(document.value),
            Err(e) => toml_of(raw@) is Err && Some(e@) == error::invalid(
                "invalid plugin TOML in "@ + path@ + ": "@ + toml_of(raw@)->Err_0,
            ),
        },
{
    match parse_toml(raw) {
        Ok(value) => Ok(PluginConfigDocument { path: path.to_owned(), value }),
        Err(e) => Err(
            PluginError::InvalidConfig(
                concat4("invalid plugin TOML in ", path, ": ", e.as_str()),
            ),
        ),
    }
}

/// Parses the files that exist, in order, up to the first that cannot be read or
/// parsed.
pub fn read_plugin_config_files(files: &Vec<PluginConfigFile>) -> (r: Result<
    Vec<PluginConfigDocument>,
    PluginError,
>)
    ensures
        error::failure(r) == files_problem(files@),
        r matches Ok(documents) ==> document_views(documents@) == read_documents(files@)
            && documents_wf(documents@),
{
    let mut documents: Vec<PluginConfigDocument> = Vec::new();
    let mut i: usize = 0;
    assert(files@.take(0) =~= Seq::empty());
    assert(document_views(documents@) =~= Seq::empty());
    while i < files.len()
        invariant
            i <= files.len(),
            files_problem(files@.take(i as int)) is None,
            document_views(documents@) == read_documents(files@.take(i as int)),
            documents_wf(documents@),
        decreases files.len() - i,
    {
        let file = &files[i];
        assert(files@.take(i + 1).drop_last() =~= files@.take(i as int));
        assert(files@.take(i + 1).last() == files@[i as int]);
        match &file.contents {
            None => {},
            Some(Err(e)) => {
                proof {
                    lemma_files_problem_found(files@, i + 1);
                }
                return Err(
                    PluginError::InvalidConfig(
                        concat4("failed to read ", file.path.as_str(), ": ", e.as_str()),
                    ),
                );
            },
            Some(Ok(raw)) => {
                match parse_plugin_config_document(file.path.as_str(), raw.as_str()) {
                    Err(e) => {
                        proof {
                            lemma_files_problem_found(files@, i + 1);
                        }
                        return Err(e);
                    },
                    Ok(document) => {
                        let ghost before = documents@;
                        documents.push(document);
                        assert(document_views(documents@) =~= document_views(before).push(
                            (file.path@, json_view(document.value)),
                        ));
                    },
                }
            },
        }
        i += 1;
    }
    assert(files@.take(files@.len() as int) =~= files@);
    Ok(documents)
}

/// Reads, parses and merges configuration files (lowest precedence first) into one
/// document with its source paths, or nothing when none exist.
pub fn load_plugin_config_files(files: &Vec<PluginConfigFile>) -> (r: Result<
    Option<(Json, Vec<String>)>,
    PluginError,
>)
    ensures
        files_problem(files@) is Some ==> error::failure(r) == files_problem(files@),
        files_problem(files@) is None ==> exists|documents: Seq<PluginConfigDocument>|
            #![trigger document_views(documents)]
            {
                &&& document_views(documents) == read_documents(files@)
                &&& error::failure(r) == documents_problem(documents)
                &&& r matches Ok(None) ==> documents.len() == 0
                &&& r matches Ok(Some(found)) ==> documents.len() > 0 && json_wf(found.0)
                    && json_view(found.0) == merged_documents(documents) && texts(found.1@)
                    == document_paths(documents)
            },
{
    match read_plugin_config_files(files) {
        Err(e) => Err(e),
        Ok(documents) => merge_plugin_config_documents(&documents),
    }
}

/// The problem of a file.
pub open spec fn document_problem(document: PluginConfigDocument) -> Option<ErrorView> {
    let value = json_view(document.value);
    match version_problem(document.path@, value) {
        Some(e) => Some(e),
        None => duplicate_problem(document.path@, value),
    }
}

/// The first problem of a list of files.
pub open spec fn documents_problem(documents: Seq<PluginConfigDocument>) -> Option<ErrorView>
    decreases documents.len(),
{
    if documents.len() == 0 {
        None
    } else {
        match documents_problem(documents.drop_last()) {
            Some(e) => Some(e),
            None => document_problem(documents.last()),
        }
    }
}

/// A problem among the first files is the problem of the whole list.
proof fn lemma_documents_problem_found(documents: Seq<PluginConfigDocument>, n: int)
    requires
        0 <= n <= documents.len(),
        documents_problem(documents.take(n)) is Some,
    ensures
        documents_problem(documents) == documents_problem(documents.take(n)),
    decreases documents.len(),
{
    if n == documents.len() {
        assert(documents.take(n) =~= documents);
    } else {
        assert(documents.drop_last().take(n) =~= documents.take(n));
        lemma_documents_problem_found(documents.drop_last(), n);
    }
}

/// The document that files give, lowest precedence first.
pub open spec fn merged_documents(documents: Seq<PluginConfigDocument>) -> JsonView
    decreases documents.len(),
{
    if documents.len() == 0 {
        JsonView::Object(Map::empty())
    } else {
        layered_document(
            merged_documents(documents.drop_last()),
            without_disabled(json_view(documents.last().value)),
        )
    }
}

/// The paths of a list of files.
pub open spec fn document_paths(documents: Seq<PluginConfigDocument>) -> Seq<Seq<char>> {
    Seq::new(documents.len(), |i: int| documents[i].path@)
}

/// Whether every file holds a well-formed value.
pub open spec fn documents_wf(documents: Seq<PluginConfigDocument>) -> bool {
    forall|i: int| 0 <= i < documents.len() ==> json_wf((#[trigger] documents[i]).value)
}

/// An empty object.
pub fn empty_object() -> (r: Json)
    ensures
        json_view(r) == JsonView::Object(Map::empty()),
        json_wf(r),
{
    let map: TextMap<Json> = TextMap::new();
    Json::Object(map)
}

/// Merges parsed `plugins.toml` documents (lowest precedence first) using the
/// canonical plugin-config layering rules. No documents give nothing.
pub fn merge_plugin_config_documents(documents: &Vec<PluginConfigDocument>) -> (r: Result<
    Option<(Json, Vec<String>)>,
    PluginError,
>)
    requires
        documents_wf(documents@),
    ensures
        error::failure(r) == documents_problem(documents@),
        r matches Ok(None) ==> documents@.len() == 0,
        r matches Ok(Some(found)) ==> documents@.len() > 0 && json_wf(found.0) && json_view(found.0)
            == merged_documents(documents@) && texts(found.1@) == document_paths(documents@),
{
    let mut merged = empty_object();
    let mut sources: Vec<String> = Vec::new();
    let mut i: usize = 0;
    assert(documents@.take(0) =~= Seq::empty());
    assert(texts(sources@) =~= Seq::empty());
    while i < documents.len()
        invariant
            i <= documents.len(),
            documents_wf(documents@),
            documents_problem(documents@.take(i as int)) is None,
            json_wf(merged),
            json_view(merged) == merged_documents(documents@.take(i as int)),
            texts(sources@) == document_paths(documents@).take(i as int),
            sources@.len() == i,
        decreases documents.len() - i,
    {
        let document = &documents[i];
        assert(documents@.take(i + 1).drop_last() =~= documents@.take(i as int));
        match validate_plugin_config_version(document) {
            Err(e) => {
                proof {
                    lemma_documents_problem_found(documents@, i + 1);
                }
                return Err(e);
            },
            Ok(()) => {},
        }
        match validate_unique_component_kinds(document.path.as_str(), &document.value) {
            Err(e) => {
                proof {
                    lemma_documents_problem_found(documents@, i + 1);
                }
                return Err(e);
            },
            Ok(()) => {},
        }
        assert(json_wf(documents@[i as int].value));
        let mut value = copy_json(&document.value);
        filter_disabled_plugin_components(&mut value);
        layer_config(&mut merged, value);
        let ghost before = sources@;
        sources.push(document.path.clone());
        assert(texts(sources@) =~= texts(before).push(document.path@));
        assert(document_paths(documents@).take(i + 1) =~= document_paths(documents@).take(
            i as int,
        ).push(document.path@));
        i += 1;
    }
    assert(documents@.take(documents@.len() as int) =~= documents@);
    assert(document_paths(documents@).take(documents@.len() as int) =~= document_paths(documents@));
    if sources.len() == 0 {
        Ok(None)
    } else {
        Ok(Some((merged, sources)))
    }
}

/// Whether a component was enabled or disabled, and where.
#[derive(Debug, PartialEq, Eq)]
pub struct ComponentEnabledSource {
    /// Whether it was enabled.
    pub enabled: bool,
    /// The file that said so.
    pub path: String,
}

/// What is known of where kinds are enabled, after the first components of a
/// file.
pub open spec fn sources_after_components(
    known: Map<Seq<char>, (bool, Seq<char>)>,
    components: Seq<JsonView>,
    path: Seq<char>,
) -> Map<Seq<char>, (bool, Seq<char>)>
    decreases components.len(),
{
    if components.len() == 0 {
        known
    } else {
        let before = sources_after_components(known, components.drop_last(), path);
        match (kind_of(components.last()), bool_of(field(components.last(), "enabled"@))) {
            (Some(kind), Some(enabled)) => before.insert(kind, (enabled, path)),
            _ => before,
        }
    }
}

/// Where kinds are enabled or disabled: by the last component of a kind that says
/// so, over all files in order.
pub open spec fn sources_after(documents: Seq<PluginConfigDocument>) -> Map<
    Seq<char>,
    (bool, Seq<char>),
>
    decreases documents.len(),
{
    if documents.len() == 0 {
        Map::empty()
    } else {
        sources_after_components(
            sources_after(documents.drop_last()),
            components_of(json_view(documents.last().value)),
            documents.last().path@,
        )
    }
}

/// The mathematical form of where kinds are enabled.
pub open spec fn sources_view(sources: TextMap<ComponentEnabledSource>) -> Map<
    Seq<char>,
    (bool, Seq<char>),
> {
    sources@.map_values(|s: ComponentEnabledSource| (s.enabled, s.path@))
}

/// Notes where the components of a file are enabled or disabled.
fn note_enabled_sources(
    sources: &mut TextMap<ComponentEnabledSource>,
    components: &Vec<Json>,
    path: &str,
)
    ensures
        sources_view(*final(sources)) == sources_after_components(
            sources_view(*old(sources)),
            array_view(components@),
            path@,
        ),
{
    let ghost all = array_view(components@);
    let ghost start = sources_view(*sources);
    let mut i: usize = 0;
    assert(all.take(0) =~= Seq::empty());
    while i < components.len()
        invariant
            i <= components.len(),
            all == array_view(components@),
            sources_view(*sources) == sources_after_components(start, all.take(i as int), path@),
        decreases components.len() - i,
    {
        assert(all.take(i + 1).drop_last() =~= all.take(i as int));
        assert(all.take(i + 1).last() == json_view(components@[i as int]));
        let component = &components[i];
        let ghost before = *sources;
        if let Some(kind) = component_kind(component) {
            if let Some(enabled) = bool_field(component, "enabled") {
                let source = ComponentEnabledSource { enabled, path: path.to_owned() };
                sources.insert(kind.to_owned(), source);
                assert(sources_view(*sources) =~= sources_view(before).insert(
                    kind@,
                    (enabled, path@),
                ));
            }
        }
        i += 1;
    }
    assert(all.take(all.len() as int) =~= all);
}

/// Finds out where kinds are enabled or disabled.
pub fn component_enabled_sources(documents: &Vec<PluginConfigDocument>) -> (r: TextMap<
    ComponentEnabledSource,
>)
    ensures
        sources_view(r) == sources_after(documents@),
{
    let mut sources: TextMap<ComponentEnabledSource> = TextMap::new();
    let mut i: usize = 0;
    assert(documents@.take(0) =~= Seq::empty());
    assert(sources_view(sources) =~= Map::empty());
    while i < documents.len()
        invariant
            i <= documents.len(),
            sources_view(sources) == sources_after(documents@.take(i as int)),
        decreases documents.len() - i,
    {
        assert(documents@.take(i + 1).drop_last() =~= documents@.take(i as int));
        let document = &documents[i];
        match document.value.get("components") {
            Some(components) => match components.as_array() {
                Some(items) => {
                    note_enabled_sources(&mut sources, items, document.path.as_str());
                },
                None => {},
            },
            None => {},
        }
        i += 1;
    }
    assert(documents@.take(documents@.len() as int) =~= documents@);
    sources
}

/// The findings that tell which files a configuration comes from.
pub open spec fn inherited_findings(sources: Seq<Seq<char>>) -> Seq<DiagnosticView> {
    Seq::new(
        sources.len(),
        |i: int|
            DiagnosticView {
                level: DiagnosticLevel::Warning,
                code: "plugin.configuration_inherited"@,
                component: None,
                field: None,
                message: "inherited plugin configuration from discovered file: "@ + sources[i],
            },
    )
}

/// Reports which files a configuration comes from.
pub fn inherited_plugin_config_diagnostics(sources: &Vec<String>) -> (r: Vec<ConfigDiagnostic>)
    ensures
        findings(r@) == inherited_findings(texts(sources@)),
{
    let mut diagnostics: Vec<ConfigDiagnostic> = Vec::new();
    let mut i: usize = 0;
    let ghost all = inherited_findings(texts(sources@));
    assert(findings(diagnostics@) =~= all.take(0));
    while i < sources.len()
        invariant
            i <= sources.len(),
            all == inherited_findings(texts(sources@)),
            findings(diagnostics@) == all.take(i as int),
        decreases sources.len() - i,
    {
        push_diagnostic(
            &mut diagnostics,
            ConfigDiagnostic {
                level: DiagnosticLevel::Warning,
                code: "plugin.configuration_inherited".to_owned(),
                component: None,
                field: None,
                message: concat2(
                    "inherited plugin configuration from discovered file: ",
                    sources[i].as_str(),
                ),
            },
        );
        assert(all.take(i + 1) =~= all.take(i as int).push(all[i as int]));
        i += 1;
    }
    assert(all.take(all.len() as int) =~= all);
    diagnostics
}

/// How many of the first components have a kind.
pub open spec fn earlier_of_kind(components: Seq<PluginComponentSpec>, kind: Seq<char>) -> nat {
    crate::validation::kind_total(components, kind)
}

/// What the discovered component that pairs with a programmatic one says about
/// being enabled.
pub open spec fn discovered_enabled(
    discovered: Seq<JsonView>,
    kind: Seq<char>,
    nth: nat,
) -> Option<bool> {
    match nth_of_kind(discovered, kind, nth) {
        Some(i) => bool_of(field(discovered[i], "enabled"@)),
        None => None,
    }
}

/// Whether files switch a programmatic component off.
pub open spec fn file_disabled(
    discovered: Seq<JsonView>,
    sources: Map<Seq<char>, (bool, Seq<char>)>,
    kind: Seq<char>,
    nth: nat,
) -> bool {
    match discovered_enabled(discovered, kind, nth) {
        Some(enabled) => !enabled,
        None => sources.contains_key(kind) && !sources[kind].0,
    }
}

/// The finding for a component that files switch off and that is enabled all the
/// same.
pub open spec fn reenabled_finding(
    sources: Map<Seq<char>, (bool, Seq<char>)>,
    kind: Seq<char>,
) -> DiagnosticView {
    DiagnosticView {
        level: DiagnosticLevel::Warning,
        code: "plugin.component_reenabled"@,
        component: Some(kind),
        field: Some("enabled"@),
        message: "programmatic configuration enabled plugin component '"@ + kind
            + "' and overrode enabled = false"@ + (if sources.contains_key(kind) {
            " from "@ + sources[kind].1
        } else {
            ""@
        }),
    }
}

/// The findings on the first `n` programmatic components.
pub open spec fn reenabled_findings(
    discovered: Seq<JsonView>,
    sources: Map<Seq<char>, (bool, Seq<char>)>,
    components: Seq<PluginComponentSpec>,
    n: nat,
) -> Seq<DiagnosticView>
    decreases n,
{
    if n == 0 {
        Seq::empty()
    } else {
        let i = n - 1;
        let component = components[i];
        let before = reenabled_findings(discovered, sources, components, i as nat);
        if component.enabled && file_disabled(
            discovered,
            sources,
            component.kind@,
            earlier_of_kind(components.take(i), component.kind@),
        ) {
            before.push(reenabled_finding(sources, component.kind@))
        } else {
            before
        }
    }
}

/// Reports components that files switch off and that a programmatic configuration
/// enables all the same.
pub fn programmatic_enable_override_diagnostics(
    discovered: &Json,
    enabled_sources: &TextMap<ComponentEnabledSource>,
    programmatic: &PluginConfig,
) -> (r: Vec<ConfigDiagnostic>)
    ensures
        findings(r@) == (if items_of(field(json_view(*discovered), "components"@)) is None {
            Seq::empty()
        } else {
            reenabled_findings(
                components_of(json_view(*discovered)),
                sources_view(*enabled_sources),
                programmatic.components@,
                programmatic.components@.len(),
            )
        }),
{
    let mut diagnostics: Vec<ConfigDiagnostic> = Vec::new();
    assert(findings(diagnostics@) =~= Seq::empty());
    let items = match discovered.get("components") {
        Some(components) => match components.as_array() {
            Some(items) => items,
            None => return diagnostics,
        },
        None => return diagnostics,
    };
    let ghost base = components_of(json_view(*discovered));
    let ghost sources = sources_view(*enabled_sources);
    let components = &programmatic.components;
    let mut i: usize = 0;
    while i < components.len()
        invariant
            i <= components.len(),
            components@ == programmatic.components@,
            base == array_view(items@),
            sources == sources_view(*enabled_sources),
            findings(diagnostics@) == reenabled_findings(base, sources, components@, i as nat),
        decreases components.len() - i,
    {
        let component = &components[i];
        let kind = component.kind.as_str();
        let nth = crate::validation::count_components(components, i, kind);
        assert(base.take(base.len() as int) =~= base);
        let slot = nth_component_by_kind(items, items.len(), kind, nth);
        let declared = match slot {
            Some(index) => bool_field(&items[index], "enabled"),
            None => None,
        };
        let source = enabled_sources.get(kind);
        let disabled = match declared {
            Some(enabled) => !enabled,
            None => match source {
                Some(source) => !source.enabled,
                None => false,
            },
        };
        if component.enabled && disabled {
            let origin = match source {
                Some(source) => concat2(" from ", source.path.as_str()),
                None => "".to_owned(),
            };
            push_diagnostic(
                &mut diagnostics,
                ConfigDiagnostic {
                    level: DiagnosticLevel::Warning,
                    code: "plugin.component_reenabled".to_owned(),
                    component: Some(kind.to_owned()),
                    field: Some("enabled".to_owned()),
                    message: concat4(
                        "programmatic configuration enabled plugin component '",
                        kind,
                        "' and overrode enabled = false",
                        origin.as_str(),
                    ),
                },
            );
        }
        i += 1;
    }
    diagnostics
}

/// The name of a behavior in a configuration document.
pub open spec fn behavior_name(behavior: UnsupportedBehavior) -> Seq<char> {
    match behavior {
        UnsupportedBehavior::Ignore => "ignore"@,
        UnsupportedBehavior::Warn => "warn"@,
        UnsupportedBehavior::Error => "error"@,
    }
}

/// The name of a behavior in a configuration document.
pub fn behavior_text(behavior: UnsupportedBehavior) -> (r: &'static str)
    ensures
        r@ == behavior_name(behavior),
{
    match behavior {
        UnsupportedBehavior::Ignore => "ignore",
        UnsupportedBehavior::Warn => "warn",
        UnsupportedBehavior::Error => "error",
    }
}

/// An object with a behavior set unless it is the default.
pub open spec fn with_behavior(
    policy: Map<Seq<char>, JsonView>,
    name: Seq<char>,
    behavior: UnsupportedBehavior,
    default: UnsupportedBehavior,
) -> Map<Seq<char>, JsonView> {
    if behavior == default {
        policy
    } else {
        policy.insert(name, JsonView::Text(behavior_name(behavior)))
    }
}

/// The overlay of a policy: its settings that are not the defaults.
pub open spec fn policy_overlay(policy: ConfigPolicy) -> Map<Seq<char>, JsonView> {
    let default = default_policy();
    with_behavior(
        with_behavior(
            with_behavior(
                Map::empty(),
                "unknown_component"@,
                policy.unknown_component,
                default.unknown_component,
            ),
            "unknown_field"@,
            policy.unknown_field,
            default.unknown_field,
        ),
        "unsupported_value"@,
        policy.unsupported_value,
        default.unsupported_value,
    )
}

/// The overlay of a component: its kind, whether it is enabled, and its
/// configuration.
pub open spec fn component_overlay(component: PluginComponentSpec) -> JsonView {
    JsonView::Object(
        Map::<Seq<char>, JsonView>::empty().insert("kind"@, JsonView::Text(component.kind@)).insert(
            "enabled"@,
            JsonView::Bool(component.enabled),
        ).insert("config"@, JsonView::Object(object_view(component.config.entries@))),
    )
}

/// The overlay of a configuration over discovered files: its components, and its
/// version and policy where they are not the defaults.
pub open spec fn config_overlay(config: PluginConfig) -> JsonView {
    let components = Map::<Seq<char>, JsonView>::empty().insert(
        "components"@,
        JsonView::Array(
            Seq::new(
                config.components@.len(),
                |i: int| component_overlay(config.components@[i]),
            ),
        ),
    );
    let versioned = if config.version == PLUGIN_CONFIG_VERSION {
        components
    } else {
        components.insert(
            "version"@,
            JsonView::Number(NumberView::Unsigned(config.version as u64)),
        )
    };
    JsonView::Object(
        if config.policy == default_policy() {
            versioned
        } else {
            versioned.insert("policy"@, JsonView::Object(policy_overlay(config.policy)))
        },
    )
}

/// Sets a behavior of a policy overlay unless it is the default.
fn put_behavior(
    policy: &mut TextMap<Json>,
    name: &str,
    behavior: UnsupportedBehavior,
    default: UnsupportedBehavior,
)
    requires
        json_wf(Json::Object(*old(policy))),
    ensures
        json_wf(Json::Object(*final(policy))),
        object_view(final(policy).entries@) == with_behavior(
            object_view(old(policy).entries@),
            name@,
            behavior,
            default,
        ),
{
    if behavior != default {
        put(policy, name, text_json(behavior_text(behavior)));
    }
}

/// Turns a typed configuration into a discovery overlay.
///
/// A typed configuration cannot record whether a default-valued field was supplied
/// explicitly. Treating those defaults as overlay values would mask discovered
/// file settings on every library initialization. A declared component is an
/// activation intent, so its `enabled` value remains in the overlay.
pub fn plugin_config_overlay_value(config: &PluginConfig) -> (r: Json)
    requires
        config_wf(*config),
    ensures
        json_view(r) == config_overlay(*config),
        json_wf(r),
{
    let mut components: Vec<Json> = Vec::new();
    let mut i: usize = 0;
    while i < config.components.len()
        invariant
            i <= config.components.len(),
            config_wf(*config),
            components.len() == i,
            items_wf(components@),
            forall|k: int|
                0 <= k < i ==> json_view(#[trigger] components@[k]) == component_overlay(
                    config.components@[k],
                ),
        decreases config.components.len() - i,
    {
        let component = &config.components[i];
        assert(json_wf(Json::Object(config.components@[i as int].config)));
        let mut object = new_object();
        put(&mut object, "kind", text_json(component.kind.as_str()));
        put(&mut object, "enabled", Json::Bool(component.enabled));
        put(&mut object, "config", Json::Object(crate::config::copy_object(&component.config)));
        components.push(Json::Object(object));
        i += 1;
    }
    assert(array_view(components@) =~= Seq::new(
        config.components@.len(),
        |k: int| component_overlay(config.components@[k]),
    ));
    let mut root = new_object();
    put(&mut root, "components", Json::Array(components));
    if config.version != PLUGIN_CONFIG_VERSION {
        put(&mut root, "version", Json::Number(JsonNumber::Unsigned(config.version as u64)));
    }
    let defaults = ConfigPolicy::default();
    let mut policy = new_object();
    put_behavior(
        &mut policy,
        "unknown_component",
        config.policy.unknown_component,
        defaults.unknown_component,
    );
    put_behavior(
        &mut policy,
        "unknown_field",
        config.policy.unknown_field,
        defaults.unknown_field,
    );
    put_behavior(
        &mut policy,
        "unsupported_value",
        config.policy.unsupported_value,
        defaults.unsupported_value,
    );
    if config.policy != defaults {
        put(&mut root, "policy", Json::Object(policy));
    }
    Json::Object(root)
}

/// Whether the configuration of every component is well-formed.
pub open spec fn config_wf(config: PluginConfig) -> bool {
    forall|i: int|
        0 <= i < config.components@.len() ==> json_wf(
            Json::Object((#[trigger] config.components@[i]).config),
        )
}

/// What the discovered files give.
pub struct DiscoveredPluginConfig {
    /// The merged document.
    pub value: Json,
    /// Where kinds are enabled or disabled.
    pub enabled_sources: TextMap<ComponentEnabledSource>,
    /// The files, lowest precedence first.
    pub sources: Vec<String>,
}

/// Resolves discovered files into one document, which is an empty object where
/// there are none.
pub fn resolve_discovered_plugin_config(documents: &Vec<PluginConfigDocument>) -> (r: Result<
    DiscoveredPluginConfig,
    PluginError,
>)
    requires
        documents_wf(documents@),
    ensures
        error::failure(r) == documents_problem(documents@),
        r matches Ok(found) ==> json_wf(found.value) && json_view(found.value) == merged_documents(
            documents@,
        ) && sources_view(found.enabled_sources) == sources_after(documents@) && texts(
            found.sources@,
        ) == document_paths(documents@),
{
    let enabled_sources = component_enabled_sources(documents);
    match merge_plugin_config_documents(documents) {
        Err(e) => Err(e),
        Ok(Some((value, sources))) => Ok(
            DiscoveredPluginConfig { value, enabled_sources, sources },
        ),
        Ok(None) => {
            let sources: Vec<String> = Vec::new();
            assert(texts(sources@) =~= document_paths(documents@));
            Ok(DiscoveredPluginConfig { value: empty_object(), enabled_sources, sources })
        },
    }
}

/// A resolved configuration document with the findings on how it came about.
pub struct ResolvedPluginConfig {
    /// The document.
    pub value: Json,
    /// The findings.
    pub diagnostics: Vec<ConfigDiagnostic>,
}

/// Layers a programmatic configuration over what was discovered, and reports the
/// files that it inherits from and the components that it enables against them.
pub fn resolve_programmatic_plugin_config(
    discovered: DiscoveredPluginConfig,
    config: &PluginConfig,
) -> (r: ResolvedPluginConfig)
    requires
        json_wf(discovered.value),
        config_wf(*config),
    ensures
        json_wf(r.value),
        json_view(r.value) == layered_document(
            json_view(discovered.value),
            config_overlay(*config),
        ),
        findings(r.diagnostics@) == inherited_findings(texts(discovered.sources@)) + (
        if items_of(field(json_view(discovered.value), "components"@)) is None {
            Seq::empty()
        } else {
            reenabled_findings(
                components_of(json_view(discovered.value)),
                sources_view(discovered.enabled_sources),
                config.components@,
                config.components@.len(),
            )
        }),
{
    let mut diagnostics = inherited_plugin_config_diagnostics(&discovered.sources);
    let overrides = programmatic_enable_override_diagnostics(
        &discovered.value,
        &discovered.enabled_sources,
        config,
    );
    crate::config::extend_diagnostics(&mut diagnostics, overrides);
    let mut base = discovered.value;
    let overlay = plugin_config_overlay_value(config);
    layer_config(&mut base, overlay);
    ResolvedPluginConfig { value: base, diagnostics }
}

/// A configuration left at the default version and policy inherits both from what
/// was discovered.
pub proof fn law_defaults_are_inherited(discovered: Map<Seq<char>, JsonView>, config: PluginConfig)
    requires
        config.version == PLUGIN_CONFIG_VERSION,
        config.policy == default_policy(),
    ensures
        ({
            let resolved = layered_document(
                JsonView::Object(discovered),
                config_overlay(config),
            );
            &&& field(resolved, "version"@) == field(JsonView::Object(discovered), "version"@)
            &&& field(resolved, "policy"@) == field(JsonView::Object(discovered), "policy"@)
        }),
{
    reveal_strlit("version");
    reveal_strlit("policy");
    reveal_strlit("components");
    assert("version"@.len() != "components"@.len());
    assert("policy"@.len() != "components"@.len());
}

/// Discovering nothing leaves the programmatic configuration as it is.
pub proof fn law_nothing_discovered_changes_nothing(config: PluginConfig)
    ensures
        layered_document(merged_documents(Seq::empty()), config_overlay(config)) == config_overlay(
            config,
        ),
{
    crate::layering::law_overlay_of_empty_is_the_overlay(config_overlay(config)->Object_0);
}

/// Components that a file switches off never reach the merged document of that
/// file.
pub proof fn law_disabled_components_are_filtered(components: Seq<JsonView>, component: JsonView)
    ensures
        not_switched_off(components).contains(component) ==> !switched_off(component),
        components.contains(component) && !switched_off(component) ==> not_switched_off(
            components,
        ).contains(component),
    decreases components.len(),
{
    if components.len() > 0 {
        let front = components.drop_last();
        law_disabled_components_are_filtered(front, component);
        let before = not_switched_off(front);
        let all = not_switched_off(components);
        if all.contains(component) && !before.contains(component) {
            let k = all.index_of(component);
            if k < before.len() {
                assert(before[k] == component);
            }
        }
        if components.contains(component) && !switched_off(component) {
            let k = components.index_of(component);
            if k < front.len() {
                assert(front[k] == component);
                let q = before.index_of(component);
                assert(all[q] == component);
            } else {
                assert(all[all.len() - 1] == component);
            }
        }
    }
}

/// Of the paths that lead to one file the last is kept, and none of the others: a path is kept
/// exactly where no later path has its identity.
pub proof fn law_the_last_path_to_a_file_is_kept(
    paths: Seq<Seq<char>>,
    identities: Seq<Seq<char>>,
    n: nat,
    i: int,
)
    requires
        n <= paths.len() == identities.len(),
        0 <= i < n,
        forall|a: int, b: int|
            0 <= a < b < paths.len() ==> #[trigger] paths[a] != #[trigger] paths[b],
    ensures
        deduplicated(paths, identities, n).contains(paths[i]) <==> (forall|j: int|
            i < j < identities.len() ==> #[trigger] identities[j] != identities[i]),
        deduplicated(paths, identities, n).contains(paths[i]) ==> paths.contains(paths[i]),
    decreases n,
{
    let all = deduplicated(paths, identities, n);
    let before = deduplicated(paths, identities, (n - 1) as nat);
    lemma_deduplicated_come_before(paths, identities, (n - 1) as nat);
    if i < n - 1 {
        law_the_last_path_to_a_file_is_kept(paths, identities, (n - 1) as nat, i);
        if before.contains(paths[i]) {
            let k = before.index_of(paths[i]);
            assert(all[k] == paths[i]);
        }
        if all.contains(paths[i]) && !before.contains(paths[i]) {
            let k = all.index_of(paths[i]);
            if k < before.len() {
                assert(before[k] == paths[i]);
            } else {
                assert(paths[i] != paths[n - 1]);
            }
        }
    } else {
        if !occurs_after(identities, i) {
            assert(all[all.len() - 1] == paths[i]);
        } else if all.contains(paths[i]) {
            let k = before.index_of(paths[i]);
            let m = choose|m: int| 0 <= m < n - 1 && before[k] == #[trigger] paths[m];
            assert(paths[m] != paths[i]);
        }
    }
}

/// What is kept of some paths are paths among these.
proof fn lemma_deduplicated_come_before(
    paths: Seq<Seq<char>>,
    identities: Seq<Seq<char>>,
    n: nat,
)
    requires
        n <= paths.len() == identities.len(),
    ensures
        forall|k: int|
            0 <= k < deduplicated(paths, identities, n).len() ==> exists|m: int|
                0 <= m < n && #[trigger] deduplicated(paths, identities, n)[k]
                    == #[trigger] paths[m],
    decreases n,
{
    if n > 0 {
        lemma_deduplicated_come_before(paths, identities, (n - 1) as nat);
        let all = deduplicated(paths, identities, n);
        let before = deduplicated(paths, identities, (n - 1) as nat);
        assert forall|k: int| 0 <= k < all.len() implies exists|m: int|
            0 <= m < n && #[trigger] all[k] == #[trigger] paths[m] by {
            if k < before.len() {
                let m = choose|m: int| 0 <= m < n - 1 && before[k] == #[trigger] paths[m];
                assert(all[k] == paths[m]);
            } else {
                assert(all[k] == paths[n - 1]);
            }
        }
    }
}

/// Where configuration files are looked for on a platform where `/` separates: first in the user's
/// directory, where there is one, and at the highest precedence in `/etc/nemo-relay`. The user's
/// directory lies in the configured directory, or below `.config` of the home directory, or that of
/// the user profile.
pub proof fn law_default_places(
    dir: Seq<char>,
    program_data: Option<Seq<char>>,
    paths: Seq<Seq<char>>,
    home: Option<Seq<char>>,
    user_profile: Option<Seq<char>>,
    directory: Option<Seq<char>>,
)
    ensures
        default_paths(None, false, program_data, paths) ==> paths.len() == 1 && paths[0]
            == "/etc/nemo-relay/plugins.toml"@,
        default_paths(Some(dir), false, program_data, paths) ==> paths.len() == 2 && paths[1]
            == "/etc/nemo-relay/plugins.toml"@,
        default_paths(Some(dir), false, program_data, paths) && dir.len() > 0 && dir.last() != '/'
            ==> paths[0] == dir + "/"@ + "plugins.toml"@,
        is_system_config_dir(false, program_data, dir) ==> dir == "/etc/nemo-relay"@,
        dir.len() > 0 && dir.last() != '/' && is_user_config_dir(
            false,
            Some(dir),
            home,
            user_profile,
            directory,
        ) ==> directory == Some(dir + "/"@ + "nemo-relay"@),
        dir.len() > 0 && dir.last() != '/' && is_user_config_dir(
            false,
            None,
            Some(dir),
            user_profile,
            directory,
        ) ==> directory == Some(dir + "/"@ + ".config/nemo-relay"@),
        dir.len() > 0 && dir.last() != '/' && is_user_config_dir(
            false,
            None,
            None,
            Some(dir),
            directory,
        ) ==> directory == Some(dir + "/"@ + ".config/nemo-relay"@),
        is_user_config_dir(false, None, None, None, directory) ==> directory is None,
{
    reveal_strlit("plugins.toml");
    reveal_strlit("nemo-relay");
    reveal_strlit(".config/nemo-relay");
}

/// A document without a version, and one of version 1, are understood; any other version is an
/// error of the configuration.
pub proof fn law_documents_are_of_version_1(path: Seq<char>, document: JsonView)
    ensures
        version_problem(path, document) is None <==> field(document, "version"@) is None || u32_of(
            field(document, "version"@)->0,
        ) == Some(1u32),
        version_problem(path, document) matches Some(e) ==> e.0
            == error::PluginErrorKind::InvalidConfig,
{
}

/// A document is refused exactly where it declares some kind of component more than once, and the
/// error lists these kinds in order.
pub proof fn law_kinds_are_declared_once(
    path: Seq<char>,
    document: JsonView,
    components: Seq<JsonView>,
    kinds: Seq<Seq<char>>,
)
    requires
        field(document, "components"@) == Some(JsonView::Array(components)),
        forall|i: int, j: int|
            0 <= i < j < kinds.len() ==> less(#[trigger] kinds[i], #[trigger] kinds[j]),
        forall|k: Seq<char>| #[trigger] kinds.contains(k) <==> count_kind(components, k) > 1,
    ensures
        kinds.len() == 0 ==> duplicate_problem(path, document) is None,
        kinds.len() > 0 ==> duplicate_problem(path, document) == Some(
            (
                error::PluginErrorKind::InvalidConfig,
                "duplicate plugin component kind in "@ + path + ": "@ + text::joined(kinds, ", "@)
                    + "; declare each kind once per plugins.toml"@,
            ),
        ),
{
    assert(lists_duplicates(kinds, components));
    lemma_ascending_unique(kinds, duplicate_kinds(components));
}

/// A component is switched off exactly where it says `enabled = false`. Those are left out, and the
/// others stay in order.
pub proof fn law_enabled_components_stay_in_order(
    a: Seq<JsonView>,
    b: Seq<JsonView>,
    component: JsonView,
)
    ensures
        switched_off(component) <==> field(component, "enabled"@) == Some(JsonView::Bool(false)),
        not_switched_off(a + b) == not_switched_off(a) + not_switched_off(b),
        not_switched_off(seq![component]) == (if field(component, "enabled"@) == Some(
            JsonView::Bool(false),
        ) {
            Seq::empty()
        } else {
            seq![component]
        }),
    decreases b.len(),
{
    assert(seq![component].drop_last() =~= Seq::empty());
    assert(not_switched_off(seq![component].drop_last()) =~= Seq::empty());
    assert(not_switched_off(seq![component]) =~= (if field(component, "enabled"@) == Some(
        JsonView::Bool(false),
    ) {
        Seq::empty()
    } else {
        seq![component]
    }));
    if b.len() > 0 {
        law_enabled_components_stay_in_order(a, b.drop_last(), component);
        assert((a + b).drop_last() =~= a + b.drop_last());
        assert(not_switched_off(a + b) =~= not_switched_off(a) + not_switched_off(b));
    } else {
        assert(a + b =~= a);
        assert(not_switched_off(a + b) =~= not_switched_off(a) + not_switched_off(b));
    }
}

/// Only the components of a document are filtered.
pub proof fn law_filtering_keeps_other_fields(
    document: Map<Seq<char>, JsonView>,
    components: Seq<JsonView>,
    key: Seq<char>,
)
    ensures
        ({
            let r = without_disabled(JsonView::Object(document));
            &&& key != "components"@ ==> field(r, key) == field(JsonView::Object(document), key)
            &&& field(JsonView::Object(document), "components"@) == Some(JsonView::Array(components))
                ==> field(r, "components"@) == Some(JsonView::Array(not_switched_off(components)))
        }),
{
}

/// Documents are laid over each other in their order: what a later one sets counts. Without
/// documents there is nothing.
pub proof fn law_later_documents_count(
    documents: Seq<PluginConfigDocument>,
    document: PluginConfigDocument,
    key: Seq<char>,
    value: JsonView,
)
    ensures
        merged_documents(Seq::empty()) == JsonView::Object(Map::empty()),
        json_view(document.value) is Object && field(json_view(document.value), key) == Some(value)
            && !(value is Object) && !(value is Array) && merged_documents(documents) is Object
            ==> field(merged_documents(documents.push(document)), key) == Some(value),
        json_view(document.value) is Object && field(json_view(document.value), key) is None
            && merged_documents(documents) is Object ==> field(
            merged_documents(documents.push(document)),
            key,
        ) == field(merged_documents(documents), key),
{
    assert(documents.push(document).drop_last() =~= documents);
    assert(documents.push(document).last() == document);
    let low = merged_documents(documents);
    let high = without_disabled(json_view(document.value));
    if json_view(document.value) is Object {
        law_filtering_keeps_other_fields(json_view(document.value)->Object_0, Seq::empty(), key);
    }
}

/// Files are read where each of them is missing, or can be read and is TOML; the missing ones are
/// skipped and the others keep their order and their paths.
pub proof fn law_missing_files_are_skipped(files: Seq<PluginConfigFile>, file: PluginConfigFile)
    ensures
        file_problem(file) is None <==> file.contents is None || (file.contents->0 is Ok && toml_of(
            file.contents->0->Ok_0@,
        ) is Ok),
        files_problem(files.push(file)) is None <==> files_problem(files) is None && file_problem(
            file,
        ) is None,
        files_problem(files) is Some ==> files_problem(files.push(file)) == files_problem(files),
        files_problem(Seq::empty()) is None,
        file.contents is None ==> read_documents(files.push(file)) == read_documents(files),
        (file.contents matches Some(Ok(raw)) && toml_of(raw@) is Ok) ==> read_documents(
            files.push(file),
        ) == read_documents(files).push((file.path@, toml_of(file.contents->0->Ok_0@)->Ok_0)),
        read_documents(Seq::empty()) == Seq::<(Seq<char>, JsonView)>::empty(),
{
    assert(files.push(file).drop_last() =~= files);
}

/// Documents are accepted exactly where each of them is; the first that is not is told.
pub proof fn law_every_document_is_checked(
    documents: Seq<PluginConfigDocument>,
    document: PluginConfigDocument,
)
    ensures
        document_problem(document) is None <==> version_problem(
            document.path@,
            json_view(document.value),
        ) is None && duplicate_problem(document.path@, json_view(document.value)) is None,
        documents_problem(Seq::empty()) is None,
        documents_problem(documents.push(document)) is None <==> documents_problem(documents) is None
            && document_problem(document) is None,
        documents_problem(documents) is Some ==> documents_problem(documents.push(document))
            == documents_problem(documents),
{
    assert(documents.push(document).drop_last() =~= documents);
}

/// Of all that files say on whether a component is enabled, the last counts, and it is known which
/// file said it.
pub proof fn law_the_last_word_on_a_component_is_known(
    known: Map<Seq<char>, (bool, Seq<char>)>,
    components: Seq<JsonView>,
    component: JsonView,
    path: Seq<char>,
    kind: Seq<char>,
    enabled: bool,
)
    ensures
        sources_after_components(known, Seq::empty(), path) == known,
        field(component, "kind"@) == Some(JsonView::Text(kind)) && field(component, "enabled"@)
            == Some(JsonView::Bool(enabled)) ==> sources_after_components(
            known,
            components.push(component),
            path,
        ) == sources_after_components(known, components, path).insert(kind, (enabled, path)),
        !(field(component, "enabled"@) is Some && field(component, "enabled"@)->0 is Bool)
            ==> sources_after_components(known, components.push(component), path)
            == sources_after_components(known, components, path),
{
    assert(components.push(component).drop_last() =~= components);
}

/// Every file that configuration was taken from is told in a warning.
pub proof fn law_inherited_files_are_told(sources: Seq<Seq<char>>, i: int)
    requires
        0 <= i < sources.len(),
    ensures
        inherited_findings(sources).len() == sources.len(),
        inherited_findings(sources)[i].level == DiagnosticLevel::Warning,
        inherited_findings(sources)[i].code == "plugin.configuration_inherited"@,
        inherited_findings(sources)[i].message
            == "inherited plugin configuration from discovered file: "@ + sources[i],
{
}

/// A component that the program enables although a file switched it off is told in a warning that
/// names it, and nothing else is.
pub proof fn law_overridden_switches_are_told(
    discovered: Seq<JsonView>,
    sources: Map<Seq<char>, (bool, Seq<char>)>,
    components: Seq<PluginComponentSpec>,
    n: nat,
    kind: Seq<char>,
    nth: nat,
)
    requires
        0 < n <= components.len(),
    ensures
        ({
            let all = reenabled_findings(discovered, sources, components, n);
            let before = reenabled_findings(discovered, sources, components, (n - 1) as nat);
            let component = components[n - 1];
            let off = file_disabled(
                discovered,
                sources,
                component.kind@,
                crate::validation::kind_total(components.take(n - 1), component.kind@),
            );
            &&& component.enabled && off ==> all.len() == before.len() + 1 && all.last().level
                == DiagnosticLevel::Warning && all.last().code == "plugin.component_reenabled"@
                && all.last().component == Some(component.kind@)
            &&& !(component.enabled && off) ==> all == before
        }),
        reenabled_findings(discovered, sources, components, 0).len() == 0,
        discovered_enabled(discovered, kind, nth) == Some(true) ==> !file_disabled(
            discovered,
            sources,
            kind,
            nth,
        ),
        discovered_enabled(discovered, kind, nth) == Some(false) ==> file_disabled(
            discovered,
            sources,
            kind,
            nth,
        ),
        discovered_enabled(discovered, kind, nth) is None ==> (file_disabled(
            discovered,
            sources,
            kind,
            nth,
        ) <==> sources.contains_key(kind) && !sources[kind].0),
{
}

/// What the program configures is laid over the files as its components, each with its kind,
/// whether it is enabled and its configuration; its version and policy only where they are not the
/// default ones.
pub proof fn law_programs_overlay_what_they_set(config: PluginConfig, i: int)
    requires
        0 <= i < config.components@.len(),
    ensures
        ({
            let overlay = config_overlay(config);
            let components = items_of(field(overlay, "components"@));
            &&& components is Some
            &&& components->0.len() == config.components@.len()
            &&& field(components->0[i], "kind"@) == Some(JsonView::Text(config.components@[i].kind@))
            &&& field(components->0[i], "enabled"@) == Some(
                JsonView::Bool(config.components@[i].enabled),
            )
            &&& field(components->0[i], "config"@) == Some(
                JsonView::Object(object_view(config.components@[i].config.entries@)),
            )
            &&& config.version == 1 ==> field(overlay, "version"@) is None
            &&& config.version != 1 ==> field(overlay, "version"@) == Some(
                JsonView::Number(NumberView::Unsigned(config.version as u64)),
            )
            &&& config.policy == default_policy() ==> field(overlay, "policy"@) is None
            &&& config.policy != default_policy() ==> field(overlay, "policy"@) == Some(
                JsonView::Object(policy_overlay(config.policy)),
            )
        }),
{
    reveal_strlit("components");
    reveal_strlit("version");
    reveal_strlit("policy");
    reveal_strlit("kind");
    reveal_strlit("enabled");
    reveal_strlit("config");
    assert("components"@.len() == 10 && "version"@.len() == 7 && "policy"@.len() == 6);
    assert("kind"@.len() == 4 && "enabled"@.len() == 7 && "config"@.len() == 6);
    assert("components"@ != "version"@ && "components"@ != "policy"@ && "version"@ != "policy"@);
    assert("kind"@ != "enabled"@ && "kind"@ != "config"@ && "enabled"@ != "config"@);
    let overlay = config_overlay(config);
    let components = items_of(field(overlay, "components"@));
    assert(components is Some);
    assert(components->0[i] == component_overlay(config.components@[i]));
}

/// A policy overlays the settings that differ from the default ones, by name.
pub proof fn law_policies_overlay_what_they_set(policy: ConfigPolicy)
    ensures
        ({
            let r = JsonView::Object(policy_overlay(policy));
            let text = |behavior: UnsupportedBehavior|
                match behavior {
                    UnsupportedBehavior::Ignore => Some(JsonView::Text("ignore"@)),
                    UnsupportedBehavior::Warn => Some(JsonView::Text("warn"@)),
                    UnsupportedBehavior::Error => Some(JsonView::Text("error"@)),
                };
            &&& field(r, "unknown_component"@) == (if policy.unknown_component
                == UnsupportedBehavior::Warn {
                None
            } else {
                text(policy.unknown_component)
            })
            &&& field(r, "unknown_field"@) == (if policy.unknown_field
                == UnsupportedBehavior::Warn {
                None
            } else {
                text(policy.unknown_field)
            })
            &&& field(r, "unsupported_value"@) == (if policy.unsupported_value
                == UnsupportedBehavior::Error {
                None
            } else {
                text(policy.unsupported_value)
            })
        }),
{
    reveal_strlit("unknown_component");
    reveal_strlit("unknown_field");
    reveal_strlit("unsupported_value");
    assert("unknown_component"@.len() == 17 && "unknown_field"@.len() == 13);
    assert("unsupported_value"@.len() == 17);
    assert("unknown_component"@[2] != "unsupported_value"@[2]);
}

/// What is told of a configuration file's version, and of a component that was switched on again.
pub proof fn law_versions_of_files_are_told(
    path: Seq<char>,
    document: JsonView,
    sources: Map<Seq<char>, (bool, Seq<char>)>,
    kind: Seq<char>,
    directory: Seq<char>,
)
    ensures
        (field(document, "version"@) matches Some(raw) && u32_of(raw) is None) ==> version_problem(
            path,
            document,
        ) == Some(
            (
                error::PluginErrorKind::InvalidConfig,
                "invalid plugin config version in "@ + path + ": "@ + u32_error_of(
                    field(document, "version"@)->0,
                ),
            ),
        ),
        (field(document, "version"@) matches Some(raw) && (u32_of(raw) matches Some(version)
            && version != 1)) ==> version_problem(path, document) == Some(
            (
                error::PluginErrorKind::InvalidConfig,
                "plugin config version "@ + text::decimal(
                    u32_of(field(document, "version"@)->0)->0 as nat,
                ) + " in "@ + path + " is unsupported; expected 1"@,
            ),
        ),
        reenabled_finding(sources, kind).level == DiagnosticLevel::Warning,
        reenabled_finding(sources, kind).code == "plugin.component_reenabled"@,
        reenabled_finding(sources, kind).component == Some(kind),
        reenabled_finding(sources, kind).field == Some("enabled"@),
        sources.contains_key(kind) ==> reenabled_finding(sources, kind).message
            == "programmatic configuration enabled plugin component '"@ + kind
            + "' and overrode enabled = false"@ + (" from "@ + sources[kind].1),
        !sources.contains_key(kind) ==> reenabled_finding(sources, kind).message
            == "programmatic configuration enabled plugin component '"@ + kind
            + "' and overrode enabled = false"@ + ""@,
        is_system_config_dir(false, None, directory) <==> directory == "/etc/nemo-relay"@,
        is_system_config_dir(true, None, directory) <==> lies_below(
            true,
            "C:\\ProgramData"@,
            "nemo-relay"@,
            directory,
        ),
{
}

/// Where the system-wide configuration file lies.
pub proof fn law_system_files_lie_below_their_directory(
    program_data: Option<Seq<char>>,
    directory: Seq<char>,
    name: Seq<char>,
    path: Seq<char>,
)
    ensures
        system_config_file(false, program_data, path) <==> path == "/etc/nemo-relay/plugins.toml"@,
        system_config_file(true, program_data, path) ==> exists|d: Seq<char>| #[trigger]
            is_system_config_dir(true, program_data, d) && ends_with(path, "plugins.toml"@),
        lies_below(false, directory, name, path) <==> path == unix_joined(directory, name),
        lies_below(true, directory, name, path) ==> ends_with(path, name),
        lies_below(true, directory, name, path) && !verbatim(directory) ==> adjoined(
            directory,
            name,
            path,
        ),
{
}

/// The sources of components are read document by document, each on top of the ones before.
pub proof fn law_sources_are_read_in_order(
    documents: Seq<PluginConfigDocument>,
    last: PluginConfigDocument,
    document: JsonView,
    items: Seq<JsonView>,
)
    ensures
        sources_after(Seq::empty()) == Map::<Seq<char>, (bool, Seq<char>)>::empty(),
        sources_after(documents.push(last)) == sources_after_components(
            sources_after(documents),
            components_of(json_view(last.value)),
            last.path@,
        ),
        field(document, "components"@) == Some(JsonView::Array(items)) ==> components_of(document)
            == items,
        field(document, "components"@) is None ==> components_of(document).len() == 0,
{
    assert(documents.push(last).drop_last() =~= documents);
}

} // verus!
