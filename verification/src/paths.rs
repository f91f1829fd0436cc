//! Filesystem paths as texts.
//!
//! How a path is split and joined depends on the platform, so only what holds on
//! every platform is claimed of what these functions return; the callers decide
//! on the outcome.

use vstd::prelude::*;

use crate::text::{chars_of, concat2, concat3, has_prefix};

verus! {

/// Whether a text ends with another.
pub open spec fn ends_with(s: Seq<char>, suffix: Seq<char>) -> bool {
    suffix.len() <= s.len() && s.subrange(s.len() - suffix.len(), s.len() as int) == suffix
}

/// Whether a text stands somewhere in another.
pub open spec fn occurs_in(part: Seq<char>, s: Seq<char>) -> bool {
    exists|i: int| 0 <= i <= s.len() - part.len() && #[trigger] s.subrange(i, i + part.len()) == part
}

/// Whether a path is the bare name of a file or directory on every platform.
pub open spec fn plain_name(path: Seq<char>) -> bool {
    &&& path.len() > 0
    &&& path != "."@
    &&& path != ".."@
    &&& !path.contains('/')
    &&& !path.contains('\\')
    &&& !path.contains(':')
}

/// Whether a path has neither a root nor a drive on any platform.
pub open spec fn relative_text(path: Seq<char>) -> bool {
    &&& path.len() > 0
    &&& path[0] != '/'
    &&& path[0] != '\\'
    &&& !path.contains(':')
}

/// Whether a path begins at a root, without a drive.
pub open spec fn rooted(path: Seq<char>) -> bool {
    path.len() > 0 && path[0] == '/' && !path.contains(':')
}

/// Whether a character separates the components of a path on some platform.
pub open spec fn separates(c: char) -> bool {
    c == '/' || c == '\\'
}

/// Whether a path begins with two separators, as network and verbatim paths do.
pub open spec fn doubly_rooted(path: Seq<char>) -> bool {
    path.len() >= 2 && separates(path[0]) && separates(path[1])
}

/// Whether a path is free of drives and the like on every platform.
pub open spec fn bare(path: Seq<char>) -> bool {
    !path.contains(':') && !doubly_rooted(path)
}

/// Whether some character of a path is neither a separator nor a dot, so that the path has a
/// component of its own.
pub open spec fn names_something(path: Seq<char>) -> bool {
    exists|i: int| 0 <= i < path.len() && !separates(#[trigger] path[i]) && path[i] != '.'
}

/// Whether a path has the prefix with which Windows takes it without normalising it.
pub open spec fn verbatim(path: Seq<char>) -> bool {
    has_prefix(path, "\\\\?\\"@)
}

/// Whether a path needs a separator before a further component on every platform.
pub open spec fn unended(base: Seq<char>) -> bool {
    base.len() > 0 && !separates(base.last()) && base.last() != ':'
}

/// Whether a path stands behind a base, with a separator between them.
pub open spec fn parted(base: Seq<char>, path: Seq<char>, r: Seq<char>) -> bool {
    r == base + "/"@ + path || r == base + "\\"@ + path
}

/// Whether a path stands behind a base, with a separator between them where the base needs one
/// and none where it ends in one. Behind a base that ends in a drive or a backslash, whether a
/// separator stands there rests on the platform.
pub open spec fn adjoined(base: Seq<char>, path: Seq<char>, r: Seq<char>) -> bool {
    if unended(base) {
        parted(base, path, r)
    } else if base.len() == 0 || base.last() == '/' {
        r == base + path
    } else {
        r == base + path || parted(base, path, r)
    }
}

/// Whether a path is that of a name in a directory.
pub open spec fn in_directory(path: Seq<char>, dir: Seq<char>, name: Seq<char>) -> bool {
    &&& path == dir + "/"@ + name
    &&& plain_name(name)
    &&& unended(dir)
    &&& dir.last() != '.'
    &&& !doubly_rooted(path)
}

/// Whether a path is that of a name in the root directory.
pub open spec fn in_root(path: Seq<char>, name: Seq<char>) -> bool {
    path == "/"@ + name && plain_name(name)
}

/// What holds on every platform of a path that was joined to a base. A relative path extends
/// the base. A rooted one replaces it, all but its drive. Windows normalises what is joined to a
/// verbatim base; a bare name stays the end there too.
pub open spec fn joins(base: Seq<char>, path: Seq<char>, r: Seq<char>) -> bool {
    &&& plain_name(path) ==> ends_with(r, path)
    &&& relative_text(path) && !verbatim(base) ==> adjoined(base, path, r)
    &&& rooted(path) && !verbatim(base) ==> ends_with(r, path)
    &&& rooted(path) && bare(base) ==> r == path
}

/// Whether `std::path::Path::is_absolute` holds of a path. What counts as absolute rests on
/// the platform; a path without root and drive is relative on each.
#[verifier::external_body]
pub(crate) fn path_is_absolute(path: &str) -> (r: bool)
    ensures
        path@.len() == 0 || relative_text(path@) ==> !r,
{
    std::path::Path::new(path).is_absolute()
}

/// The parent that `std::path::Path::parent` gives for a path: the path without its final
/// component. There is none for the empty path and the root. A bare name has an empty parent, a
/// name in a directory has the directory. How other paths are split rests on the platform; one
/// without a drive that has a component of its own has some parent on each.
#[verifier::external_body]
pub(crate) fn path_parent(path: &str) -> (r: Option<String>)
    ensures
        path@.len() == 0 || path@ == "/"@ ==> r is None,
        plain_name(path@) ==> r is Some && r->0@.len() == 0,
        bare(path@) && names_something(path@) ==> r is Some,
        forall|dir: Seq<char>, name: Seq<char>| #[trigger]
            in_directory(path@, dir, name) ==> r is Some && r->0@ == dir,
        forall|name: Seq<char>| #[trigger] in_root(path@, name) ==> r is Some && r->0@ == "/"@,
        r matches Some(parent) ==> parent@.len() < path@.len() && has_prefix(path@, parent@),
{
    std::path::Path::new(path).parent().map(|parent| parent.to_string_lossy().into_owned())
}

/// The path that `std::path::Path::join` gives for a base and a further path. Which separator
/// stands between them rests on the platform.
#[verifier::external_body]
pub(crate) fn path_join(base: &str, path: &str) -> (r: String)
    ensures
        joins(base@, path@, r@),
{
    std::path::Path::new(base).join(path).to_string_lossy().into_owned()
}

/// The last component that `std::path::Path::file_name` gives for a path. A bare name is its own
/// last component, and a name in a directory is that of the path. How other paths are split
/// rests on the platform; the component is a part of the path on each.
#[verifier::external_body]
pub(crate) fn path_file_name(path: &str) -> (r: Option<String>)
    ensures
        path@.len() == 0 || path@ == "/"@ ==> r is None,
        plain_name(path@) ==> r is Some && r->0@ == path@,
        forall|dir: Seq<char>, name: Seq<char>| #[trigger]
            in_directory(path@, dir, name) ==> r is Some && r->0@ == name,
        forall|name: Seq<char>| #[trigger] in_root(path@, name) ==> r is Some && r->0@ == name,
        r matches Some(name) ==> name@.len() > 0 && occurs_in(name@, path@),
{
    std::path::Path::new(path).file_name().map(|name| name.to_string_lossy().into_owned())
}

/// A path joined to a base where `/` separates the components and begins absolute paths.
pub open spec fn unix_joined(base: Seq<char>, path: Seq<char>) -> Seq<char> {
    if path.len() > 0 && path[0] == '/' {
        path
    } else if base.len() == 0 || base.last() == '/' {
        base + path
    } else {
        base + "/"@ + path
    }
}

/// Joins a path to a base for a platform: Windows, or one where `/` separates the components.
pub fn join_for(windows: bool, base: &str, path: &str) -> (r: String)
    ensures
        if windows {
            joins(base@, path@, r@)
        } else {
            r@ == unix_joined(base@, path@)
        },
{
    if windows {
        return path_join(base, path);
    }
    if begins_with(path, '/') {
        return path.to_owned();
    }
    if base.is_empty() || ends_in(base, '/') {
        concat2(base, path)
    } else {
        concat3(base, "/", path)
    }
}

/// Whether a path is absolute on a platform: Windows, or one where `/` begins absolute paths.
pub fn is_absolute_for(windows: bool, path: &str) -> (r: bool)
    ensures
        windows && (path@.len() == 0 || relative_text(path@)) ==> !r,
        !windows ==> r == (path@.len() > 0 && path@[0] == '/'),
{
    if windows {
        path_is_absolute(path)
    } else {
        begins_with(path, '/')
    }
}

/// Whether a text begins with a character.
fn begins_with(s: &str, c: char) -> (r: bool)
    ensures
        r == (s@.len() > 0 && s@[0] == c),
{
    let chars = chars_of(s);
    chars.len() > 0 && chars[0] == c
}

/// Whether a text ends in a character.
fn ends_in(s: &str, c: char) -> (r: bool)
    ensures
        r == (s@.len() > 0 && s@.last() == c),
{
    let chars = chars_of(s);
    chars.len() > 0 && chars[chars.len() - 1] == c
}

/// The name of the configuration file is a bare name.
pub(crate) proof fn lemma_config_file_name()
    ensures
        plain_name("plugins.toml"@),
        relative_text("plugins.toml"@),
{
    reveal_strlit("plugins.toml");
    reveal_strlit(".");
    reveal_strlit("..");
    assert("."@.len() == 1);
    assert(".."@.len() == 2);
    let s = "plugins.toml"@;
    assert forall|i: int| 0 <= i < s.len() implies s[i] != '/' && s[i] != '\\' && s[i] != ':' by {
        assert(i == 0 || i == 1 || i == 2 || i == 3 || i == 4 || i == 5 || i == 6 || i == 7 || i == 8 || i == 9 || i == 10 || i == 11);
    }
}

/// The name of the configuration directory is a bare name.
pub(crate) proof fn lemma_config_directory_name()
    ensures
        plain_name("nemo-relay"@),
        relative_text("nemo-relay"@),
{
    reveal_strlit("nemo-relay");
    reveal_strlit(".");
    reveal_strlit("..");
    assert("."@.len() == 1);
    assert(".."@.len() == 2);
    let s = "nemo-relay"@;
    assert forall|i: int| 0 <= i < s.len() implies s[i] != '/' && s[i] != '\\' && s[i] != ':' by {
        assert(i == 0 || i == 1 || i == 2 || i == 3 || i == 4 || i == 5 || i == 6 || i == 7 || i == 8 || i == 9);
    }
}

/// The configuration directory below the home directory is relative.
pub(crate) proof fn lemma_home_config_directory()
    ensures
        relative_text(".config/nemo-relay"@),
{
    reveal_strlit(".config/nemo-relay");
    let s = ".config/nemo-relay"@;
    assert forall|i: int| 0 <= i < s.len() implies s[i] != ':' by {
        assert(i == 0 || i == 1 || i == 2 || i == 3 || i == 4 || i == 5 || i == 6 || i == 7 || i == 8 || i == 9 || i == 10 || i == 11 || i == 12 || i == 13 || i == 14 || i == 15 || i == 16 || i == 17);
    }
}

/// `python` is a bare name.
pub(crate) proof fn lemma_python()
    ensures
        plain_name("python"@),
        relative_text("python"@),
{
    reveal_strlit("python");
    reveal_strlit(".");
    reveal_strlit("..");
    assert("."@.len() == 1);
    assert(".."@.len() == 2);
    let s = "python"@;
    assert forall|i: int| 0 <= i < s.len() implies s[i] != '/' && s[i] != '\\' && s[i] != ':' by {
        assert(i == 0 || i == 1 || i == 2 || i == 3 || i == 4 || i == 5);
    }
}

/// `python.exe` is a bare name.
pub(crate) proof fn lemma_python_exe()
    ensures
        plain_name("python.exe"@),
        relative_text("python.exe"@),
{
    reveal_strlit("python.exe");
    reveal_strlit(".");
    reveal_strlit("..");
    assert("."@.len() == 1);
    assert(".."@.len() == 2);
    let s = "python.exe"@;
    assert forall|i: int| 0 <= i < s.len() implies s[i] != '/' && s[i] != '\\' && s[i] != ':' by {
        assert(i == 0 || i == 1 || i == 2 || i == 3 || i == 4 || i == 5 || i == 6 || i == 7 || i == 8 || i == 9);
    }
}

/// Where a path declared in a manifest lies: an absolute path where it says, any
/// other below the manifest's directory, or as it stands where the manifest has
/// none. `joined` is the path joined to that directory.
pub fn manifest_relative_location(value: &str, is_absolute: bool, joined: Option<String>) -> (r:
    String)
    ensures
        r@ == (if is_absolute || joined is None {
            value@
        } else {
            joined->0@
        }),
{
    if is_absolute {
        value.to_owned()
    } else {
        match joined {
            Some(path) => path,
            None => value.to_owned(),
        }
    }
}

/// Whether a path is another one, joined to a prefix of a third that is shorter than that.
pub open spec fn beside(path: Seq<char>, value: Seq<char>, r: Seq<char>) -> bool {
    exists|n: int| 0 <= n < path.len() && joins(#[trigger] path.take(n), value, r)
}

/// Whether a path lies where a path declared in a manifest leads to, for manifests that have a
/// directory: a relative one stands behind the directory, and a rooted one as it is, behind the
/// manifest's drive where it has one.
pub open spec fn placed(manifest_path: Seq<char>, value: Seq<char>, r: Seq<char>) -> bool {
    &&& forall|dir: Seq<char>, name: Seq<char>|
        relative_text(value) && #[trigger] in_directory(manifest_path, dir, name) ==> parted(
            dir,
            value,
            r,
        )
    &&& forall|name: Seq<char>|
        relative_text(value) && #[trigger] in_root(manifest_path, name) ==> r == "/"@ + value
    &&& relative_text(value) && plain_name(manifest_path) ==> r == value
    &&& rooted(value) && !verbatim(manifest_path) ==> ends_with(r, value)
    &&& rooted(value) && bare(manifest_path) ==> r == value
    &&& plain_name(value) ==> ends_with(r, value)
}

/// What holds of a manifest holds of the directory that a part of its path names.
proof fn lemma_prefix(path: Seq<char>, n: int)
    requires
        0 <= n <= path.len(),
    ensures
        bare(path) ==> bare(path.take(n)),
        !verbatim(path) ==> !verbatim(path.take(n)),
{
    let part = path.take(n);
    if part.contains(':') {
        let i = part.index_of(':');
        assert(path[i] == ':');
    }
    if verbatim(part) {
        let mark = "\\\\?\\"@;
        assert(path.subrange(0, mark.len() as int) =~= part.subrange(0, mark.len() as int));
    }
}

/// A directory that holds a path in it is not verbatim.
proof fn lemma_directory_is_not_verbatim(path: Seq<char>, dir: Seq<char>, name: Seq<char>)
    requires
        in_directory(path, dir, name),
    ensures
        !verbatim(dir),
{
    reveal_strlit("\\\\?\\");
    if verbatim(dir) {
        let mark = dir.subrange(0, "\\\\?\\"@.len() as int);
        assert(mark[0] == dir[0] && mark[1] == dir[1]);
        assert(path[0] == dir[0] && path[1] == dir[1]);
    }
}

/// A path joined to the parent of another, where that has one.
pub(crate) fn join_to_parent(path: &str, value: &str) -> (r: Option<String>)
    ensures
        path@.len() == 0 || path@ == "/"@ ==> r is None,
        plain_name(path@) ==> r is Some,
        bare(path@) && names_something(path@) ==> r is Some,
        forall|dir: Seq<char>, name: Seq<char>| #[trigger]
            in_directory(path@, dir, name) ==> r is Some,
        forall|name: Seq<char>| #[trigger] in_root(path@, name) ==> r is Some,
        r matches Some(joined) ==> beside(path@, value@, joined@) && placed(
            path@,
            value@,
            joined@,
        ),
{
    match path_parent(path) {
        Some(parent) => {
            let joined = path_join(parent.as_str(), value);
            proof {
                let n = parent@.len() as int;
                assert(path@.take(n) =~= parent@);
                lemma_prefix(path@, n);
                reveal_strlit("\\\\?\\");
                reveal_strlit("/");
                if plain_name(path@) {
                    assert(parent@ =~= Seq::empty());
                    assert(!verbatim(parent@));
                    assert(parent@ + value@ =~= value@);
                }
                assert forall|dir: Seq<char>, name: Seq<char>|
                    relative_text(value@) && #[trigger] in_directory(path@, dir, name) implies parted(
                    dir,
                    value@,
                    joined@,
                ) by {
                    lemma_directory_is_not_verbatim(path@, dir, name);
                }
                assert forall|name: Seq<char>|
                    relative_text(value@) && #[trigger] in_root(path@, name) implies joined@ == "/"@
                    + value@ by {
                    assert(parent@ == "/"@);
                    assert("/"@.len() == 1 && "/"@[0] == '/');
                    assert(!verbatim("/"@));
                }
            }
            Some(joined)
        },
        None => None,
    }
}

/// Whether a path is where a manifest's declaration of `value` leads: joined to the manifest's
/// directory, or `value` itself where that is absolute or the manifest has no directory.
pub open spec fn resolved_beside(manifest_path: Seq<char>, value: Seq<char>, r: Seq<char>) -> bool {
    &&& r == value || beside(manifest_path, value, r)
    &&& placed(manifest_path, value, r)
    &&& manifest_path.len() == 0 || manifest_path == "/"@ ==> r == value
}

/// Resolves a path declared in a manifest against the manifest's directory. Which paths are
/// absolute, and how they are joined, rests on the platform.
pub fn resolve_manifest_relative_path(manifest_path: &str, value: &str) -> (r: String)
    ensures
        resolved_beside(manifest_path@, value@, r@),
{
    let is_absolute = path_is_absolute(value);
    let joined = join_to_parent(manifest_path, value);
    assert(value@.subrange(0, value@.len() as int) =~= value@);
    manifest_relative_location(value, is_absolute, joined)
}

/// Joining on Unix: an absolute path stands for itself, any other is put behind the base, with one
/// separator where the base does not end in one.
pub proof fn law_unix_paths_are_joined(base: Seq<char>, path: Seq<char>)
    ensures
        unix_joined(base, "/"@ + path) == "/"@ + path,
        unix_joined(Seq::empty(), path) == path,
        path.len() > 0 && path[0] != '/' ==> unix_joined(base + "/"@, path) == base + "/"@ + path,
        path.len() > 0 && path[0] != '/' && base.len() > 0 && base.last() != '/' ==> unix_joined(
            base,
            path,
        ) == base + "/"@ + path,
{
    reveal_strlit("/");
    assert(Seq::<char>::empty() + path =~= path);
    assert((base + "/"@).last() == '/');
}

/// The texts that count as names, as relative and as rooted paths.
pub proof fn law_paths_are_told_apart(path: Seq<char>, dir: Seq<char>, name: Seq<char>)
    ensures
        plain_name(path) <==> path.len() > 0 && path != "."@ && path != ".."@ && !path.contains('/')
            && !path.contains('\\') && !path.contains(':'),
        relative_text(path) <==> path.len() > 0 && path[0] != '/' && path[0] != '\\'
            && !path.contains(':'),
        rooted(path) <==> path.len() > 0 && path[0] == '/' && !path.contains(':'),
        verbatim(path) <==> has_prefix(path, "\\\\?\\"@),
        in_directory(path, dir, name) ==> path == dir + "/"@ + name && plain_name(name),
        in_root(path, name) <==> path == "/"@ + name && plain_name(name),
{
}

/// A relative path is put behind the base, with a separator where the base has none at its end; a
/// rooted one stands for itself.
pub proof fn law_joined_paths_keep_their_parts(base: Seq<char>, path: Seq<char>, r: Seq<char>)
    requires
        joins(base, path, r),
        !verbatim(base),
    ensures
        relative_text(path) && base.len() > 0 && base.last() != '/' && base.last() != '\\'
            && base.last() != ':' ==> r == base + "/"@ + path || r == base + "\\"@ + path,
        relative_text(path) && (base.len() == 0 || base.last() == '/') ==> r == base + path,
        relative_text(path) ==> r == base + path || r == base + "/"@ + path || r == base + "\\"@
            + path,
        rooted(path) && base.len() == 0 ==> r == path,
        plain_name(path) ==> ends_with(r, path),
{
}

/// A relative value of a manifest is placed in the manifest's directory, and a rooted one stands for
/// itself.
pub proof fn law_values_are_placed_beside_the_manifest(
    dir: Seq<char>,
    name: Seq<char>,
    manifest_path: Seq<char>,
    value: Seq<char>,
    r: Seq<char>,
)
    requires
        resolved_beside(manifest_path, value, r),
    ensures
        in_directory(manifest_path, dir, name) && relative_text(value) ==> r == dir + "/"@ + value
            || r == dir + "\\"@ + value,
        in_root(manifest_path, name) && relative_text(value) ==> r == "/"@ + value,
        plain_name(manifest_path) && relative_text(value) ==> r == value,
        manifest_path.len() == 0 ==> r == value,
        rooted(value) && bare(manifest_path) ==> r == value,
{
}

} // verus!
