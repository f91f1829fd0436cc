//! Relay version requirements of dynamic plugins.

use semver::{Op, Version, VersionReq};
use vstd::prelude::*;

use crate::error::{failure, invalid, ErrorView, PluginError, PluginErrorKind};
use crate::text::{blank, concat2, concat4, concat5, opt_str, trim, trimmed};

verus! {

/// Comparison operator of one requirement clause.
#[derive(Clone, Copy, Debug, PartialEq, Eq, Structural)]
pub enum ComparatorOp {
    /// Exactly this version, or any version of a partial one.
    Exact,
    /// Later than this version.
    Greater,
    /// This version or a later one.
    GreaterEq,
    /// Earlier than this version.
    Less,
    /// This version or an earlier one.
    LessEq,
    /// At least this version, with its major and minor part kept.
    Tilde,
    /// At least this version, within what is compatible with it.
    Caret,
    /// Any version of the parts that are given.
    Wildcard,
    /// An operator that this library does not know.
    Other,
}

/// One clause of a version requirement.
#[derive(Clone, Copy, Debug, PartialEq, Eq, Structural)]
pub struct RelayComparator {
    /// How the version is compared.
    pub op: ComparatorOp,
    /// Major version.
    pub major: u64,
    /// Minor version, where given.
    pub minor: Option<u64>,
    /// Patch version, where given.
    pub patch: Option<u64>,
    /// Whether the clause names a pre-release.
    pub has_pre: bool,
}

/// The numeric part of a version, and whether it is a pre-release.
#[derive(Clone, Copy, Debug, PartialEq, Eq, Structural)]
pub struct RelayVersion {
    /// Major version.
    pub major: u64,
    /// Minor version.
    pub minor: u64,
    /// Patch version.
    pub patch: u64,
    /// Whether the version is a pre-release.
    pub has_pre: bool,
}

/// What `semver::VersionReq::parse` gives for a text: its clauses, or the text
/// of the error.
pub uninterp spec fn requirement_of(text: Seq<char>) -> Result<Seq<RelayComparator>, Seq<char>>;

/// What `semver::Version::parse` gives for a text: its parts, or the text of the
/// error.
pub uninterp spec fn version_of(text: Seq<char>) -> Result<RelayVersion, Seq<char>>;

/// What `semver::VersionReq::matches` gives for the requirement and the version
/// that two texts stand for.
pub uninterp spec fn requirement_admits(requirement: Seq<char>, version: Seq<char>) -> bool;

/// Whether the numeric part of a version is not below the given one.
pub open spec fn core_at_least(v: RelayVersion, major: int, minor: int, patch: int) -> bool {
    ||| v.major > major
    ||| v.major == major && v.minor > minor
    ||| v.major == major && v.minor == minor && v.patch >= patch
}

/// Whether the numeric part of a version can satisfy one clause: it is not below
/// the parts that the clause gives, and above them for a strict clause.
pub open spec fn clause_allows_core(c: RelayComparator, v: RelayVersion) -> bool {
    let minor = match c.minor {
        Some(m) => m as int,
        None => 0,
    };
    let patch = match c.patch {
        Some(p) => p as int,
        None => 0,
    };
    match c.op {
        ComparatorOp::Less | ComparatorOp::LessEq | ComparatorOp::Other => true,
        ComparatorOp::Greater => if c.has_pre {
            core_at_least(v, c.major as int, minor, patch)
        } else if c.minor is None {
            v.major > c.major
        } else if c.patch is None {
            v.major > c.major || (v.major == c.major && v.minor > minor)
        } else {
            core_at_least(v, c.major as int, minor, patch + 1)
        },
        _ => core_at_least(v, c.major as int, minor, patch),
    }
}

/// Parses a version requirement with `semver::VersionReq::parse`. The result is
/// named by the text: the clauses with the operator, the given numeric parts and
/// whether a pre-release is named, or the text of the parse error.
#[verifier::external_body]
fn parse_requirement(text: &str) -> (r: Result<Vec<RelayComparator>, String>)
    ensures
        match r {
            Ok(clauses) => requirement_of(text@) == Ok::<Seq<RelayComparator>, Seq<char>>(clauses@),
            Err(e) => requirement_of(text@) == Err::<Seq<RelayComparator>, Seq<char>>(e@),
        },
{
    let parsed = VersionReq::parse(text).map_err(|e| format!("{e}"))?;
    Ok(parsed.comparators.iter().map(|c| RelayComparator {
        op: match c.op {
            Op::Exact => ComparatorOp::Exact, Op::Greater => ComparatorOp::Greater,
            Op::GreaterEq => ComparatorOp::GreaterEq, Op::Less => ComparatorOp::Less,
            Op::LessEq => ComparatorOp::LessEq, Op::Tilde => ComparatorOp::Tilde,
            Op::Caret => ComparatorOp::Caret, Op::Wildcard => ComparatorOp::Wildcard,
            _ => ComparatorOp::Other,
        },
        major: c.major, minor: c.minor, patch: c.patch,
        has_pre: !c.pre.is_empty(),
    }).collect())
}

/// Parses a version with `semver::Version::parse`. The result is named by the
/// text: the numeric parts and whether a pre-release is named, or the text of the
/// parse error.
#[verifier::external_body]
fn parse_version(text: &str) -> (r: Result<RelayVersion, String>)
    ensures
        match r {
            Ok(v) => version_of(text@) == Ok::<RelayVersion, Seq<char>>(v),
            Err(e) => version_of(text@) == Err::<RelayVersion, Seq<char>>(e@),
        },
{
    let v = Version::parse(text).map_err(|e| format!("{e}"))?;
    Ok(RelayVersion { major: v.major, minor: v.minor, patch: v.patch, has_pre: !v.pre.is_empty() })
}

/// Evaluates a requirement on a version with `semver::VersionReq::matches`, both
/// given as texts; a text that does not parse admits nothing. A version that is
/// admitted satisfies every clause, so its numeric part lies where each clause
/// allows.
#[verifier::external_body]
fn matches_requirement(requirement: &str, version: &str) -> (r: bool)
    ensures
        r == requirement_admits(requirement@, version@),
        r ==> requirement_of(requirement@) is Ok && version_of(version@) is Ok && forall|i: int|
            0 <= i < requirement_of(requirement@)->Ok_0.len() ==> clause_allows_core(
                #[trigger] requirement_of(requirement@)->Ok_0[i],
                version_of(version@)->Ok_0,
            ),
{
    match (VersionReq::parse(requirement), Version::parse(version)) {
        (Ok(requirement), Ok(version)) => requirement.matches(&version),
        _ => false,
    }
}

/// The lowest version that a clause admits, where it bounds versions from below.
pub open spec fn clause_minimum(c: RelayComparator) -> Option<RelayVersion> {
    let base = RelayVersion {
        major: c.major,
        minor: match c.minor {
            Some(m) => m,
            None => 0,
        },
        patch: match c.patch {
            Some(p) => p,
            None => 0,
        },
        has_pre: c.has_pre,
    };
    match c.op {
        ComparatorOp::Less | ComparatorOp::LessEq | ComparatorOp::Other => None,
        ComparatorOp::Greater => Some(
            if c.has_pre {
                base
            } else if c.minor is None {
                next_major(base)
            } else if c.patch is None {
                next_minor(base)
            } else {
                next_patch(base)
            },
        ),
        _ => Some(base),
    }
}

/// The first version of the next major line, or the version itself where there
/// is none.
pub open spec fn next_major(v: RelayVersion) -> RelayVersion {
    if v.major < u64::MAX {
        RelayVersion { major: (v.major + 1) as u64, minor: 0, patch: 0, has_pre: v.has_pre }
    } else {
        v
    }
}

/// The first version of the next minor line.
pub open spec fn next_minor(v: RelayVersion) -> RelayVersion {
    if v.minor < u64::MAX {
        RelayVersion { major: v.major, minor: (v.minor + 1) as u64, patch: 0, has_pre: v.has_pre }
    } else {
        next_major(v)
    }
}

/// The next patch version.
pub open spec fn next_patch(v: RelayVersion) -> RelayVersion {
    if v.patch < u64::MAX {
        RelayVersion {
            major: v.major,
            minor: v.minor,
            patch: (v.patch + 1) as u64,
            has_pre: v.has_pre,
        }
    } else {
        next_minor(v)
    }
}

/// Whether a version is the baseline release 0.8.0 or a later one. A pre-release
/// comes before its release.
pub open spec fn reaches_baseline(v: RelayVersion) -> bool {
    ||| v.major > 0
    ||| v.minor > 8
    ||| v.minor == 8 && v.patch > 0
    ||| v.minor == 8 && v.patch == 0 && !v.has_pre
}

/// Whether some clause keeps out every version below the baseline release.
pub open spec fn declares_baseline(clauses: Seq<RelayComparator>) -> bool {
    exists|i: int|
        0 <= i < clauses.len() && (#[trigger] clause_minimum(clauses[i]) matches Some(v)
            && reaches_baseline(v))
}

/// The problem of a parsed requirement with the baseline release.
pub open spec fn baseline_problem_of(
    parsed: Result<Seq<RelayComparator>, Seq<char>>,
    relay: Seq<char>,
    plugin_type: Seq<char>,
) -> Option<ErrorView> {
    match parsed {
        Err(e) => invalid("invalid compat.relay version requirement: "@ + e),
        Ok(clauses) => if declares_baseline(clauses) {
            None
        } else {
            invalid(
                plugin_type
                    + " plugins must declare compat.relay = \">=0.8.0\" or another range that excludes Relay versions before 0.8; found '"@
                    + relay + "'"@,
            )
        },
    }
}

/// The problem of a declared Relay requirement with the baseline release.
pub open spec fn baseline_problem(relay: Option<Seq<char>>, plugin_type: Seq<char>) -> Option<
    ErrorView,
> {
    match relay {
        Some(text) if !blank(text) => baseline_problem_of(
            requirement_of(trimmed(text)),
            trimmed(text),
            plugin_type,
        ),
        _ => invalid("compat.relay is required"@),
    }
}

/// Moves to the first version of the next major line.
pub fn increment_major(version: &mut RelayVersion)
    ensures
        *final(version) == next_major(*old(version)),
{
    if let Some(major) = version.major.checked_add(1) {
        version.major = major;
        version.minor = 0;
        version.patch = 0;
    }
}

/// Moves to the first version of the next minor line, carrying into the major
/// part.
pub fn increment_minor(version: &mut RelayVersion)
    ensures
        *final(version) == next_minor(*old(version)),
{
    if let Some(minor) = version.minor.checked_add(1) {
        version.minor = minor;
        version.patch = 0;
    } else {
        increment_major(version);
    }
}

/// Moves to the next patch version, carrying into the minor part.
pub fn increment_patch(version: &mut RelayVersion)
    ensures
        *final(version) == next_patch(*old(version)),
{
    if let Some(patch) = version.patch.checked_add(1) {
        version.patch = patch;
    } else {
        increment_minor(version);
    }
}

/// The lowest version that a clause admits, where it bounds versions from below.
pub fn comparator_minimum(comparator: &RelayComparator) -> (r: Option<RelayVersion>)
    ensures
        r == clause_minimum(*comparator),
{
    let mut version = RelayVersion {
        major: comparator.major,
        minor: match comparator.minor {
            Some(m) => m,
            None => 0,
        },
        patch: match comparator.patch {
            Some(p) => p,
            None => 0,
        },
        has_pre: comparator.has_pre,
    };
    match comparator.op {
        ComparatorOp::Less | ComparatorOp::LessEq | ComparatorOp::Other => None,
        ComparatorOp::Greater => {
            if !comparator.has_pre {
                if comparator.minor.is_none() {
                    increment_major(&mut version);
                } else if comparator.patch.is_none() {
                    increment_minor(&mut version);
                } else {
                    increment_patch(&mut version);
                }
            }
            Some(version)
        },
        _ => Some(version),
    }
}

/// Whether a version is the baseline release or a later one.
pub fn is_at_least_baseline(v: &RelayVersion) -> (r: bool)
    ensures
        r == reaches_baseline(*v),
{
    v.major > 0 || v.minor > 8 || (v.minor == 8 && v.patch > 0) || (v.minor == 8 && v.patch == 0
        && !v.has_pre)
}

/// Whether some clause keeps out every version below the baseline release.
pub fn any_clause_reaches_baseline(clauses: &Vec<RelayComparator>) -> (r: bool)
    ensures
        r == declares_baseline(clauses@),
{
    let mut i: usize = 0;
    while i < clauses.len()
        invariant
            i <= clauses.len(),
            forall|j: int|
                0 <= j < i ==> !(#[trigger] clause_minimum(clauses@[j]) matches Some(v)
                    && reaches_baseline(v)),
        decreases clauses.len() - i,
    {
        if let Some(v) = comparator_minimum(&clauses[i]) {
            if is_at_least_baseline(&v) {
                assert(clause_minimum(clauses@[i as int]) == Some(v));
                return true;
            }
        }
        i += 1;
    }
    false
}

/// Checks the outcome of parsing a requirement against the baseline release.
pub fn check_relay_baseline(
    parsed: Result<Vec<RelayComparator>, String>,
    relay: &str,
    plugin_type: &str,
) -> (r: Result<(), PluginError>)
    ensures
        failure(r) == baseline_problem_of(
            match parsed {
                Ok(clauses) => Ok(clauses@),
                Err(e) => Err(e@),
            },
            relay@,
            plugin_type@,
        ),
{
    match parsed {
        Err(e) => Err(
            PluginError::InvalidConfig(
                concat2("invalid compat.relay version requirement: ", e.as_str()),
            ),
        ),
        Ok(clauses) => {
            if any_clause_reaches_baseline(&clauses) {
                return Ok(());
            }
            Err(
                PluginError::InvalidConfig(
                    concat4(
                        plugin_type,
                        " plugins must declare compat.relay = \">=0.8.0\" or another range that excludes Relay versions before 0.8; found '",
                        relay,
                        "'",
                    ),
                ),
            )
        },
    }
}

/// Checks that a Relay requirement is declared and keeps out every release
/// before the baseline, and returns it without surrounding whitespace.
pub fn parse_dynamic_plugin_relay_requirement<'a>(
    relay: Option<&'a str>,
    plugin_type: &str,
) -> (r: Result<&'a str, PluginError>)
    ensures
        failure(r) == baseline_problem(opt_str(relay), plugin_type@),
        r matches Ok(text) ==> relay is Some && text@ == trimmed(relay->0@) && requirement_of(
            text@,
        ) is Ok && declares_baseline(requirement_of(text@)->Ok_0),
{
    match relay {
        Some(value) => {
            let text = trim(value);
            if text.is_empty() {
                return Err(PluginError::InvalidConfig("compat.relay is required".to_owned()));
            }
            let parsed = parse_requirement(text);
            match check_relay_baseline(parsed, text, plugin_type) {
                Ok(()) => Ok(text),
                Err(e) => Err(e),
            }
        },
        None => Err(PluginError::InvalidConfig("compat.relay is required".to_owned())),
    }
}

/// Checks that a plugin declares a Relay requirement that keeps out every release
/// before the baseline.
pub fn validate_dynamic_plugin_relay_baseline(relay: Option<&str>, plugin_type: &str) -> (r: Result<
    (),
    PluginError,
>)
    ensures
        failure(r) == baseline_problem(opt_str(relay), plugin_type@),
{
    match parse_dynamic_plugin_relay_requirement(relay, plugin_type) {
        Ok(_) => Ok(()),
        Err(e) => Err(e),
    }
}

/// The problem of a requirement that keeps to the baseline with the running host.
pub open spec fn host_problem(
    host: Result<RelayVersion, Seq<char>>,
    admits: bool,
    relay: Seq<char>,
    plugin_type: Seq<char>,
    host_version: Seq<char>,
) -> Option<ErrorView> {
    match host {
        Err(e) => Some((PluginErrorKind::Internal, "failed to parse host version: "@ + e)),
        Ok(_) => if admits {
            None
        } else {
            invalid(
                plugin_type + " plugin requires relay '"@ + relay + "' but host version is "@
                    + host_version,
            )
        },
    }
}

/// The problem of a declared Relay requirement on a host of the given version.
pub open spec fn compatibility_problem(
    relay: Option<Seq<char>>,
    plugin_type: Seq<char>,
    host_version: Seq<char>,
) -> Option<ErrorView> {
    match baseline_problem(relay, plugin_type) {
        Some(e) => Some(e),
        None => host_problem(
            version_of(host_version),
            requirement_admits(trimmed(relay->0), host_version),
            trimmed(relay->0),
            plugin_type,
            host_version,
        ),
    }
}

/// Decides whether a host meets a requirement, given what the host version parses
/// to and whether the requirement admits it.
pub fn check_host_version(
    host: Result<RelayVersion, String>,
    admits: bool,
    relay: &str,
    plugin_type: &str,
    host_version: &str,
) -> (r: Result<(), PluginError>)
    ensures
        failure(r) == host_problem(
            match host {
                Ok(v) => Ok(v),
                Err(e) => Err(e@),
            },
            admits,
            relay@,
            plugin_type@,
            host_version@,
        ),
{
    match host {
        Err(e) => Err(
            PluginError::Internal(concat2("failed to parse host version: ", e.as_str())),
        ),
        Ok(_) => if admits {
            Ok(())
        } else {
            Err(
                PluginError::InvalidConfig(
                    concat5(
                        plugin_type,
                        " plugin requires relay '",
                        relay,
                        "' but host version is ",
                        host_version,
                    ),
                ),
            )
        },
    }
}

/// Checks that a plugin's Relay requirement keeps to the baseline and admits the
/// running host.
///
/// A host that passes is never older than the baseline release.
pub fn validate_dynamic_plugin_relay_compatibility(
    relay: Option<&str>,
    plugin_type: &str,
    host_version: &str,
) -> (r: Result<(), PluginError>)
    ensures
        failure(r) == compatibility_problem(opt_str(relay), plugin_type@, host_version@),
        r is Ok ==> version_of(host_version@) is Ok && core_at_least(
            version_of(host_version@)->Ok_0,
            0,
            8,
            0,
        ),
{
    match parse_dynamic_plugin_relay_requirement(relay, plugin_type) {
        Err(e) => Err(e),
        Ok(text) => {
            let host = parse_version(host_version);
            let admits = matches_requirement(text, host_version);
            proof {
                if admits {
                    let clauses = requirement_of(text@)->Ok_0;
                    let i = choose|i: int|
                        0 <= i < clauses.len() && (#[trigger] clause_minimum(
                            clauses[i],
                        ) matches Some(v) && reaches_baseline(v));
                    lemma_minimum_bounds_core(clauses[i], version_of(host_version@)->Ok_0);
                }
            }
            check_host_version(host, admits, text, plugin_type, host_version)
        },
    }
}

/// A version that a clause allows is not below the clause's minimum.
pub proof fn lemma_minimum_bounds_core(c: RelayComparator, v: RelayVersion)
    requires
        clause_allows_core(c, v),
    ensures
        clause_minimum(c) matches Some(m) ==> core_at_least(
            v,
            m.major as int,
            m.minor as int,
            m.patch as int,
        ),
{
}

/// A requirement that keeps to the baseline allows no version before it: whatever
/// numeric part satisfies every clause is 0.8.0 or later.
pub proof fn law_baseline_excludes_earlier_releases(
    clauses: Seq<RelayComparator>,
    v: RelayVersion,
)
    requires
        declares_baseline(clauses),
        forall|i: int| 0 <= i < clauses.len() ==> clause_allows_core(#[trigger] clauses[i], v),
    ensures
        core_at_least(v, 0, 8, 0),
{
    let i = choose|i: int|
        0 <= i < clauses.len() && (#[trigger] clause_minimum(clauses[i]) matches Some(m)
            && reaches_baseline(m));
    lemma_minimum_bounds_core(clauses[i], v);
}

/// The problem of a plugin that intercepts LLM requests and may be run on
/// Relay 0.5, given what its requirement parses to.
pub open spec fn consumer_problem_of(
    parsed: Result<Seq<RelayComparator>, Seq<char>>,
    admits_relay_0_5: bool,
    plugin_kind: Seq<char>,
) -> Option<ErrorView> {
    match parsed {
        Err(e) => invalid("invalid compat.relay version requirement: "@ + e),
        Ok(_) => if admits_relay_0_5 {
            invalid(
                "dynamic plugin '"@ + plugin_kind
                    + "' registers an LLM request intercept and must declare compat.relay = \">=0.6,<1.0\" or another range that excludes Relay 0.5"@,
            )
        } else {
            None
        },
    }
}

/// The problem of a plugin that intercepts LLM requests with Relay 0.5.
pub open spec fn consumer_problem(relay: Seq<char>, plugin_kind: Seq<char>) -> Option<ErrorView> {
    consumer_problem_of(
        requirement_of(relay),
        requirement_admits(relay, "0.5.18446744073709551615"@),
        plugin_kind,
    )
}

/// Decides whether a plugin that intercepts LLM requests keeps out Relay 0.5.
pub fn check_annotated_request_consumer(
    parsed: Result<Vec<RelayComparator>, String>,
    admits_relay_0_5: bool,
    plugin_kind: &str,
) -> (r: Result<(), PluginError>)
    ensures
        failure(r) == consumer_problem_of(
            match parsed {
                Ok(clauses) => Ok(clauses@),
                Err(e) => Err(e@),
            },
            admits_relay_0_5,
            plugin_kind@,
        ),
{
    match parsed {
        Err(e) => Err(
            PluginError::InvalidConfig(
                concat2("invalid compat.relay version requirement: ", e.as_str()),
            ),
        ),
        Ok(_) => if admits_relay_0_5 {
            Err(
                PluginError::InvalidConfig(
                    crate::text::concat3(
                        "dynamic plugin '",
                        plugin_kind,
                        "' registers an LLM request intercept and must declare compat.relay = \">=0.6,<1.0\" or another range that excludes Relay 0.5",
                    ),
                ),
            )
        } else {
            Ok(())
        },
    }
}

/// Checks that a plugin that intercepts LLM requests keeps out Relay 0.5, by the
/// last version that the 0.5 line can have.
pub fn validate_annotated_request_consumer_compatibility(relay: &str, plugin_kind: &str) -> (r:
    Result<(), PluginError>)
    ensures
        failure(r) == consumer_problem(relay@, plugin_kind@),
{
    let parsed = parse_requirement(relay);
    let admits = matches_requirement(relay, "0.5.18446744073709551615");
    check_annotated_request_consumer(parsed, admits, plugin_kind)
}

/// The least version that each kind of clause allows, where none of its numbers is the greatest
/// that there is: the version that it names, with zeros for what it leaves out, for all clauses
/// with a lower bound but `>`; the next version after that, at the last number that is named, for
/// `>`; none for clauses that only bound from above.
pub proof fn law_clauses_bound_from_below(
    c: RelayComparator,
    major: u64,
    minor: u64,
    patch: u64,
    has_pre: bool,
)
    requires
        major < u64::MAX,
        minor < u64::MAX,
        patch < u64::MAX,
    ensures
        c.op == ComparatorOp::Less || c.op == ComparatorOp::LessEq || c.op == ComparatorOp::Other
            <==> clause_minimum(c) is None,
        c.op != ComparatorOp::Less && c.op != ComparatorOp::LessEq && c.op != ComparatorOp::Other
            && c.op != ComparatorOp::Greater ==> clause_minimum(c) == Some(
            RelayVersion {
                major: c.major,
                minor: if c.minor is Some {
                    c.minor->0
                } else {
                    0
                },
                patch: if c.patch is Some {
                    c.patch->0
                } else {
                    0
                },
                has_pre: c.has_pre,
            },
        ),
        c == (RelayComparator {
            op: ComparatorOp::Greater,
            major,
            minor: Some(minor),
            patch: Some(patch),
            has_pre: false,
        }) ==> clause_minimum(c) == Some(
            RelayVersion { major, minor, patch: (patch + 1) as u64, has_pre: false },
        ),
        c == (RelayComparator {
            op: ComparatorOp::Greater,
            major,
            minor: Some(minor),
            patch: Some(patch),
            has_pre: true,
        }) ==> clause_minimum(c) == Some(RelayVersion { major, minor, patch, has_pre: true }),
        c == (RelayComparator {
            op: ComparatorOp::Greater,
            major,
            minor: Some(minor),
            patch: None,
            has_pre: false,
        }) ==> clause_minimum(c) == Some(
            RelayVersion { major, minor: (minor + 1) as u64, patch: 0, has_pre: false },
        ),
        c == (RelayComparator {
            op: ComparatorOp::Greater,
            major,
            minor: None,
            patch: None,
            has_pre: false,
        }) ==> clause_minimum(c) == Some(
            RelayVersion { major: (major + 1) as u64, minor: 0, patch: 0, has_pre: false },
        ),
{
}

/// The version after another is greater than it, whatever its numbers are, short of the greatest
/// version that there is.
pub proof fn law_next_version_is_greater(v: RelayVersion)
    requires
        v.major < u64::MAX,
    ensures
        next_major(v).major == v.major + 1 && next_major(v).minor == 0 && next_major(v).patch == 0,
        v.minor < u64::MAX ==> next_minor(v).major == v.major && next_minor(v).minor == v.minor + 1
            && next_minor(v).patch == 0,
        v.minor == u64::MAX ==> next_minor(v) == next_major(v),
        v.patch < u64::MAX ==> next_patch(v).major == v.major && next_patch(v).minor == v.minor
            && next_patch(v).patch == v.patch + 1,
        v.patch == u64::MAX ==> next_patch(v) == next_minor(v),
        next_major(v).has_pre == v.has_pre,
        next_minor(v).has_pre == v.has_pre,
        next_patch(v).has_pre == v.has_pre,
{
}

/// A version reaches the baseline where it is 0.8.0 or later; a prerelease of 0.8.0 does not. A
/// requirement declares the baseline where one of its clauses allows nothing before that.
pub proof fn law_baseline_is_0_8_0(v: RelayVersion, clauses: Seq<RelayComparator>, i: int)
    ensures
        v.major == 0 && v.minor < 8 ==> !reaches_baseline(v),
        v.major == 0 && v.minor == 8 && v.patch == 0 && v.has_pre ==> !reaches_baseline(v),
        v.major == 0 && v.minor == 8 && v.patch == 0 && !v.has_pre ==> reaches_baseline(v),
        v.major == 0 && v.minor == 8 && v.patch > 0 ==> reaches_baseline(v),
        v.major == 0 && v.minor > 8 ==> reaches_baseline(v),
        v.major > 0 ==> reaches_baseline(v),
        0 <= i < clauses.len() && clause_minimum(clauses[i]) is Some && reaches_baseline(
            clause_minimum(clauses[i])->0,
        ) ==> declares_baseline(clauses),
        (forall|j: int|
            0 <= j < clauses.len() ==> {
                ||| clause_minimum(#[trigger] clauses[j]) is None
                ||| !reaches_baseline(clause_minimum(clauses[j])->0)
            }) ==> !declares_baseline(clauses),
{
}

/// A plugin is compatible exactly where it declares a requirement that can be read and that
/// declares the baseline, and the host's version can be read and meets it.
pub proof fn law_compatible_plugins_meet_the_host(
    relay: Option<Seq<char>>,
    plugin_type: Seq<char>,
    host_version: Seq<char>,
)
    ensures
        baseline_problem(relay, plugin_type) is None <==> relay is Some && !blank(relay->0)
            && requirement_of(trimmed(relay->0)) is Ok && declares_baseline(
            requirement_of(trimmed(relay->0))->Ok_0,
        ),
        compatibility_problem(relay, plugin_type, host_version) is None <==> baseline_problem(
            relay,
            plugin_type,
        ) is None && version_of(host_version) is Ok && requirement_admits(
            trimmed(relay->0),
            host_version,
        ),
        baseline_problem(relay, plugin_type) is Some ==> compatibility_problem(
            relay,
            plugin_type,
            host_version,
        ) == baseline_problem(relay, plugin_type) && (baseline_problem(relay, plugin_type)->0).0
            == PluginErrorKind::InvalidConfig,
{
}

/// A plugin may intercept LLM requests exactly where its requirement can be read and does not
/// admit the last version of the 0.5 line.
pub proof fn law_request_consumers_exclude_0_5(relay: Seq<char>, plugin_kind: Seq<char>)
    ensures
        consumer_problem(relay, plugin_kind) is None <==> requirement_of(relay) is Ok
            && !requirement_admits(relay, "0.5.18446744073709551615"@),
{
}

/// What is told where a plugin's range of versions does not do.
pub proof fn law_unfit_versions_are_told(
    clauses: Seq<RelayComparator>,
    host: RelayVersion,
    e: Seq<char>,
    relay: Seq<char>,
    plugin_type: Seq<char>,
    host_version: Seq<char>,
)
    ensures
        baseline_problem(None, plugin_type) == Some(
            (PluginErrorKind::InvalidConfig, "compat.relay is required"@),
        ),
        blank(relay) ==> baseline_problem(Some(relay), plugin_type) == Some(
            (PluginErrorKind::InvalidConfig, "compat.relay is required"@),
        ),
        baseline_problem_of(Err(e), relay, plugin_type) == Some(
            (
                PluginErrorKind::InvalidConfig,
                "invalid compat.relay version requirement: "@ + e,
            ),
        ),
        !declares_baseline(clauses) ==> baseline_problem_of(Ok(clauses), relay, plugin_type) == Some(
            (
                PluginErrorKind::InvalidConfig,
                plugin_type
                    + " plugins must declare compat.relay = \">=0.8.0\" or another range that excludes Relay versions before 0.8; found '"@
                    + relay + "'"@,
            ),
        ),
        host_problem(Err(e), true, relay, plugin_type, host_version) == Some(
            (PluginErrorKind::Internal, "failed to parse host version: "@ + e),
        ),
        host_problem(Ok(host), true, relay, plugin_type, host_version) is None,
        host_problem(Ok(host), false, relay, plugin_type, host_version) == Some(
            (
                PluginErrorKind::InvalidConfig,
                plugin_type + " plugin requires relay '"@ + relay + "' but host version is "@
                    + host_version,
            ),
        ),
        consumer_problem_of(Err(e), false, plugin_type) == Some(
            (
                PluginErrorKind::InvalidConfig,
                "invalid compat.relay version requirement: "@ + e,
            ),
        ),
        consumer_problem_of(Ok(clauses), false, plugin_type) is None,
        consumer_problem_of(Ok(clauses), true, plugin_type) == Some(
            (
                PluginErrorKind::InvalidConfig,
                "dynamic plugin '"@ + plugin_type
                    + "' registers an LLM request intercept and must declare compat.relay = \">=0.6,<1.0\" or another range that excludes Relay 0.5"@,
            ),
        ),
{
}

} // verus!
