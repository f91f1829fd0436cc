//! Start and stop of worker processes.

use vstd::prelude::*;
use vstd::utf8::encode_utf8;

use crate::digest::{hex_text, sha256_hex, sha256_of};
use crate::dynamic::record::WorkerRuntime;
use crate::dynamic::teardown::DynamicPluginTeardownOutcome;
use crate::error::{error_text, failure, invalid, ErrorView, PluginError, PluginErrorKind};
use crate::paths::{
    ends_with, in_directory, in_root, is_absolute_for, join_for, joins, lemma_python,
    lemma_python_exe, occurs_in, path_file_name, path_parent, relative_text,
    resolve_manifest_relative_path, resolved_beside, unix_joined,
};
use crate::text::{
    self, after, bytes_of, concat2, concat3, concat4, concat5, has_prefix, opt_str, text_eq, trim,
    trimmed,
};

verus! {

/// How long a worker may take to start, in milliseconds.
pub const WORKER_STARTUP_TIMEOUT_MILLIS: u64 = 10_000;

/// How long one RPC to a worker may take, in milliseconds.
pub const WORKER_RPC_TIMEOUT_MILLIS: u64 = 30_000;

/// How long the host waits between two attempts to connect, in milliseconds.
pub const WORKER_CONNECT_RETRY_MILLIS: u64 = 25;

/// Name of the directory that holds managed Python environments.
pub const MANAGED_ENVIRONMENTS_DIR: &'static str = ".dynamic-plugin-environments";

/// Whether a teardown notes one more error, and whether unloading stays safe.
pub open spec fn noted(
    before: DynamicPluginTeardownOutcome,
    after: DynamicPluginTeardownOutcome,
    message: Seq<char>,
    safe: bool,
) -> bool {
    &&& after.errors@.len() == before.errors@.len() + 1
    &&& after.errors@.drop_last() == before.errors@
    &&& after.errors@.last()@ == message
    &&& after.safe_to_unload == (before.safe_to_unload && safe)
}

/// The text of an error of a worker's teardown.
pub open spec fn worker_text(plugin_kind: Seq<char>, what: Seq<char>, detail: Seq<char>) -> Seq<
    char,
> {
    "worker plugin '"@ + plugin_kind + "' "@ + what + detail
}

/// Notes an error of a worker's teardown.
fn note(
    outcome: &mut DynamicPluginTeardownOutcome,
    plugin_kind: &str,
    what: &str,
    detail: &str,
    safe: bool,
)
    ensures
        noted(
            *old(outcome),
            *final(outcome),
            worker_text(plugin_kind@, what@, detail@),
            safe,
        ),
{
    let message = concat5("worker plugin '", plugin_kind, "' ", what, detail);
    let ghost before = outcome.errors@;
    outcome.record_error(message, safe);
    assert(outcome.errors@.drop_last() =~= before);
}

/// Whether the teardown of a worker is to be run; it is run once.
pub fn begin_worker_teardown(teardown_started: &mut bool) -> (r: bool)
    ensures
        r == !*old(teardown_started),
        *final(teardown_started),
{
    let first = !*teardown_started;
    *teardown_started = true;
    first
}

/// What the shutdown RPC came to.
pub enum ShutdownRpc {
    /// The worker answered.
    Done,
    /// The call failed, with the reason.
    Failed(String),
    /// The call panicked, with the text of the panic.
    Panicked(String),
}

/// Notes what the shutdown RPC came to. A worker that does not answer is still stopped.
pub fn note_shutdown_rpc(
    outcome: &mut DynamicPluginTeardownOutcome,
    plugin_kind: &str,
    rpc: ShutdownRpc,
)
    ensures
        match rpc {
            ShutdownRpc::Done => *final(outcome) == *old(outcome),
            ShutdownRpc::Failed(e) => noted(
                *old(outcome),
                *final(outcome),
                worker_text(plugin_kind@, "shutdown RPC failed: "@, e@),
                true,
            ),
            ShutdownRpc::Panicked(p) => noted(
                *old(outcome),
                *final(outcome),
                worker_text(plugin_kind@, "shutdown RPC panicked: "@, p@),
                true,
            ),
        },
{
    match rpc {
        ShutdownRpc::Done => {},
        ShutdownRpc::Failed(e) => note(
            outcome,
            plugin_kind,
            "shutdown RPC failed: ",
            e.as_str(),
            true,
        ),
        ShutdownRpc::Panicked(p) => note(
            outcome,
            plugin_kind,
            "shutdown RPC panicked: ",
            p.as_str(),
            true,
        ),
    }
}

/// What telling the host runtime to stop came to.
pub enum HostStop {
    /// It was told, or had been told before.
    Told,
    /// Nobody listens any more.
    Closed,
    /// The lock is poisoned, with the reason.
    Poisoned(String),
}

/// Notes what telling the host runtime to stop came to.
pub fn note_host_stop(
    outcome: &mut DynamicPluginTeardownOutcome,
    plugin_kind: &str,
    stop: HostStop,
)
    ensures
        match stop {
            HostStop::Told => *final(outcome) == *old(outcome),
            HostStop::Closed => noted(
                *old(outcome),
                *final(outcome),
                worker_text(plugin_kind@, "host runtime shutdown channel was closed"@, ""@),
                true,
            ),
            HostStop::Poisoned(e) => noted(
                *old(outcome),
                *final(outcome),
                worker_text(plugin_kind@, "host runtime shutdown lock poisoned: "@, e@),
                true,
            ),
        },
{
    match stop {
        HostStop::Told => {},
        HostStop::Closed => note(
            outcome,
            plugin_kind,
            "host runtime shutdown channel was closed",
            "",
            true,
        ),
        HostStop::Poisoned(e) => note(
            outcome,
            plugin_kind,
            "host runtime shutdown lock poisoned: ",
            e.as_str(),
            true,
        ),
    }
}

/// What is found of a worker's process.
pub enum ProcessStatus {
    /// There is none to stop.
    Absent,
    /// The lock is poisoned, with the reason.
    Poisoned(String),
    /// It exited.
    Exited,
    /// It runs.
    Running,
    /// Its status is unknown, with the reason.
    Unknown(String),
}

/// What to do next about a worker's process.
#[derive(Debug, Clone, Copy, PartialEq, Eq, Structural)]
pub enum ProcessStep {
    /// Nothing; the process is still held.
    Keep,
    /// Nothing; the process is gone and can be let go.
    Release,
    /// Kill it.
    Kill,
    /// Ask for its status again, as killing it failed.
    Recheck,
    /// Wait for it, as it was killed.
    Wait,
}

/// An error that a teardown notes, and whether unloading stays safe in spite of it.
pub type TeardownNote = (Seq<char>, bool);

/// Whether a teardown took in a note, where there is one.
pub open spec fn takes(
    before: DynamicPluginTeardownOutcome,
    after: DynamicPluginTeardownOutcome,
    note: Option<TeardownNote>,
) -> bool {
    match note {
        None => after == before,
        Some((message, safe)) => noted(before, after, message, safe),
    }
}

/// What to do about a process by its status, and what is noted. A process whose state is not
/// known may still call into the plugin, so nothing may be unloaded.
pub open spec fn status_step(plugin_kind: Seq<char>, status: ProcessStatus) -> (
    ProcessStep,
    Option<TeardownNote>,
) {
    match status {
        ProcessStatus::Absent => (ProcessStep::Keep, None),
        ProcessStatus::Exited => (ProcessStep::Release, None),
        ProcessStatus::Running => (ProcessStep::Kill, None),
        ProcessStatus::Poisoned(e) => (
            ProcessStep::Keep,
            Some((worker_text(plugin_kind, "process lock poisoned: "@, e@), false)),
        ),
        ProcessStatus::Unknown(e) => (
            ProcessStep::Keep,
            Some((worker_text(plugin_kind, "process status check failed: "@, e@), false)),
        ),
    }
}

/// What to do after killing a process failed, by whether it exited on its own.
pub open spec fn failed_kill_step(plugin_kind: Seq<char>, kill_error: Seq<char>, exited: bool) -> (
    ProcessStep,
    Option<TeardownNote>,
) {
    if exited {
        (
            ProcessStep::Release,
            Some((worker_text(plugin_kind, "process kill failed after exit: "@, kill_error), true)),
        )
    } else {
        (
            ProcessStep::Keep,
            Some((worker_text(plugin_kind, "process kill failed: "@, kill_error), false)),
        )
    }
}

/// What to do after waiting for a killed process.
pub open spec fn wait_step(plugin_kind: Seq<char>, waited: Result<(), Seq<char>>) -> (
    ProcessStep,
    Option<TeardownNote>,
) {
    match waited {
        Ok(()) => (ProcessStep::Release, None),
        Err(e) => (
            ProcessStep::Keep,
            Some((worker_text(plugin_kind, "process wait failed after kill: "@, e), false)),
        ),
    }
}

/// Decides what to do about a process by its status.
pub fn after_process_status(
    outcome: &mut DynamicPluginTeardownOutcome,
    plugin_kind: &str,
    status: ProcessStatus,
) -> (r: ProcessStep)
    ensures
        r == status_step(plugin_kind@, status).0,
        takes(*old(outcome), *final(outcome), status_step(plugin_kind@, status).1),
{
    match status {
        ProcessStatus::Absent => ProcessStep::Keep,
        ProcessStatus::Exited => ProcessStep::Release,
        ProcessStatus::Running => ProcessStep::Kill,
        ProcessStatus::Poisoned(e) => {
            note(outcome, plugin_kind, "process lock poisoned: ", e.as_str(), false);
            ProcessStep::Keep
        },
        ProcessStatus::Unknown(e) => {
            note(outcome, plugin_kind, "process status check failed: ", e.as_str(), false);
            ProcessStep::Keep
        },
    }
}

/// What follows an attempt to kill a process.
pub open spec fn kill_step(killed: bool) -> ProcessStep {
    if killed {
        ProcessStep::Wait
    } else {
        ProcessStep::Recheck
    }
}

/// Decides what follows an attempt to kill a process.
pub fn after_kill(killed: bool) -> (r: ProcessStep)
    ensures
        r == kill_step(killed),
{
    if killed {
        ProcessStep::Wait
    } else {
        ProcessStep::Recheck
    }
}

/// Notes that killing a process failed, and decides by whether it exited on its own.
pub fn after_failed_kill(
    outcome: &mut DynamicPluginTeardownOutcome,
    plugin_kind: &str,
    kill_error: &str,
    exited: bool,
) -> (r: ProcessStep)
    ensures
        r == failed_kill_step(plugin_kind@, kill_error@, exited).0,
        takes(
            *old(outcome),
            *final(outcome),
            failed_kill_step(plugin_kind@, kill_error@, exited).1,
        ),
{
    if exited {
        note(outcome, plugin_kind, "process kill failed after exit: ", kill_error, true);
        ProcessStep::Release
    } else {
        note(outcome, plugin_kind, "process kill failed: ", kill_error, false);
        ProcessStep::Keep
    }
}

/// Notes what waiting for a killed process came to.
pub fn after_wait(
    outcome: &mut DynamicPluginTeardownOutcome,
    plugin_kind: &str,
    waited: Result<(), String>,
) -> (r: ProcessStep)
    ensures
        ({
            let (step, note) = wait_step(
                plugin_kind@,
                match waited {
                    Ok(()) => Ok(()),
                    Err(e) => Err(e@),
                },
            );
            r == step && takes(*old(outcome), *final(outcome), note)
        }),
{
    match waited {
        Ok(()) => ProcessStep::Release,
        Err(e) => {
            note(outcome, plugin_kind, "process wait failed after kill: ", e.as_str(), false);
            ProcessStep::Keep
        },
    }
}

/// Where stopping a process ends, and whether unloading stays safe: its status, and the
/// answers to whatever that calls for.
pub open spec fn stopped(
    plugin_kind: Seq<char>,
    status: ProcessStatus,
    kill: Result<(), Seq<char>>,
    exited: bool,
    waited: Result<(), Seq<char>>,
) -> (ProcessStep, bool) {
    let safe = |note: Option<TeardownNote>| note is None || (note->0).1;
    let (step, note) = status_step(plugin_kind, status);
    if step != ProcessStep::Kill {
        (step, safe(note))
    } else if kill_step(kill is Ok) == ProcessStep::Wait {
        let (end, wait_note) = wait_step(plugin_kind, waited);
        (end, safe(wait_note))
    } else {
        let (end, kill_note) = failed_kill_step(plugin_kind, kill->Err_0, exited);
        (end, safe(kill_note))
    }
}

/// Unloading stays safe after a stop exactly where no process is left: there was none, or it
/// is known to be gone and let go.
pub proof fn law_unload_is_safe_only_without_process(
    plugin_kind: Seq<char>,
    status: ProcessStatus,
    kill: Result<(), Seq<char>>,
    exited: bool,
    waited: Result<(), Seq<char>>,
)
    ensures
        ({
            let (end, safe) = stopped(plugin_kind, status, kill, exited, waited);
            &&& end == ProcessStep::Keep || end == ProcessStep::Release
            &&& safe == (end == ProcessStep::Release || status is Absent)
        }),
{
}

/// Whether the activation directory may be removed: only once nothing of the worker can run.
pub fn may_remove_directory(outcome: &DynamicPluginTeardownOutcome) -> (r: bool)
    ensures
        r == outcome.safe_to_unload,
{
    outcome.safe_to_unload
}

/// Notes what removing the activation directory came to; a directory that is gone already is
/// no error.
pub fn note_directory_removal(
    outcome: &mut DynamicPluginTeardownOutcome,
    plugin_kind: &str,
    directory: &str,
    error: Option<String>,
)
    ensures
        match error {
            None => *final(outcome) == *old(outcome),
            Some(e) => noted(
                *old(outcome),
                *final(outcome),
                worker_text(
                    plugin_kind@,
                    "activation directory cleanup failed for '"@,
                    directory@ + "': "@ + e@,
                ),
                true,
            ),
        },
{
    match error {
        None => {},
        Some(e) => {
            let detail = concat3(directory, "': ", e.as_str());
            note(
                outcome,
                plugin_kind,
                "activation directory cleanup failed for '",
                detail.as_str(),
                true,
            )
        },
    }
}

/// What an attempt to reach a worker came to.
pub enum ConnectAttempt {
    /// It has not announced where it listens.
    NotAnnounced,
    /// What it announced cannot be used.
    BadEndpoint(PluginError),
    /// The connection is up.
    Connected,
    /// The connection failed.
    Failed(PluginError),
}

/// What follows an attempt to reach a worker.
pub enum ConnectStep {
    /// Try again after a pause.
    Retry,
    /// Go on with the connection.
    Proceed,
    /// Give up.
    GiveUp(PluginError),
}

/// The error of giving a worker up after an attempt, where it is given up. `elapsed_millis`
/// is the time since the start.
pub open spec fn connect_problem(elapsed_millis: u64, attempt: ConnectAttempt) -> Option<ErrorView> {
    match attempt {
        ConnectAttempt::Connected => None,
        ConnectAttempt::BadEndpoint(e) => Some(e@),
        ConnectAttempt::NotAnnounced => if elapsed_millis < WORKER_STARTUP_TIMEOUT_MILLIS {
            None
        } else {
            Some(
                (
                    PluginErrorKind::RegistrationFailed,
                    "worker did not announce endpoint within 10s"@,
                ),
            )
        },
        ConnectAttempt::Failed(e) => if elapsed_millis < WORKER_STARTUP_TIMEOUT_MILLIS {
            None
        } else {
            Some(
                (
                    PluginErrorKind::RegistrationFailed,
                    "worker did not start within 10s: "@ + error_text(e@),
                ),
            )
        },
    }
}

/// Decides what follows an attempt to reach a worker.
pub fn connect_step(elapsed_millis: u64, attempt: ConnectAttempt) -> (r: ConnectStep)
    ensures
        match connect_problem(elapsed_millis, attempt) {
            Some(e) => r matches ConnectStep::GiveUp(given) && given@ == e,
            None => if attempt is Connected {
                r is Proceed
            } else {
                r is Retry
            },
        },
{
    match attempt {
        ConnectAttempt::Connected => ConnectStep::Proceed,
        ConnectAttempt::BadEndpoint(e) => ConnectStep::GiveUp(e),
        ConnectAttempt::NotAnnounced => if elapsed_millis < WORKER_STARTUP_TIMEOUT_MILLIS {
            ConnectStep::Retry
        } else {
            ConnectStep::GiveUp(
                PluginError::RegistrationFailed(
                    "worker did not announce endpoint within 10s".to_owned(),
                ),
            )
        },
        ConnectAttempt::Failed(e) => if elapsed_millis < WORKER_STARTUP_TIMEOUT_MILLIS {
            ConnectStep::Retry
        } else {
            let shown = e.to_text();
            ConnectStep::GiveUp(
                PluginError::RegistrationFailed(
                    concat2("worker did not start within 10s: ", shown.as_str()),
                ),
            )
        },
    }
}

/// Once the startup time is over, a worker that is not connected is given up.
pub proof fn law_startup_is_bounded(elapsed_millis: u64, attempt: ConnectAttempt)
    requires
        elapsed_millis >= WORKER_STARTUP_TIMEOUT_MILLIS,
    ensures
        connect_problem(elapsed_millis, attempt) is Some || attempt is Connected,
{
}

/// Where an announced TCP endpoint is reached, or why it cannot be.
pub open spec fn tcp_endpoint(announced: Seq<char>) -> Result<Seq<char>, ErrorView> {
    let endpoint = trimmed(announced);
    if has_prefix(endpoint, "tcp://"@) {
        let authority = after(endpoint, "tcp://"@.len());
        if authority.len() == 0 {
            Err((PluginErrorKind::RegistrationFailed, "worker announced an empty TCP endpoint"@))
        } else {
            Ok("http://"@ + authority)
        }
    } else if has_prefix(endpoint, "http://"@) {
        Ok(endpoint)
    } else {
        Err(
            (
                PluginErrorKind::RegistrationFailed,
                "worker announced unsupported endpoint '"@ + endpoint + "'"@,
            ),
        )
    }
}

/// Turns an announced TCP endpoint into the one to connect to.
pub fn normalize_worker_tcp_endpoint(endpoint: &str) -> (r: Result<String, PluginError>)
    ensures
        match r {
            Ok(text) => tcp_endpoint(endpoint@) == Ok::<Seq<char>, ErrorView>(text@),
            Err(e) => tcp_endpoint(endpoint@) == Err::<Seq<char>, ErrorView>(e@),
        },
{
    let endpoint = trim(endpoint);
    if let Some(authority) = text::strip_prefix(endpoint, "tcp://") {
        if authority.is_empty() {
            return Err(
                PluginError::RegistrationFailed(
                    "worker announced an empty TCP endpoint".to_owned(),
                ),
            );
        }
        return Ok(concat2("http://", authority));
    }
    if text::starts_with(endpoint, "http://") {
        return Ok(endpoint.to_owned());
    }
    Err(
        PluginError::RegistrationFailed(
            concat3("worker announced unsupported endpoint '", endpoint, "'"),
        ),
    )
}

/// What an announcement file says: nothing yet, an endpoint, or why it says nothing usable.
/// `contents` is nothing where there is no file.
pub open spec fn announced_endpoint(
    path: Seq<char>,
    contents: Option<Result<Seq<char>, Seq<char>>>,
) -> Result<Option<Seq<char>>, ErrorView> {
    match contents {
        None => Ok(None),
        Some(Err(e)) => Err(
            (
                PluginErrorKind::RegistrationFailed,
                "failed to read worker endpoint file '"@ + path + "': "@ + e,
            ),
        ),
        Some(Ok(text)) => if trimmed(text).len() == 0 {
            Ok(None)
        } else {
            match tcp_endpoint(trimmed(text)) {
                Ok(endpoint) => Ok(Some(endpoint)),
                Err(e) => Err(e),
            }
        },
    }
}

/// Reads an announcement file. An empty one counts as missing, as the worker may be about to
/// write it.
pub fn resolve_announced_endpoint(path: &str, contents: Option<Result<String, String>>) -> (r:
    Result<Option<String>, PluginError>)
    ensures
        ({
            let expected = announced_endpoint(
                path@,
                match contents {
                    None => None,
                    Some(Ok(text)) => Some(Ok(text@)),
                    Some(Err(e)) => Some(Err(e@)),
                },
            );
            match r {
                Ok(endpoint) => expected == Ok::<Option<Seq<char>>, ErrorView>(
                    text::opt_text(endpoint),
                ),
                Err(e) => expected == Err::<Option<Seq<char>>, ErrorView>(e@),
            }
        }),
{
    match contents {
        None => Ok(None),
        Some(Err(e)) => Err(
            PluginError::RegistrationFailed(
                concat4("failed to read worker endpoint file '", path, "': ", e.as_str()),
            ),
        ),
        Some(Ok(text)) => {
            let endpoint = trim(text.as_str());
            if endpoint.is_empty() {
                return Ok(None);
            }
            match normalize_worker_tcp_endpoint(endpoint) {
                Ok(endpoint) => Ok(Some(endpoint)),
                Err(e) => Err(e),
            }
        },
    }
}

/// How a Unix socket is written as an endpoint.
pub fn unix_endpoint_display(path: &str) -> (r: String)
    ensures
        r@ == "unix://"@ + path@,
{
    concat2("unix://", path)
}

/// Identities of one worker activation.
pub struct WorkerIdentity {
    /// Identity of the activation.
    pub activation_id: String,
    /// Token that worker and host show each other.
    pub auth_token: String,
    /// Name of the activation directory.
    pub directory: String,
}

/// Whether a character is a lower-case hexadecimal digit.
pub open spec fn lower_hex_digit(c: char) -> bool {
    '0' <= c <= '9' || 'a' <= c <= 'f'
}

/// Whether a text is an identity in groups of 8, 4, 4, 4 and 12 hexadecimal digits.
pub open spec fn hyphenated(s: Seq<char>) -> bool {
    &&& s.len() == 36
    &&& forall|i: int|
        0 <= i < 36 ==> if i == 8 || i == 13 || i == 18 || i == 23 {
            #[trigger] s[i] == '-'
        } else {
            lower_hex_digit(s[i])
        }
}

/// The digits of a hyphenated identity.
pub open spec fn without_hyphens(s: Seq<char>) -> Seq<char> {
    s.subrange(0, 8) + s.subrange(9, 13) + s.subrange(14, 18) + s.subrange(19, 23) + s.subrange(
        24,
        36,
    )
}

/// Whether a text is an identity of 32 hexadecimal digits.
pub open spec fn unhyphenated(s: Seq<char>) -> bool {
    s.len() == 32 && forall|i: int| 0 <= i < 32 ==> lower_hex_digit(#[trigger] s[i])
}

/// Whether a text is a hyphenated identity behind a prefix.
pub open spec fn prefixed_identity(prefix: Seq<char>, s: Seq<char>) -> bool {
    has_prefix(s, prefix) && hyphenated(after(s, prefix.len()))
}

/// The digits of a hyphenated identity are an identity without hyphens.
proof fn lemma_digits_of_identity(s: Seq<char>)
    requires
        hyphenated(s),
    ensures
        unhyphenated(without_hyphens(s)),
{
    let digits = without_hyphens(s);
    assert forall|i: int| 0 <= i < 32 implies lower_hex_digit(#[trigger] digits[i]) by {
        let at = if i < 8 {
            i
        } else if i < 12 {
            i + 1
        } else if i < 16 {
            i + 2
        } else if i < 20 {
            i + 3
        } else {
            i + 4
        };
        assert(digits[i] == s[at]);
    }
}

/// A new identity of `uuid::Uuid::now_v7`, as `uuid::Uuid` shows it and as its simple form
/// does: lower-case hexadecimal digits, with and without hyphens. Which digits they are rests
/// on the time and on chance.
#[verifier::external_body]
pub(crate) fn fresh_uuid() -> (r: (String, String))
    ensures
        hyphenated(r.0@),
        r.1@ == without_hyphens(r.0@),
{
    let id = uuid::Uuid::now_v7();
    (id.to_string(), id.simple().to_string())
}

/// A fresh identity behind a prefix.
pub(crate) fn fresh_prefixed(prefix: &str) -> (r: String)
    ensures
        prefixed_identity(prefix@, r@),
{
    let (uuid, _) = fresh_uuid();
    let id = concat2(prefix, uuid.as_str());
    assert(id@.subrange(0, prefix@.len() as int) =~= prefix@);
    assert(after(id@, prefix@.len()) =~= uuid@);
    id
}

/// The identities of an activation, made of two fresh ones.
pub fn worker_identity(activation_id: String, simple: &str, auth_token: String) -> (r:
    WorkerIdentity)
    ensures
        r.activation_id == activation_id,
        r.auth_token == auth_token,
        r.directory@ == "nmrw-"@ + simple@,
{
    WorkerIdentity { activation_id, auth_token, directory: concat2("nmrw-", simple) }
}

/// Fresh identities for an activation. The directory is named after the activation.
pub fn new_worker_identity() -> (r: WorkerIdentity)
    ensures
        hyphenated(r.activation_id@),
        hyphenated(r.auth_token@),
        r.directory@ == "nmrw-"@ + without_hyphens(r.activation_id@),
        unhyphenated(without_hyphens(r.activation_id@)),
{
    let (activation_id, simple) = fresh_uuid();
    let (auth_token, _) = fresh_uuid();
    proof {
        lemma_digits_of_identity(activation_id@);
    }
    worker_identity(activation_id, simple.as_str(), auth_token)
}

/// The directory name of a plugin's managed Python environment.
pub open spec fn environment_name(plugin_id: Seq<char>) -> Seq<char> {
    hex_text(sha256_of(encode_utf8(plugin_id)))
}

/// The problem of a Python environment: it is not named, does not lie where the host manages
/// the plugin's environment, or is a link to somewhere else.
pub open spec fn environment_problem(
    plugin_id: Seq<char>,
    environment: Seq<char>,
    absolute: bool,
    name: Option<Seq<char>>,
    parent_name: Option<Seq<char>>,
    is_symlink: bool,
) -> Option<ErrorView> {
    if !(absolute && name == Some(environment_name(plugin_id)) && parent_name == Some(
        MANAGED_ENVIRONMENTS_DIR@,
    )) {
        invalid(
            "Python worker environment_ref '"@ + environment
                + "' is not the lifecycle-managed path for plugin '"@ + plugin_id + "'"@,
        )
    } else if is_symlink {
        invalid(
            "Python worker environment_ref '"@ + environment + "' must not be a symbolic link"@,
        )
    } else {
        None
    }
}

/// Checks a Python environment, given how its path is made up.
pub fn check_python_environment(
    plugin_id: &str,
    environment: &str,
    absolute: bool,
    name: Option<&str>,
    parent_name: Option<&str>,
    is_symlink: bool,
) -> (r: Result<(), PluginError>)
    ensures
        failure(r) == environment_problem(
            plugin_id@,
            environment@,
            absolute,
            opt_str(name),
            opt_str(parent_name),
            is_symlink,
        ),
{
    let expected = sha256_hex(&bytes_of(plugin_id));
    let name_matches = match name {
        Some(name) => text_eq(name, expected.as_str()),
        None => false,
    };
    let parent_matches = match parent_name {
        Some(name) => text_eq(name, MANAGED_ENVIRONMENTS_DIR),
        None => false,
    };
    if !(absolute && name_matches && parent_matches) {
        return Err(
            PluginError::InvalidConfig(
                concat5(
                    "Python worker environment_ref '",
                    environment,
                    "' is not the lifecycle-managed path for plugin '",
                    plugin_id,
                    "'",
                ),
            ),
        );
    }
    if is_symlink {
        return Err(
            PluginError::InvalidConfig(
                concat3(
                    "Python worker environment_ref '",
                    environment,
                    "' must not be a symbolic link",
                ),
            ),
        );
    }
    Ok(())
}

/// The text of the error of a Python worker without an environment.
pub open spec fn environment_missing_text() -> Seq<char> {
    "Python worker activation requires a lifecycle-managed environment_ref; run `nemo-relay plugins add <path>`"@
}

/// Where the interpreter of a Python environment lies: its directory, and its name there.
pub fn python_layout(windows: bool) -> (r: (&'static str, &'static str))
    ensures
        r.0@ == layout_directory(windows),
        r.1@ == layout_interpreter(windows),
{
    if windows {
        ("Scripts", "python.exe")
    } else {
        ("bin", "python")
    }
}

/// The directory of a Python environment that holds its programs.
pub open spec fn layout_directory(windows: bool) -> Seq<char> {
    if windows {
        "Scripts"@
    } else {
        "bin"@
    }
}

/// The name of a Python environment's interpreter.
pub open spec fn layout_interpreter(windows: bool) -> Seq<char> {
    if windows {
        "python.exe"@
    } else {
        "python"@
    }
}

/// The interpreter of a Python environment, given how the environment's path is made up and
/// where the interpreter lies in it.
pub fn python_executable(
    plugin_id: &str,
    environment: &str,
    absolute: bool,
    name: Option<&str>,
    parent_name: Option<&str>,
    is_symlink: bool,
    joined: String,
) -> (r: Result<String, PluginError>)
    ensures
        failure(r) == environment_problem(
            plugin_id@,
            environment@,
            absolute,
            opt_str(name),
            opt_str(parent_name),
            is_symlink,
        ),
        r matches Ok(path) ==> path@ == joined@,
{
    match check_python_environment(
        plugin_id,
        environment,
        absolute,
        name,
        parent_name,
        is_symlink,
    ) {
        Ok(()) => Ok(joined),
        Err(e) => Err(e),
    }
}

/// Whether a path is made of a parent path, whose last component is given, and a name in it.
pub open spec fn made_of(
    path: Seq<char>,
    above: Seq<char>,
    parent: Seq<char>,
    name: Seq<char>,
) -> bool {
    &&& in_directory(path, above, name)
    &&& in_root(above, parent) || exists|dir: Seq<char>| #[trigger] in_directory(above, dir, parent)
}

/// Whether a platform may say of an environment's path that it is absolute or not, and that it
/// and its parent are called so.
pub open spec fn path_facts(
    windows: bool,
    environment: Seq<char>,
    absolute: bool,
    name: Option<Seq<char>>,
    parent_name: Option<Seq<char>>,
) -> bool {
    &&& if windows {
        environment.len() == 0 || relative_text(environment) ==> !absolute
    } else {
        absolute == (environment.len() > 0 && environment[0] == '/')
    }
    &&& name matches Some(n) ==> occurs_in(n, environment)
    &&& parent_name matches Some(p) ==> occurs_in(p, environment)
    &&& forall|above: Seq<char>, p: Seq<char>, n: Seq<char>| #[trigger]
        made_of(environment, above, p, n) ==> name == Some(n) && parent_name == Some(p)
}

/// Whether a path is that of the interpreter of an environment.
pub open spec fn is_interpreter(windows: bool, environment: Seq<char>, path: Seq<char>) -> bool {
    if windows {
        &&& ends_with(path, layout_interpreter(true))
        &&& exists|directory: Seq<char>| #[trigger]
            joins(environment, layout_directory(true), directory) && joins(
                directory,
                layout_interpreter(true),
                path,
            )
    } else {
        path == unix_joined(unix_joined(environment, "bin"@), "python"@)
    }
}

/// Whether a result is one that resolving an environment's interpreter can have: it is that of
/// the environment's problem by what the platform says of its path.
pub open spec fn interpreter_resolved(
    plugin_id: Seq<char>,
    environment: Seq<char>,
    is_symlink: bool,
    windows: bool,
    r: Result<String, PluginError>,
) -> bool {
    &&& exists|absolute: bool, name: Option<Seq<char>>, parent_name: Option<Seq<char>>|
        failure(r) == #[trigger] environment_problem(
            plugin_id,
            environment,
            absolute,
            name,
            parent_name,
            is_symlink,
        ) && path_facts(windows, environment, absolute, name, parent_name)
    &&& r matches Ok(path) ==> is_interpreter(windows, environment, path@)
}

/// Where absolute paths begin with `/`, an environment that is no symbolic link is accepted
/// where it lies in the managed directory under the plugin's name, and one that lies elsewhere
/// or under another name is refused.
pub proof fn law_only_managed_environments_are_accepted(
    plugin_id: Seq<char>,
    environment: Seq<char>,
    above: Seq<char>,
    parent: Seq<char>,
    name: Seq<char>,
    r: Result<String, PluginError>,
)
    requires
        made_of(environment, above, parent, name),
        interpreter_resolved(plugin_id, environment, false, false, r),
    ensures
        r is Ok <==> environment[0] == '/' && parent == MANAGED_ENVIRONMENTS_DIR@ && name
            == environment_name(plugin_id),
        r matches Ok(path) ==> path@ == environment + "/bin/python"@,
{
    assert(environment.last() == name.last());
    assert(name.contains(name[name.len() - 1]));
    lemma_interpreter_text(environment);
    let (absolute, found, found_parent) = choose|
        absolute: bool,
        found: Option<Seq<char>>,
        found_parent: Option<Seq<char>>,
    |
        failure(r) == #[trigger] environment_problem(
            plugin_id,
            environment,
            absolute,
            found,
            found_parent,
            false,
        ) && path_facts(false, environment, absolute, found, found_parent);
    assert(found == Some(name) && found_parent == Some(parent));
}

/// The interpreter of an environment as one text.
proof fn lemma_interpreter_text(environment: Seq<char>)
    requires
        environment.len() > 0,
        environment.last() != '/',
    ensures
        unix_joined(unix_joined(environment, "bin"@), "python"@) == environment + "/bin/python"@,
{
    reveal_strlit("/");
    reveal_strlit("bin");
    reveal_strlit("python");
    reveal_strlit("/bin/python");
    let bin = environment + "/"@ + "bin"@;
    assert(bin.last() == "bin"@[2]);
    assert(bin + "/"@ + "python"@ =~= environment + "/bin/python"@);
}

/// Where the interpreter of a plugin's managed Python environment lies. `is_symlink` says
/// whether the environment is a symbolic link, `windows` which platform it is laid out for.
pub fn resolve_python_executable(
    plugin_id: &str,
    environment_ref: Option<&str>,
    is_symlink: bool,
    windows: bool,
) -> (r: Result<String, PluginError>)
    ensures
        match environment_ref {
            None => failure(r) == invalid(environment_missing_text()),
            Some(environment) => interpreter_resolved(
                plugin_id@,
                environment@,
                is_symlink,
                windows,
                r,
            ),
        },
{
    let environment = match environment_ref {
        None => {
            return Err(
                PluginError::InvalidConfig(
                    "Python worker activation requires a lifecycle-managed environment_ref; run `nemo-relay plugins add <path>`".to_owned(),
                ),
            );
        },
        Some(environment) => environment,
    };
    let absolute = is_absolute_for(windows, environment);
    let name = path_file_name(environment);
    let parent_name = parent_file_name(environment);
    let name_ref: Option<&str> = match &name {
        Some(name) => Some(name.as_str()),
        None => None,
    };
    let parent_ref: Option<&str> = match &parent_name {
        Some(name) => Some(name.as_str()),
        None => None,
    };
    let (directory, interpreter) = python_layout(windows);
    let bin = join_for(windows, environment, directory);
    let joined = join_for(windows, bin.as_str(), interpreter);
    proof {
        lemma_python();
        lemma_python_exe();
    }
    let r = python_executable(
        plugin_id,
        environment,
        absolute,
        name_ref,
        parent_ref,
        is_symlink,
        joined,
    );
    assert(failure(r) == environment_problem(
        plugin_id@,
        environment@,
        absolute,
        opt_str(name_ref),
        opt_str(parent_ref),
        is_symlink,
    ));
    assert(path_facts(windows, environment@, absolute, opt_str(name_ref), opt_str(parent_ref)));
    assert(windows ==> joins(environment@, layout_directory(windows), bin@));
    r
}

/// The last component of a path's parent.
fn parent_file_name(path: &str) -> (r: Option<String>)
    ensures
        r matches Some(name) ==> occurs_in(name@, path@),
        forall|above: Seq<char>, parent: Seq<char>, name: Seq<char>| #[trigger]
            made_of(path@, above, parent, name) ==> r is Some && r->0@ == parent,
{
    match path_parent(path) {
        Some(parent) => {
            let r = path_file_name(parent.as_str());
            proof {
                if r is Some {
                    let name = r->0@;
                    let i = choose|i: int|
                        0 <= i <= parent@.len() - name.len() && #[trigger] parent@.subrange(
                            i,
                            i + name.len(),
                        ) == name;
                    assert(path@.subrange(0, parent@.len() as int).subrange(i, i + name.len())
                        =~= path@.subrange(i, i + name.len()));
                }
                assert forall|above: Seq<char>, p: Seq<char>, name: Seq<char>| #[trigger]
                    made_of(path@, above, p, name) implies r is Some && r->0@ == p by {
                    assert(in_directory(path@, above, name));
                    assert(parent@ == above);
                    if !in_root(above, p) {
                        let dir = choose|dir: Seq<char>| #[trigger] in_directory(above, dir, p);
                        assert(in_directory(parent@, dir, p));
                    } else {
                        assert(in_root(parent@, p));
                    }
                }
            }
            r
        },
        None => None,
    }
}

/// How a worker process is started.
pub struct WorkerLaunch {
    /// Program to run.
    pub program: String,
    /// Its arguments.
    pub arguments: Vec<String>,
    /// Variables of the host that the process does not see.
    pub removed_variables: Vec<String>,
    /// Variables that the process is given.
    pub variables: Vec<(String, String)>,
    /// How the worker is called in errors.
    pub display: String,
}

/// What a worker process is started for.
pub struct WorkerLaunchSpec<'a> {
    /// Runtime of the worker.
    pub runtime: WorkerRuntime,
    /// Plugin identity.
    pub plugin_id: &'a str,
    /// Declared entrypoint.
    pub entrypoint: &'a str,
    /// Identity of the activation.
    pub activation_id: &'a str,
    /// Token that worker and host show each other.
    pub auth_token: &'a str,
    /// Where the host listens.
    pub host_endpoint: &'a str,
    /// Where the worker is to listen.
    pub worker_endpoint: &'a str,
    /// Where the worker announces its endpoint.
    pub worker_endpoint_file: Option<&'a str>,
}

/// The variables that a worker process is given.
pub open spec fn launch_variables(spec: WorkerLaunchSpec) -> Seq<(Seq<char>, Seq<char>)> {
    let always = seq![
        ("NEMO_RELAY_WORKER_ID"@, spec.activation_id@),
        ("NEMO_RELAY_PLUGIN_ID"@, spec.plugin_id@),
        ("NEMO_RELAY_WORKER_SOCKET"@, spec.worker_endpoint@),
        ("NEMO_RELAY_HOST_SOCKET"@, spec.host_endpoint@),
        ("NEMO_RELAY_WORKER_TOKEN"@, spec.auth_token@),
    ];
    match spec.worker_endpoint_file {
        Some(path) => always.push(("NEMO_RELAY_WORKER_ENDPOINT_FILE"@, path@)),
        None => always,
    }
}

/// The texts of a list of variables.
pub open spec fn variable_texts(variables: Seq<(String, String)>) -> Seq<(Seq<char>, Seq<char>)> {
    Seq::new(variables.len(), |i: int| (variables[i].0@, variables[i].1@))
}

/// Whether a variable is set, and only to a value.
pub open spec fn is_set(
    variables: Seq<(Seq<char>, Seq<char>)>,
    name: Seq<char>,
    value: Seq<char>,
) -> bool {
    &&& exists|i: int| 0 <= i < variables.len() && (#[trigger] variables[i]).0 == name
    &&& forall|i: int|
        0 <= i < variables.len() && (#[trigger] variables[i]).0 == name ==> variables[i].1 == value
}

/// Whether the variables of a worker tell it what its launch says: who it is, which plugin it is,
/// where it listens, where the host does, and with which token they know each other.
pub open spec fn launches_as(
    variables: Seq<(Seq<char>, Seq<char>)>,
    spec: WorkerLaunchSpec,
) -> bool {
    &&& is_set(variables, "NEMO_RELAY_WORKER_ID"@, spec.activation_id@)
    &&& is_set(variables, "NEMO_RELAY_PLUGIN_ID"@, spec.plugin_id@)
    &&& is_set(variables, "NEMO_RELAY_WORKER_SOCKET"@, spec.worker_endpoint@)
    &&& is_set(variables, "NEMO_RELAY_HOST_SOCKET"@, spec.host_endpoint@)
    &&& is_set(variables, "NEMO_RELAY_WORKER_TOKEN"@, spec.auth_token@)
    &&& spec.worker_endpoint_file matches Some(path) ==> is_set(
        variables,
        "NEMO_RELAY_WORKER_ENDPOINT_FILE"@,
        path@,
    )
    &&& spec.worker_endpoint_file is None ==> forall|i: int|
        0 <= i < variables.len() ==> (#[trigger] variables[i]).0
            != "NEMO_RELAY_WORKER_ENDPOINT_FILE"@
}

/// In every launch the worker is told its own identity, plugin and endpoint, the endpoint of the
/// host and the token of the activation, each under the variable that it reads; the file to
/// announce an endpoint in is told where there is one.
pub proof fn law_workers_are_told_their_launch(
    spec: WorkerLaunchSpec,
    variables: Seq<(Seq<char>, Seq<char>)>,
)
    requires
        variables == launch_variables(spec),
    ensures
        is_set(variables, "NEMO_RELAY_WORKER_ID"@, spec.activation_id@),
        is_set(variables, "NEMO_RELAY_PLUGIN_ID"@, spec.plugin_id@),
        is_set(variables, "NEMO_RELAY_WORKER_SOCKET"@, spec.worker_endpoint@),
        is_set(variables, "NEMO_RELAY_HOST_SOCKET"@, spec.host_endpoint@),
        is_set(variables, "NEMO_RELAY_WORKER_TOKEN"@, spec.auth_token@),
        spec.worker_endpoint_file matches Some(path) ==> is_set(
            variables,
            "NEMO_RELAY_WORKER_ENDPOINT_FILE"@,
            path@,
        ),
        spec.worker_endpoint_file is None ==> forall|i: int|
            0 <= i < variables.len() ==> (#[trigger] variables[i]).0
                != "NEMO_RELAY_WORKER_ENDPOINT_FILE"@,
        launches_as(variables, spec),
{
    reveal_strlit("NEMO_RELAY_WORKER_ID");
    reveal_strlit("NEMO_RELAY_PLUGIN_ID");
    reveal_strlit("NEMO_RELAY_WORKER_SOCKET");
    reveal_strlit("NEMO_RELAY_HOST_SOCKET");
    reveal_strlit("NEMO_RELAY_WORKER_TOKEN");
    reveal_strlit("NEMO_RELAY_WORKER_ENDPOINT_FILE");
    assert("NEMO_RELAY_WORKER_ID"@[11] != "NEMO_RELAY_PLUGIN_ID"@[11]);
    assert("NEMO_RELAY_WORKER_ID"@.len() == 20 && "NEMO_RELAY_PLUGIN_ID"@.len() == 20);
    assert("NEMO_RELAY_WORKER_SOCKET"@.len() == 24 && "NEMO_RELAY_HOST_SOCKET"@.len() == 22);
    assert("NEMO_RELAY_WORKER_TOKEN"@.len() == 23);
    assert("NEMO_RELAY_WORKER_ENDPOINT_FILE"@.len() == 31);
    assert(variables[0].0 == "NEMO_RELAY_WORKER_ID"@);
    assert(variables[1].0 == "NEMO_RELAY_PLUGIN_ID"@);
    assert(variables[2].0 == "NEMO_RELAY_WORKER_SOCKET"@);
    assert(variables[3].0 == "NEMO_RELAY_HOST_SOCKET"@);
    assert(variables[4].0 == "NEMO_RELAY_WORKER_TOKEN"@);
    if spec.worker_endpoint_file is Some {
        assert(variables[5].0 == "NEMO_RELAY_WORKER_ENDPOINT_FILE"@);
    }
}

/// The variables that a worker process is given.
fn worker_variables(spec: &WorkerLaunchSpec) -> (r: Vec<(String, String)>)
    ensures
        variable_texts(r@) == launch_variables(*spec),
        launches_as(variable_texts(r@), *spec),
{
    let mut variables: Vec<(String, String)> = Vec::new();
    variables.push(("NEMO_RELAY_WORKER_ID".to_owned(), spec.activation_id.to_owned()));
    variables.push(("NEMO_RELAY_PLUGIN_ID".to_owned(), spec.plugin_id.to_owned()));
    variables.push(("NEMO_RELAY_WORKER_SOCKET".to_owned(), spec.worker_endpoint.to_owned()));
    variables.push(("NEMO_RELAY_HOST_SOCKET".to_owned(), spec.host_endpoint.to_owned()));
    variables.push(("NEMO_RELAY_WORKER_TOKEN".to_owned(), spec.auth_token.to_owned()));
    if let Some(path) = spec.worker_endpoint_file {
        variables.push(("NEMO_RELAY_WORKER_ENDPOINT_FILE".to_owned(), path.to_owned()));
    }
    assert(variable_texts(variables@) =~= launch_variables(*spec));
    proof {
        law_workers_are_told_their_launch(*spec, variable_texts(variables@));
    }
    variables
}

/// Starts a worker with its Python interpreter: a bootstrap script that calls the entrypoint,
/// without the host's Python variables. `interpreter_exists` says whether the interpreter is
/// a file.
pub fn plan_python_launch(
    spec: &WorkerLaunchSpec,
    interpreter: &str,
    interpreter_exists: bool,
    bootstrap: &str,
) -> (r: Result<WorkerLaunch, PluginError>)
    ensures
        failure(r) == (if interpreter_exists {
            None
        } else {
            Some(
                (
                    PluginErrorKind::RegistrationFailed,
                    "configured Python worker environment interpreter '"@ + interpreter@
                        + "' does not exist"@,
                ),
            )
        }),
        r matches Ok(launch) ==> launch.program@ == interpreter@ && text::texts(launch.arguments@)
            == seq!["-c"@, bootstrap@, spec.entrypoint@] && text::texts(launch.removed_variables@)
            == seq!["PYTHONHOME"@, "PYTHONPATH"@, "VIRTUAL_ENV"@] && variable_texts(
            launch.variables@,
        ) == launch_variables(*spec) && launch.display@ == spec.entrypoint@ && launches_as(
            variable_texts(launch.variables@),
            *spec,
        ),
{
    if !interpreter_exists {
        return Err(
            PluginError::RegistrationFailed(
                concat3(
                    "configured Python worker environment interpreter '",
                    interpreter,
                    "' does not exist",
                ),
            ),
        );
    }
    let mut arguments: Vec<String> = Vec::new();
    arguments.push("-c".to_owned());
    arguments.push(bootstrap.to_owned());
    arguments.push(spec.entrypoint.to_owned());
    assert(text::texts(arguments@) =~= seq!["-c"@, bootstrap@, spec.entrypoint@]);
    let mut removed_variables: Vec<String> = Vec::new();
    removed_variables.push("PYTHONHOME".to_owned());
    removed_variables.push("PYTHONPATH".to_owned());
    removed_variables.push("VIRTUAL_ENV".to_owned());
    assert(text::texts(removed_variables@) =~= seq!["PYTHONHOME"@, "PYTHONPATH"@, "VIRTUAL_ENV"@]);
    Ok(
        WorkerLaunch {
            program: interpreter.to_owned(),
            arguments,
            removed_variables,
            variables: worker_variables(spec),
            display: spec.entrypoint.to_owned(),
        },
    )
}

/// Starts a worker that is an executable of its own, at the given place.
pub fn plan_executable_launch(spec: &WorkerLaunchSpec, executable: &str) -> (r: WorkerLaunch)
    ensures
        r.program@ == executable@,
        r.arguments@.len() == 0,
        r.removed_variables@.len() == 0,
        variable_texts(r.variables@) == launch_variables(*spec),
        launches_as(variable_texts(r.variables@), *spec),
        r.display@ == executable@,
{
    WorkerLaunch {
        program: executable.to_owned(),
        arguments: Vec::new(),
        removed_variables: Vec::new(),
        variables: worker_variables(spec),
        display: executable.to_owned(),
    }
}

/// Where a worker executable that a manifest declares lies.
pub fn worker_executable_path(manifest_path: &str, entrypoint: &str) -> (r: String)
    ensures
        resolved_beside(manifest_path@, entrypoint@, r@),
{
    resolve_manifest_relative_path(manifest_path, entrypoint)
}

/// The error of a worker process that could not be started.
pub fn spawn_error(runtime: WorkerRuntime, display: &str, detail: &str) -> (r: PluginError)
    ensures
        r@ == (
            PluginErrorKind::RegistrationFailed,
            "failed to spawn "@ + runtime.label() + " worker '"@ + display@ + "': "@ + detail@,
        ),
{
    let start = concat5("failed to spawn ", runtime.as_str(), " worker '", display, "': ");
    PluginError::RegistrationFailed(concat2(start.as_str(), detail))
}

/// How a worker's process is stopped, step by step: one that is gone is let go, a running one is
/// killed and waited for, and one that cannot be killed is looked at again. A process that may still
/// run is kept and unloading is not safe.
pub proof fn law_processes_are_stopped(
    plugin_kind: Seq<char>,
    e: String,
    kill_error: Seq<char>,
    waited: Result<(), Seq<char>>,
)
    ensures
        status_step(plugin_kind, ProcessStatus::Absent) == (
            ProcessStep::Keep,
            None::<TeardownNote>,
        ),
        status_step(plugin_kind, ProcessStatus::Exited) == (
            ProcessStep::Release,
            None::<TeardownNote>,
        ),
        status_step(plugin_kind, ProcessStatus::Running) == (
            ProcessStep::Kill,
            None::<TeardownNote>,
        ),
        status_step(plugin_kind, ProcessStatus::Poisoned(e)).0 == ProcessStep::Keep,
        status_step(plugin_kind, ProcessStatus::Poisoned(e)).1 == Some(
            ("worker plugin '"@ + plugin_kind + "' "@ + "process lock poisoned: "@ + e@, false),
        ),
        status_step(plugin_kind, ProcessStatus::Unknown(e)).0 == ProcessStep::Keep,
        status_step(plugin_kind, ProcessStatus::Unknown(e)).1 == Some(
            (
                "worker plugin '"@ + plugin_kind + "' "@ + "process status check failed: "@ + e@,
                false,
            ),
        ),
        kill_step(true) == ProcessStep::Wait,
        kill_step(false) == ProcessStep::Recheck,
        failed_kill_step(plugin_kind, kill_error, true) == (
            ProcessStep::Release,
            Some(
                (
                    "worker plugin '"@ + plugin_kind + "' "@ + "process kill failed after exit: "@
                        + kill_error,
                    true,
                ),
            ),
        ),
        failed_kill_step(plugin_kind, kill_error, false) == (
            ProcessStep::Keep,
            Some(
                (
                    "worker plugin '"@ + plugin_kind + "' "@ + "process kill failed: "@ + kill_error,
                    false,
                ),
            ),
        ),
        waited is Ok ==> wait_step(plugin_kind, waited) == (
            ProcessStep::Release,
            None::<TeardownNote>,
        ),
        waited is Err ==> wait_step(plugin_kind, waited).0 == ProcessStep::Keep && wait_step(
            plugin_kind,
            waited,
        ).1 is Some && !(wait_step(plugin_kind, waited).1->0).1,
{
}

/// A note of a teardown adds its message behind the earlier ones, which stay, and makes unloading
/// unsafe where it says so; what was unsafe before stays unsafe.
pub proof fn law_teardown_notes_add_up(
    before: DynamicPluginTeardownOutcome,
    after: DynamicPluginTeardownOutcome,
    message: Seq<char>,
    safe: bool,
)
    requires
        takes(before, after, Some((message, safe))),
    ensures
        after.errors@.len() == before.errors@.len() + 1,
        forall|i: int| 0 <= i < before.errors@.len() ==> after.errors@[i] == #[trigger] before.errors@[i],
        after.errors@[before.errors@.len() as int]@ == message,
        after.safe_to_unload <==> before.safe_to_unload && safe,
{
    assert forall|i: int| 0 <= i < before.errors@.len() implies after.errors@[i]
        == #[trigger] before.errors@[i] by {
        assert(after.errors@.drop_last()[i] == before.errors@[i]);
    }
}

/// A worker that is connected goes on, one that announced an endpoint that cannot be used is given
/// up at once with that error, and for any other the host tries again for ten seconds.
pub proof fn law_workers_have_ten_seconds(elapsed_millis: u64, e: PluginError)
    ensures
        connect_problem(elapsed_millis, ConnectAttempt::Connected) is None,
        connect_problem(elapsed_millis, ConnectAttempt::BadEndpoint(e)) == Some(e@),
        elapsed_millis < 10_000 ==> connect_problem(elapsed_millis, ConnectAttempt::NotAnnounced)
            is None && connect_problem(elapsed_millis, ConnectAttempt::Failed(e)) is None,
        elapsed_millis >= 10_000 ==> connect_problem(elapsed_millis, ConnectAttempt::NotAnnounced)
            == Some(
            (
                PluginErrorKind::RegistrationFailed,
                "worker did not announce endpoint within 10s"@,
            ),
        ) && connect_problem(elapsed_millis, ConnectAttempt::Failed(e)) == Some(
            (
                PluginErrorKind::RegistrationFailed,
                "worker did not start within 10s: "@ + error_text(e@),
            ),
        ),
        WORKER_STARTUP_TIMEOUT_MILLIS == 10_000,
        WORKER_RPC_TIMEOUT_MILLIS == 30_000,
        WORKER_CONNECT_RETRY_MILLIS == 25,
        MANAGED_ENVIRONMENTS_DIR@ == ".dynamic-plugin-environments"@,
{
}

/// A worker is reached by HTTP at the address that it announces, whether it announces it as a TCP
/// or as an HTTP endpoint; white space around it does not count. An empty address and any other
/// kind of endpoint are refused.
pub proof fn law_announced_endpoints_are_reached(announced: Seq<char>, authority: Seq<char>)
    ensures
        trimmed(announced) == "tcp://"@ + authority && authority.len() > 0 ==> tcp_endpoint(announced)
            == Ok::<Seq<char>, ErrorView>("http://"@ + authority),
        trimmed(announced) == "tcp://"@ ==> tcp_endpoint(announced) is Err,
        trimmed(announced) == "http://"@ + authority ==> tcp_endpoint(announced) == Ok::<
            Seq<char>,
            ErrorView,
        >("http://"@ + authority),
        !has_prefix(trimmed(announced), "tcp://"@) && !has_prefix(trimmed(announced), "http://"@)
            ==> tcp_endpoint(announced) == Err::<Seq<char>, ErrorView>(
            (
                PluginErrorKind::RegistrationFailed,
                "worker announced unsupported endpoint '"@ + trimmed(announced) + "'"@,
            ),
        ),
{
    reveal_strlit("tcp://");
    reveal_strlit("http://");
    let endpoint = trimmed(announced);
    if endpoint == "tcp://"@ + authority {
        assert(endpoint.subrange(0, 6) =~= "tcp://"@);
        assert(after(endpoint, 6) =~= authority);
    }
    if endpoint == "tcp://"@ {
        assert(endpoint.subrange(0, 6) =~= "tcp://"@);
        assert(after(endpoint, 6) =~= Seq::empty());
    }
    if endpoint == "http://"@ + authority {
        assert(endpoint.subrange(0, 7) =~= "http://"@);
        if has_prefix(endpoint, "tcp://"@) {
            assert(endpoint[0] == "tcp://"@[0]);
            assert(endpoint.subrange(0, 6)[0] == endpoint[0]);
        }
        assert(endpoint[0] == 'h');
    }
}

/// A worker has announced nothing where its file is missing or blank; else the file holds its
/// endpoint.
pub proof fn law_endpoint_files_hold_the_endpoint(path: Seq<char>, text: Seq<char>, e: Seq<char>)
    ensures
        announced_endpoint(path, None) == Ok::<Option<Seq<char>>, ErrorView>(None),
        trimmed(text).len() == 0 ==> announced_endpoint(path, Some(Ok(text))) == Ok::<
            Option<Seq<char>>,
            ErrorView,
        >(None),
        trimmed(text).len() > 0 ==> (match tcp_endpoint(trimmed(text)) {
            Ok(endpoint) => announced_endpoint(path, Some(Ok(text))) == Ok::<
                Option<Seq<char>>,
                ErrorView,
            >(Some(endpoint)),
            Err(problem) => announced_endpoint(path, Some(Ok(text))) == Err::<
                Option<Seq<char>>,
                ErrorView,
            >(problem),
        }),
        announced_endpoint(path, Some(Err(e))) == Err::<Option<Seq<char>>, ErrorView>(
            (
                PluginErrorKind::RegistrationFailed,
                "failed to read worker endpoint file '"@ + path + "': "@ + e,
            ),
        ),
{
}

/// An environment is accepted exactly where its path is absolute, it is called by the digest of
/// the plugin's identifier, it lies in the directory of managed environments, and it is no symbolic
/// link.
pub proof fn law_environments_are_managed(
    plugin_id: Seq<char>,
    environment: Seq<char>,
    absolute: bool,
    name: Option<Seq<char>>,
    parent_name: Option<Seq<char>>,
    is_symlink: bool,
)
    ensures
        environment_problem(plugin_id, environment, absolute, name, parent_name, is_symlink) is None
            <==> absolute && name == Some(hex_text(sha256_of(encode_utf8(plugin_id))))
            && parent_name == Some(".dynamic-plugin-environments"@) && !is_symlink,
        layout_directory(false) == "bin"@,
        layout_directory(true) == "Scripts"@,
        layout_interpreter(false) == "python"@,
        layout_interpreter(true) == "python.exe"@,
{
}

/// What is told where a worker's environment, endpoint or process cannot be used.
pub proof fn law_unusable_environments_are_told(
    plugin_id: Seq<char>,
    environment: Seq<char>,
    name: Option<Seq<char>>,
    parent_name: Option<Seq<char>>,
    is_symlink: bool,
    announced: Seq<char>,
    e: Seq<char>,
)
    ensures
        environment_problem(plugin_id, environment, false, name, parent_name, is_symlink) == Some(
            (
                PluginErrorKind::InvalidConfig,
                "Python worker environment_ref '"@ + environment
                    + "' is not the lifecycle-managed path for plugin '"@ + plugin_id + "'"@,
            ),
        ),
        environment_problem(
            plugin_id,
            environment,
            true,
            Some(environment_name(plugin_id)),
            Some(MANAGED_ENVIRONMENTS_DIR@),
            true,
        ) == Some(
            (
                PluginErrorKind::InvalidConfig,
                "Python worker environment_ref '"@ + environment + "' must not be a symbolic link"@,
            ),
        ),
        environment_missing_text()
            == "Python worker activation requires a lifecycle-managed environment_ref; run `nemo-relay plugins add <path>`"@,
        trimmed(announced) == "tcp://"@ ==> tcp_endpoint(announced) == Err::<Seq<char>, ErrorView>(
            (PluginErrorKind::RegistrationFailed, "worker announced an empty TCP endpoint"@),
        ),
        wait_step(plugin_id, Ok(())) == (ProcessStep::Release, None::<TeardownNote>),
        wait_step(plugin_id, Err(e)).0 == ProcessStep::Keep,
        wait_step(plugin_id, Err(e)).1 == Some(
            (worker_text(plugin_id, "process wait failed after kill: "@, e), false),
        ),
{
    let t = "tcp://"@;
    assert(t.subrange(0, t.len() as int) =~= t);
    assert(after(t, t.len()).len() == 0);
}

/// Identities are written in lower-case hexadecimal digits, in five groups or without hyphens.
pub proof fn law_identities_are_hexadecimal(s: Seq<char>, prefix: Seq<char>, c: char, i: int)
    ensures
        lower_hex_digit(c) <==> "0123456789abcdef"@.contains(c),
        hyphenated(s) ==> s.len() == 36 && s[8] == '-' && s[13] == '-' && s[18] == '-' && s[23]
            == '-',
        hyphenated(s) && 0 <= i < 36 && i != 8 && i != 13 && i != 18 && i != 23
            ==> "0123456789abcdef"@.contains(s[i]),
        unhyphenated(s) ==> s.len() == 32,
        unhyphenated(s) && 0 <= i < 32 ==> "0123456789abcdef"@.contains(s[i]),
        prefixed_identity(prefix, s) ==> has_prefix(s, prefix) && hyphenated(
            after(s, prefix.len()),
        ),
        s.len() == 36 ==> without_hyphens(s).len() == 32,
{
    reveal_strlit("0123456789abcdef");
    let d = "0123456789abcdef"@;
    assert(d.len() == 16);
    assert(d[0] == '0' && d[1] == '1' && d[2] == '2' && d[3] == '3' && d[4] == '4' && d[5] == '5'
        && d[6] == '6' && d[7] == '7' && d[8] == '8' && d[9] == '9' && d[10] == 'a' && d[11] == 'b'
        && d[12] == 'c' && d[13] == 'd' && d[14] == 'e' && d[15] == 'f');
    assert forall|x: char| lower_hex_digit(x) <==> #[trigger] d.contains(x) by {
        if lower_hex_digit(x) {
            let k: int = if x <= '9' {
                x as int - '0' as int
            } else {
                x as int - 'a' as int + 10
            };
            assert(d[k] == x);
        }
    }
    if hyphenated(s) {
        assert(s[8] == '-' && s[13] == '-' && s[18] == '-' && s[23] == '-');
    }
}

/// The interpreter of an environment lies where the platform puts it.
pub proof fn law_interpreters_lie_in_their_environment(environment: Seq<char>, path: Seq<char>)
    ensures
        is_interpreter(false, environment, path) <==> path == unix_joined(
            unix_joined(environment, "bin"@),
            "python"@,
        ),
        is_interpreter(true, environment, path) ==> ends_with(path, "python.exe"@),
        is_interpreter(true, environment, path) ==> exists|directory: Seq<char>| #[trigger]
            joins(environment, "Scripts"@, directory) && joins(directory, "python.exe"@, path),
{
    if is_interpreter(true, environment, path) {
        let directory = choose|directory: Seq<char>| #[trigger]
            joins(environment, layout_directory(true), directory) && joins(
                directory,
                layout_interpreter(true),
                path,
            );
        assert(joins(environment, "Scripts"@, directory));
    }
}

/// Notes on a teardown are added behind the earlier ones, name the worker, and can only take back
/// that unloading is safe.
pub proof fn law_notes_are_added(
    before: DynamicPluginTeardownOutcome,
    after: DynamicPluginTeardownOutcome,
    message: Seq<char>,
    safe: bool,
    plugin_kind: Seq<char>,
    what: Seq<char>,
)
    ensures
        noted(before, after, message, safe) ==> after.errors@.len() == before.errors@.len() + 1
            && after.errors@.last()@ == message && (after.safe_to_unload <==> before.safe_to_unload
            && safe),
        noted(before, after, message, safe) ==> forall|i: int|
            0 <= i < before.errors@.len() ==> (#[trigger] after.errors@[i]) == before.errors@[i],
        worker_text(plugin_kind, what, message) == "worker plugin '"@ + plugin_kind + "' "@ + what
            + message,
{
    if noted(before, after, message, safe) {
        assert forall|i: int| 0 <= i < before.errors@.len() implies (#[trigger] after.errors@[i])
            == before.errors@[i] by {
            assert(after.errors@.drop_last()[i] == before.errors@[i]);
        }
    }
}

} // verus!
