//! The service around the core manager: what clients may ask for, and which
//! states they are told.

use crate::error::{Error, ErrorView};
use crate::ipc;
use crate::ipc::events::{CoreLogLevel, CoreLogStream};
use crate::ipc::{ClashCoreType, CoreInfos, CoreType};
use crate::kind::CoreKind;
use crate::manager::Outcome;
use crate::share::copy_text;
use crate::spec::{
    Backoff, ControllerMode, CoreSpec, HealthPolicy, InstanceOptions, InstanceSpec, ManagerOptions,
    RestartPolicy,
};
use crate::state;
use crate::state::{CoreState, CoreStateView, CoreStatus, StopReasonView};
use crate::text;
use std::path::Path;
use vstd::prelude::*;
use vstd::string::*;

verus! {

/// What clients are told when they start a core that runs. Clients branch on
/// these three messages, so they are part of the protocol.
pub const MSG_CORE_ALREADY_RUNNING: &'static str = "core is already running";

/// What clients are told when they stop a core that does not run.
pub const MSG_CORE_ALREADY_STOPPED: &'static str = "core is already stopped";

/// What clients are told when they restart a core that never ran.
pub const MSG_CORE_NOT_STARTED: &'static str = "core have not been started yet";

/// Why the service refuses or fails a request.
#[derive(Debug, PartialEq, Eq)]
pub enum ServiceError {
    ShuttingDown,
    AlreadyRunning,
    AlreadyStopped,
    NotStarted,
    /// The kind of core that was asked for is not supported.
    UnsupportedCore,
    /// The data directory is not text; it is shown as well as it can be.
    DataDirNotText(String),
    /// The path of the core binary is not text; it is shown as well as it can be.
    BinaryPathNotText(String),
    BinaryNotFound { name: String },
    Io(String),
    Manager(Error),
}

/// The content of a [`ServiceError`].
pub enum ServiceErrorView {
    ShuttingDown,
    AlreadyRunning,
    AlreadyStopped,
    NotStarted,
    UnsupportedCore,
    DataDirNotText(Seq<char>),
    BinaryPathNotText(Seq<char>),
    BinaryNotFound { name: Seq<char> },
    Io(Seq<char>),
    Manager(ErrorView),
}

impl View for ServiceError {
    type V = ServiceErrorView;

    open spec fn view(&self) -> ServiceErrorView {
        match *self {
            ServiceError::ShuttingDown => ServiceErrorView::ShuttingDown,
            ServiceError::AlreadyRunning => ServiceErrorView::AlreadyRunning,
            ServiceError::AlreadyStopped => ServiceErrorView::AlreadyStopped,
            ServiceError::NotStarted => ServiceErrorView::NotStarted,
            ServiceError::UnsupportedCore => ServiceErrorView::UnsupportedCore,
            ServiceError::DataDirNotText(shown) => ServiceErrorView::DataDirNotText(shown@),
            ServiceError::BinaryPathNotText(shown) => ServiceErrorView::BinaryPathNotText(shown@),
            ServiceError::BinaryNotFound { name } => ServiceErrorView::BinaryNotFound {
                name: name@,
            },
            ServiceError::Io(message) => ServiceErrorView::Io(message@),
            ServiceError::Manager(error) => ServiceErrorView::Manager(error@),
        }
    }
}

impl ServiceErrorView {
    /// What a client is told.
    pub open spec fn text(self) -> Seq<char> {
        match self {
            ServiceErrorView::ShuttingDown => "service is shutting down"@,
            ServiceErrorView::AlreadyRunning => MSG_CORE_ALREADY_RUNNING@,
            ServiceErrorView::AlreadyStopped => MSG_CORE_ALREADY_STOPPED@,
            ServiceErrorView::NotStarted => MSG_CORE_NOT_STARTED@,
            ServiceErrorView::UnsupportedCore => "sing-box is not a supported core"@,
            ServiceErrorView::DataDirNotText(shown) => "nyanpasu data dir is not UTF-8: "@ + shown,
            ServiceErrorView::BinaryPathNotText(shown) => "core binary path is not UTF-8: "@
                + shown,
            ServiceErrorView::BinaryNotFound { name } => name + " not found"@,
            ServiceErrorView::Io(message) => message,
            ServiceErrorView::Manager(error) => error.text(),
        }
    }
}

impl ServiceError {
    /// What a client is told.
    pub fn message(&self) -> (res: String)
        ensures
            res@ == self@.text(),
    {
        match self {
            ServiceError::ShuttingDown => "service is shutting down".to_owned(),
            ServiceError::AlreadyRunning => MSG_CORE_ALREADY_RUNNING.to_owned(),
            ServiceError::AlreadyStopped => MSG_CORE_ALREADY_STOPPED.to_owned(),
            ServiceError::NotStarted => MSG_CORE_NOT_STARTED.to_owned(),
            ServiceError::UnsupportedCore => "sing-box is not a supported core".to_owned(),
            ServiceError::DataDirNotText(shown) => text::concat(
                "nyanpasu data dir is not UTF-8: ",
                shown.as_str(),
            ),
            ServiceError::BinaryPathNotText(shown) => text::concat(
                "core binary path is not UTF-8: ",
                shown.as_str(),
            ),
            ServiceError::BinaryNotFound { name } => text::concat(name.as_str(), " not found"),
            ServiceError::Io(message) => message.clone(),
            ServiceError::Manager(error) => error.message(),
        }
    }
}

/// The kind that a core type is run as; the manager knows no alpha channels.
pub open spec fn kind_of(core_type: CoreType) -> Option<CoreKind> {
    match core_type {
        CoreType::Clash(ClashCoreType::Mihomo) => Some(CoreKind::Mihomo),
        CoreType::Clash(ClashCoreType::MihomoAlpha) => Some(CoreKind::Mihomo),
        CoreType::Clash(ClashCoreType::ClashRust) => Some(CoreKind::ClashRust),
        CoreType::Clash(ClashCoreType::ClashRustAlpha) => Some(CoreKind::ClashRust),
        CoreType::Clash(ClashCoreType::ClashPremium) => Some(CoreKind::ClashPremium),
        CoreType::Clash(ClashCoreType::Meow) => Some(CoreKind::Meow),
        CoreType::SingBox => None,
    }
}

/// The kind that a core type is run as.
pub fn core_kind(core_type: &CoreType) -> (res: Result<CoreKind, ServiceError>)
    ensures
        match res {
            Ok(kind) => kind_of(*core_type) == Some(kind),
            Err(error) => kind_of(*core_type) is None && error@
                == ServiceErrorView::UnsupportedCore,
        },
{
    match core_type {
        CoreType::Clash(ClashCoreType::Mihomo) => Ok(CoreKind::Mihomo),
        CoreType::Clash(ClashCoreType::MihomoAlpha) => Ok(CoreKind::Mihomo),
        CoreType::Clash(ClashCoreType::ClashRust) => Ok(CoreKind::ClashRust),
        CoreType::Clash(ClashCoreType::ClashRustAlpha) => Ok(CoreKind::ClashRust),
        CoreType::Clash(ClashCoreType::ClashPremium) => Ok(CoreKind::ClashPremium),
        CoreType::Clash(ClashCoreType::Meow) => Ok(CoreKind::Meow),
        CoreType::SingBox => Err(ServiceError::UnsupportedCore),
    }
}

/// What clients see of a manager state: they know running and stopped only.
pub open spec fn shown_state(state: CoreStateView) -> ipc::CoreStateView {
    match state {
        CoreStateView::Running { .. } => ipc::CoreStateView::Running,
        CoreStateView::Switching { .. } => ipc::CoreStateView::Running,
        CoreStateView::Stopping { .. } => ipc::CoreStateView::Running,
        CoreStateView::Starting { .. } => ipc::CoreStateView::Stopped(None),
        CoreStateView::Restarting { .. } => ipc::CoreStateView::Stopped(None),
        CoreStateView::Stopped { reason: Some(reason) } => ipc::CoreStateView::Stopped(
            Some(reason.text()),
        ),
        CoreStateView::Stopped { reason: None } => ipc::CoreStateView::Stopped(None),
    }
}

/// What clients see of a manager state.
pub fn map_core_state(state: &CoreState) -> (res: ipc::CoreState)
    ensures
        res@ == shown_state(state@),
{
    match state {
        CoreState::Running { .. } => ipc::CoreState::Running,
        CoreState::Switching { .. } => ipc::CoreState::Running,
        CoreState::Stopping { .. } => ipc::CoreState::Running,
        CoreState::Starting { .. } => ipc::CoreState::Stopped(None),
        CoreState::Restarting { .. } => ipc::CoreState::Stopped(None),
        CoreState::Stopped { reason: Some(reason) } => ipc::CoreState::Stopped(
            Some(reason.message()),
        ),
        CoreState::Stopped { reason: None } => ipc::CoreState::Stopped(None),
    }
}

/// Whether two states look the same to clients.
pub fn same_ipc_state(previous: &ipc::CoreState, next: &ipc::CoreState) -> (res: bool)
    ensures
        res == (previous@ == next@),
{
    match (previous, next) {
        (ipc::CoreState::Running, ipc::CoreState::Running) => true,
        (ipc::CoreState::Stopped(None), ipc::CoreState::Stopped(None)) => true,
        (ipc::CoreState::Stopped(Some(a)), ipc::CoreState::Stopped(Some(b))) => text::same_text(
            a.as_str(),
            b.as_str(),
        ),
        _ => false,
    }
}

/// Whether a manager state is passed over for a client that was told `last`: a
/// stopped core that is stopped or switched does not run again.
pub open spec fn passed_over(last: ipc::CoreStateView, state: CoreStateView) -> bool {
    (state is Stopping || state is Switching) && last is Stopped
}

/// What a client that was told `last` is told of a manager state, if anything.
pub open spec fn told(last: ipc::CoreStateView, state: CoreStateView) -> Option<
    ipc::CoreStateView,
> {
    if passed_over(last, state) || shown_state(state) == last {
        None
    } else {
        Some(shown_state(state))
    }
}

/// What clients were told last.
#[derive(Debug, PartialEq, Eq)]
pub struct StateBridge {
    pub last: ipc::CoreState,
}

impl StateBridge {
    /// A bridge that starts at a manager state.
    pub fn new(state: &CoreState) -> (res: Self)
        ensures
            res.last@ == shown_state(state@),
    {
        StateBridge { last: map_core_state(state) }
    }

    /// Takes a manager state. Gives what clients have to be told, if anything.
    pub fn forward(&mut self, state: &CoreState) -> (res: Option<ipc::CoreState>)
        ensures
            match res {
                Some(next) => told(old(self).last@, state@) == Some(next@) && final(self).last
                    == next,
                None => told(old(self).last@, state@) is None && *final(self) == *old(self),
            },
    {
        let next: ipc::CoreState = map_core_state(state);
        let transient: bool = match state {
            CoreState::Stopping { .. } => true,
            CoreState::Switching { .. } => true,
            _ => false,
        };
        let stopped: bool = match &self.last {
            ipc::CoreState::Stopped(_) => true,
            ipc::CoreState::Running => false,
        };
        if transient && stopped {
            return None;
        }
        if same_ipc_state(&self.last, &next) {
            return None;
        }
        self.last = next.clone();
        Some(next)
    }
}

/// What a client that was told `last` is told over a run of manager states.
pub open spec fn told_over(last: ipc::CoreStateView, states: Seq<CoreStateView>) -> Seq<
    ipc::CoreStateView,
>
    decreases states.len(),
{
    if states.len() == 0 {
        Seq::empty()
    } else {
        match told(last, states[0]) {
            Some(next) => seq![next] + told_over(next, states.skip(1)),
            None => told_over(last, states.skip(1)),
        }
    }
}

/// Clients are told of changes only: no state is told twice in a row, nor the
/// one they knew already.
pub proof fn clients_are_told_changes_only(last: ipc::CoreStateView, states: Seq<CoreStateView>)
    ensures
        told_over(last, states).len() > 0 ==> told_over(last, states)[0] != last,
        forall|i: int|
            0 < i < told_over(last, states).len() ==> #[trigger] told_over(last, states)[i]
                != told_over(last, states)[i - 1],
    decreases states.len(),
{
    if states.len() > 0 {
        let rest = states.skip(1);
        match told(last, states[0]) {
            Some(next) => {
                clients_are_told_changes_only(next, rest);
                let tail = told_over(next, rest);
                let all = told_over(last, states);
                assert(all == seq![next] + tail);
                assert forall|i: int| 0 < i < all.len() implies #[trigger] all[i] != all[i - 1] by {
                    assert(all[i] == tail[i - 1]);
                    if i > 1 {
                        assert(all[i - 1] == tail[i - 2]);
                    }
                }
            },
            None => {
                clients_are_told_changes_only(last, rest);
            },
        }
    }
}

/// A stop that clients know of is not undone by the shutdown that follows it:
/// they are told nothing until the core runs or the reason changes.
pub proof fn a_stop_is_not_resurrected(last: ipc::CoreStateView, state: CoreStateView)
    requires
        last is Stopped,
        told(last, state) == Some(ipc::CoreStateView::Running),
    ensures
        state is Running,
{
}

/// The state of the service besides its manager: whether it is shutting down,
/// and which core was asked for last.
#[derive(Debug, PartialEq, Eq)]
pub struct CoreManagerService {
    pub closing: bool,
    pub requested_core: Option<CoreType>,
}

/// Whether `path` is a verbatim Windows path on a drive: a letter and a colon
/// follow the mark.
pub open spec fn verbatim_disk(path: Seq<char>) -> bool {
    text::occurs_at(path, "\\\\?\\"@, 0) && path.len() >= 6 && path[5] == ':' && ('a' <= path[4]
        <= 'z' || 'A' <= path[4] <= 'Z')
}

/// Whether `simple` is `path`, or `path` without the mark of a verbatim Windows
/// path on a drive.
pub open spec fn simplification(path: Seq<char>, simple: Seq<char>) -> bool {
    simple == path || (verbatim_disk(path) && simple == path.skip(4))
}

/// Wraps `dunce::simplified`: a verbatim Windows path on a drive loses its mark
/// where an ordinary path means the same; any other path stays as it is. When
/// that is so depends on the machine.
#[verifier::external_body]
fn simplify(path: &str) -> (res: String)
    ensures
        simplification(path@, res@),
{
    dunce::simplified(Path::new(path)).to_string_lossy().into_owned()
}

/// The path under which a config is known to the core, from its canonical path.
pub fn config_path(canonical: &str) -> (res: String)
    ensures
        simplification(canonical@, res@),
{
    simplify(canonical)
}

/// What is known of the config that a client asks to start with.
#[derive(Debug, PartialEq, Eq)]
pub enum ConfigLookup {
    /// Its path, at which it can be read.
    Found(String),
    Failed(String),
}

impl CoreManagerService {
    /// A service that has started nothing yet.
    pub fn new() -> (res: Self)
        ensures
            !res.closing,
            res.requested_core is None,
    {
        CoreManagerService { closing: false, requested_core: None }
    }

    /// The options of the service's manager.
    pub fn manager_options(runtime_dir: String) -> (res: ManagerOptions)
        ensures
            res == (ManagerOptions {
                controller_mode: ControllerMode::Passthrough,
                runtime_dir: Some(runtime_dir),
                control_timeout_ms: 10_000,
                reconcile_timeout_ms: 30_000,
                stop_timeout_ms: 10_000,
            }),
    {
        ManagerOptions {
            controller_mode: ControllerMode::Passthrough,
            runtime_dir: Some(runtime_dir),
            ..ManagerOptions::default()
        }
    }

    /// Begins to shut down. Tells whether the manager has to be shut down, which
    /// is so the first time only.
    pub fn shutdown(&mut self) -> (res: bool)
        ensures
            res == !old(self).closing,
            final(self).closing,
            final(self).requested_core == old(self).requested_core,
    {
        if self.closing {
            return false;
        }
        self.closing = true;
        true
    }

    /// Accepts a request unless the service is shutting down.
    pub fn accept(&self) -> (res: Result<(), ServiceError>)
        ensures
            match res {
                Ok(_) => !self.closing,
                Err(error) => self.closing && error@ == ServiceErrorView::ShuttingDown,
            },
    {
        if self.closing {
            return Err(ServiceError::ShuttingDown);
        }
        Ok(())
    }

    /// Accepts a start: the service is not shutting down, the config can be read,
    /// and nothing runs. Gives the config's path.
    pub fn start(&self, config: ConfigLookup, state: &CoreState) -> (res: Result<
        String,
        ServiceError,
    >)
        ensures
            match res {
                Ok(path) => !self.closing && config == ConfigLookup::Found(path)
                    && state is Stopped,
                Err(error) => error@ == if self.closing {
                    ServiceErrorView::ShuttingDown
                } else {
                    match config {
                        ConfigLookup::Failed(message) => ServiceErrorView::Io(message@),
                        ConfigLookup::Found(_) => ServiceErrorView::AlreadyRunning,
                    }
                } && (self.closing || config is Failed || !(state is Stopped)),
            },
    {
        if self.closing {
            return Err(ServiceError::ShuttingDown);
        }
        let path: String = match config {
            ConfigLookup::Found(path) => path,
            ConfigLookup::Failed(message) => {
                return Err(ServiceError::Io(message));
            },
        };
        match state {
            CoreState::Stopped { .. } => Ok(path),
            _ => Err(ServiceError::AlreadyRunning),
        }
    }

    /// Takes the result of a start: the core that was asked for is remembered
    /// once it runs.
    pub fn started(&mut self, core_type: CoreType, result: Result<Outcome, Error>) -> (res: Result<
        (),
        ServiceError,
    >)
        ensures
            final(self).closing == old(self).closing,
            match (result, res) {
                (Ok(_), Ok(_)) => final(self).requested_core == Some(core_type),
                (Err(before), Err(after)) => after@ == ServiceErrorView::Manager(before@)
                    && final(self).requested_core == old(self).requested_core,
                _ => false,
            },
    {
        match result {
            Ok(_) => {
                self.requested_core = Some(core_type);
                Ok(())
            },
            Err(error) => Err(ServiceError::Manager(error)),
        }
    }

    /// What a client is told of a stop.
    pub fn stop(result: Result<Outcome, Error>) -> (res: Result<(), ServiceError>)
        ensures
            match (result, res) {
                (Ok(_), Ok(_)) => true,
                (Err(before), Err(after)) => after@ == if before is NotStarted {
                    ServiceErrorView::AlreadyStopped
                } else {
                    ServiceErrorView::Manager(before@)
                },
                _ => false,
            },
    {
        match result {
            Ok(_) => Ok(()),
            Err(Error::NotStarted) => Err(ServiceError::AlreadyStopped),
            Err(error) => Err(ServiceError::Manager(error)),
        }
    }

    /// What a client is told of a restart.
    pub fn restart(result: Result<Outcome, Error>) -> (res: Result<(), ServiceError>)
        ensures
            match (result, res) {
                (Ok(_), Ok(_)) => true,
                (Err(before), Err(after)) => after@ == if before is NotStarted {
                    ServiceErrorView::NotStarted
                } else {
                    ServiceErrorView::Manager(before@)
                },
                _ => false,
            },
    {
        match result {
            Ok(_) => Ok(()),
            Err(Error::NotStarted) => Err(ServiceError::NotStarted),
            Err(error) => Err(ServiceError::Manager(error)),
        }
    }

    /// What clients learn of the core.
    pub fn status(&self, status: &CoreStatus) -> (res: CoreInfos)
        ensures
            res.core_type == self.requested_core,
            res.state@ == shown_state(status.state@),
            res.state_changed_at == status.changed_at,
            res.config_path == match status.spec {
                Some(spec) => Some(spec.config_path),
                None => None::<String>,
            },
    {
        CoreInfos {
            core_type: self.requested_core,
            state: map_core_state(&status.state),
            state_changed_at: status.changed_at,
            config_path: match &status.spec {
                Some(spec) => Some(spec.config_path.clone()),
                None => None,
            },
        }
    }
}

/// How loud a console line of the core is in the service's own log.
pub fn forward_log(stream: CoreLogStream) -> (res: CoreLogLevel)
    ensures
        res == match stream {
            CoreLogStream::Stdout => CoreLogLevel::Info,
            CoreLogStream::Stderr => CoreLogLevel::Error,
        },
{
    match stream {
        CoreLogStream::Stdout => CoreLogLevel::Info,
        CoreLogStream::Stderr => CoreLogLevel::Error,
    }
}

/// A place where a core binary may be: its path, if that is text, else how it is
/// shown, and whether it exists.
#[derive(Debug, PartialEq, Eq)]
pub struct BinaryCandidate {
    pub path: Result<String, String>,
    pub exists: bool,
}

/// The first place at which a core binary exists.
pub open spec fn found_binary(
    in_data_dir: BinaryCandidate,
    in_app_dir: BinaryCandidate,
) -> Option<BinaryCandidate> {
    if in_data_dir.exists {
        Some(in_data_dir)
    } else if in_app_dir.exists {
        Some(in_app_dir)
    } else {
        None
    }
}

/// Searches the core binary: in the data directory, then beside the program.
pub fn find_binary_path(
    name: &str,
    in_data_dir: BinaryCandidate,
    in_app_dir: BinaryCandidate,
) -> (res: Result<BinaryCandidate, ServiceError>)
    ensures
        match (res, found_binary(in_data_dir, in_app_dir)) {
            (Ok(candidate), Some(expected)) => candidate == expected,
            (Err(error), None) => error@ == ServiceErrorView::BinaryNotFound { name: name@ },
            _ => false,
        },
{
    if in_data_dir.exists {
        return Ok(in_data_dir);
    }
    if in_app_dir.exists {
        return Ok(in_app_dir);
    }
    Err(ServiceError::BinaryNotFound { name: name.to_owned() })
}

/// The spec of a core that a client asks for. `data_dir` is the data directory,
/// if that is text, else how it is shown.
pub fn instance_spec(
    data_dir: Result<String, String>,
    binary: Result<BinaryCandidate, ServiceError>,
    core_type: &CoreType,
    config_path: String,
) -> (res: Result<InstanceSpec, ServiceError>)
    ensures
        match res {
            Ok(spec) => {
                &&& data_dir == Ok::<String, String>(spec.working_dir)
                &&& binary is Ok && binary->Ok_0.path == Ok::<String, String>(
                    spec.core.binary_path,
                )
                &&& kind_of(*core_type) == Some(spec.core.kind)
                &&& spec.core.version is None
                &&& spec.core.features@.len() == 0
                &&& spec.config_path == config_path
                &&& spec.pid_file is None
                &&& spec.options == (InstanceOptions {
                    startup_timeout_ms: 30_000,
                    health: HealthPolicy {
                        interval_ms: 250,
                        timeout_ms: 1000,
                        failure_threshold: 3,
                        success_threshold: 1,
                        start_period_ms: 0,
                    },
                    restart_policy: RestartPolicy::OnFailure { max_restarts: 5 },
                    backoff: Backoff { initial_ms: 1000, max_ms: 30_000, jitter: true },
                })
            },
            Err(error) => match data_dir {
                Err(shown) => error@ == ServiceErrorView::DataDirNotText(shown@),
                Ok(_) => match binary {
                    Err(cause) => error == cause,
                    Ok(candidate) => match candidate.path {
                        Err(shown) => error@ == ServiceErrorView::BinaryPathNotText(shown@),
                        Ok(_) => kind_of(*core_type) is None && error@
                            == ServiceErrorView::UnsupportedCore,
                    },
                },
            },
        },
{
    let working_dir: String = match data_dir {
        Ok(dir) => dir,
        Err(shown) => {
            return Err(ServiceError::DataDirNotText(shown));
        },
    };
    let candidate: BinaryCandidate = match binary {
        Ok(candidate) => candidate,
        Err(error) => {
            return Err(error);
        },
    };
    let binary_path: String = match candidate.path {
        Ok(path) => path,
        Err(shown) => {
            return Err(ServiceError::BinaryPathNotText(shown));
        },
    };
    let kind: CoreKind = match core_kind(core_type) {
        Ok(kind) => kind,
        Err(error) => {
            return Err(error);
        },
    };
    Ok(
        InstanceSpec {
            core: CoreSpec { kind, binary_path, version: None, features: Vec::new() },
            config_path,
            working_dir,
            // The manager owns the pid record and puts it into its runtime directory.
            pid_file: None,
            options: InstanceOptions::default(),
        },
    )
}

/// Clients see a core run from the first time it runs until it has stopped, and
/// stopped otherwise; a reason is told of a stop alone, and told whole.
pub proof fn clients_see_a_core_run_until_it_stops(state: CoreStateView)
    ensures
        shown_state(state) is Running <==> state is Running || state is Switching || state
            is Stopping,
        shown_state(state) is Stopped <==> state is Starting || state is Restarting || state
            is Stopped,
        shown_state(state) matches ipc::CoreStateView::Stopped(reason) ==> (reason is Some <==> (
        state is Stopped && state->reason is Some)),
        state is Stopped && state->reason is Some ==> shown_state(state)->Stopped_0 == Some(
            state->reason->0.text(),
        ),
{
}

/// What clients are told is new to them and is how the core stands. They are told
/// nothing only if they know it, or if a core that they saw stop is on its way
/// to another one.
pub proof fn clients_are_told_how_the_core_stands(
    last: ipc::CoreStateView,
    state: CoreStateView,
)
    ensures
        told(last, state) matches Some(next) ==> next != last && next == shown_state(state),
        told(last, state) is None ==> last == shown_state(state) || ((state is Stopping || state
            is Switching) && last is Stopped),
        told(last, state) matches Some(next) ==> told(next, state) is None,
{
}

/// Every kind of core that is asked for has one of the manager's, but for one
/// that is not supported; a preview is of the same kind as its release.
pub proof fn each_core_type_has_its_kind(core_type: CoreType)
    ensures
        kind_of(core_type) is None <==> core_type is SingBox,
        kind_of(core_type) == Some(CoreKind::Mihomo) <==> core_type == CoreType::Clash(
            ClashCoreType::Mihomo,
        ) || core_type == CoreType::Clash(ClashCoreType::MihomoAlpha),
        kind_of(core_type) == Some(CoreKind::ClashRust) <==> core_type == CoreType::Clash(
            ClashCoreType::ClashRust,
        ) || core_type == CoreType::Clash(ClashCoreType::ClashRustAlpha),
        kind_of(core_type) == Some(CoreKind::ClashPremium) <==> core_type == CoreType::Clash(
            ClashCoreType::ClashPremium,
        ),
        kind_of(core_type) == Some(CoreKind::Meow) <==> core_type == CoreType::Clash(
            ClashCoreType::Meow,
        ),
{
}

/// The binary that is found exists. One in the data directory comes first, and
/// none is found only if there is none in either place.
pub proof fn a_binary_that_is_found_exists(
    in_data_dir: BinaryCandidate,
    in_app_dir: BinaryCandidate,
)
    ensures
        found_binary(in_data_dir, in_app_dir) matches Some(found) ==> found.exists && (found
            == in_data_dir || found == in_app_dir),
        in_data_dir.exists ==> found_binary(in_data_dir, in_app_dir) == Some(in_data_dir),
        found_binary(in_data_dir, in_app_dir) is None <==> !in_data_dir.exists
            && !in_app_dir.exists,
{
}

} // verus!
