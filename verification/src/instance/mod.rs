//! One epoch of a running core: how it is launched, watched and ended.

pub mod halt;
pub mod monitor;

use crate::error::{Error, ErrorView};
use crate::kind;
use crate::kind::{launch_command_args, CoreKind};
use crate::path;
use crate::platform::Platform;
use crate::runtime_store;
use crate::spec::{InstanceSpec, ResolvedController};
use crate::state;
use crate::state::{InstanceState, InstanceStatus, StopReason, StopReasonView};
use crate::text;
use halt::{EpochRecord, Halt, HaltView};
use monitor::{InstanceStateView, Monitor, MonitorView};
use std::sync::Arc;
use vstd::prelude::*;
use vstd::string::*;

verus! {

/// How a started process is recorded on disk.
#[derive(Debug, PartialEq, Eq)]
pub enum PidRecord {
    Absent,
    /// A file with nothing but the process id.
    Plain(String),
    /// A record that identifies the process of one epoch.
    Epoch(String),
}

/// How a core process is started. `safe_paths` is the value of
/// [`kind::MIHOMO_SAFE_PATHS_ENV_NAME`] in its environment.
#[derive(Debug, PartialEq, Eq)]
pub struct LaunchCommand {
    pub program: String,
    pub args: Vec<String>,
    pub safe_paths: String,
    pub current_dir: String,
    pub pid_record: PidRecord,
}

/// Whether the pid file of a spec is the record of `epoch`: the file names are
/// those of the epoch and both stand in one directory.
pub open spec fn epoch_record(
    pid_name: Option<Seq<char>>,
    config_name: Option<Seq<char>>,
    same_dir: bool,
    epoch: u64,
) -> bool {
    pid_name == Some(runtime_store::pid_name(epoch)) && config_name == Some(
        runtime_store::config_name(epoch),
    ) && same_dir
}

fn named(name: &Option<String>, lead: &str, epoch: u64, tail: &str) -> (res: bool)
    ensures
        res == (state::text_of(*name) == Some(lead@ + text::decimal(epoch as nat) + tail@)),
{
    match name {
        Some(name) => {
            let digits: String = text::decimal_text(epoch);
            let expected: String = text::concat3(lead, digits.as_str(), tail);
            text::same_text(name.as_str(), expected.as_str())
        },
        None => false,
    }
}

/// Whether the pid file of a spec is the record of `epoch`.
pub fn is_epoch_record(
    pid_name: &Option<String>,
    config_name: &Option<String>,
    same_dir: bool,
    epoch: u64,
) -> (res: bool)
    ensures
        res == epoch_record(
            state::text_of(*pid_name),
            state::text_of(*config_name),
            same_dir,
            epoch,
        ),
{
    named(pid_name, "core-", epoch, ".pid") && named(config_name, "config-", epoch, ".yaml")
        && same_dir
}

fn same_parent(a: &str, b: &str) -> (res: bool)
    ensures
        forall|dir: Seq<char>, name: Seq<char>, other: Seq<char>, other_name: Seq<char>|
            #![trigger path::splits(dir, name, a@), path::splits(other, other_name, b@)]
            path::splits(dir, name, a@) && path::splits(other, other_name, b@) ==> res == (dir
                == other),
{
    match (path::parent(a), path::parent(b)) {
        (Some(x), Some(y)) => {
            let same: bool = path::same_path(x.as_str(), y.as_str());
            proof {
                if path::portable(x@) && path::portable(y@) {
                    path::portable_paths_are_their_components(x@, y@, same);
                }
            }
            same
        },
        (None, None) => true,
        _ => false,
    }
}

/// Whether `recorded` tells if the pid file of a spec is the record of `epoch`,
/// for the paths whose file names and directories are the same on every
/// machine.
pub open spec fn tells_record(spec: InstanceSpec, epoch: u64, recorded: bool) -> bool {
    &&& spec.pid_file is None ==> !recorded
    &&& forall|dir: Seq<char>, name: Seq<char>, config_dir: Seq<char>, config_name: Seq<char>|
        #![trigger path::splits(dir, name, spec.pid_file->0@), path::splits(config_dir, config_name, spec.config_path@)]
        spec.pid_file is Some && path::splits(dir, name, spec.pid_file->0@) && path::splits(
            config_dir,
            config_name,
            spec.config_path@,
        ) ==> recorded == epoch_record(Some(name), Some(config_name), dir == config_dir, epoch)
}

/// The pid file of a spec, if it is the record of `epoch`. What the file names
/// and directories of other paths than the portable ones are depends on the
/// machine; what they lead to is decided by [`is_epoch_record`].
pub fn epoch_pid_path(spec: &InstanceSpec, epoch: u64) -> (res: Option<String>)
    ensures
        tells_record(*spec, epoch, res is Some),
        res matches Some(path) ==> spec.pid_file == Some(path) && (exists|at: int|
            text::occurs_at(path@, runtime_store::pid_name(epoch), at)) && (exists|at: int|
            text::occurs_at(spec.config_path@, runtime_store::config_name(epoch), at)),
{
    let pid_file: String = match &spec.pid_file {
        Some(pid_file) => pid_file.clone(),
        None => {
            return None;
        },
    };
    let pid_name: Option<String> = path::file_name(pid_file.as_str());
    let config_name: Option<String> = path::file_name(spec.config_path.as_str());
    let same_dir: bool = same_parent(pid_file.as_str(), spec.config_path.as_str());
    if is_epoch_record(&pid_name, &config_name, same_dir, epoch) {
        Some(pid_file)
    } else {
        None
    }
}

/// How a process is recorded: not at all without a pid file, with the identity
/// of its epoch where the file is the record of one.
pub open spec fn recorded_as(pid_file: Option<String>, is_record: bool) -> PidRecord {
    match pid_file {
        None => PidRecord::Absent,
        Some(path) => if is_record {
            PidRecord::Epoch(path)
        } else {
            PidRecord::Plain(path)
        },
    }
}

/// The command that starts the core of a spec whose config stands in
/// `config_dir`.
pub fn build_command_in(
    spec: &InstanceSpec,
    platform: Platform,
    config_dir: &str,
    is_record: bool,
) -> (res: LaunchCommand)
    requires
        spec.core.kind != CoreKind::Meow,
    ensures
        res.program@ == spec.core.binary_path@,
        Some(text::texts(res.args@)) == kind::launch_args(
            spec.core.kind,
            spec.working_dir@,
            spec.config_path@,
        ),
        res.safe_paths@ == spec.working_dir@ + kind::safe_paths_separator(platform) + config_dir@,
        res.current_dir@ == spec.working_dir@,
        res.pid_record == recorded_as(spec.pid_file, is_record),
{
    let args: Vec<String> = launch_command_args(
        spec.core.kind,
        spec.working_dir.as_str(),
        spec.config_path.as_str(),
    );
    let pid_record: PidRecord = match &spec.pid_file {
        None => PidRecord::Absent,
        Some(path) => if is_record {
            PidRecord::Epoch(path.clone())
        } else {
            PidRecord::Plain(path.clone())
        },
    };
    LaunchCommand {
        program: spec.core.binary_path.clone(),
        args,
        safe_paths: kind::mihomo_safe_paths(platform, spec.working_dir.as_str(), config_dir),
        current_dir: spec.working_dir.clone(),
        pid_record,
    }
}

/// The command that starts the core of a spec. A config path without a
/// directory stands for its own directory. What the directory of another config
/// path than a portable one is depends on the machine; what it leads to is
/// decided by [`build_command_in`].
pub fn build_command(spec: &InstanceSpec, epoch: u64, platform: Platform) -> (res: LaunchCommand)
    requires
        spec.core.kind != CoreKind::Meow,
    ensures
        res.program@ == spec.core.binary_path@,
        Some(text::texts(res.args@)) == kind::launch_args(
            spec.core.kind,
            spec.working_dir@,
            spec.config_path@,
        ),
        exists|n: int|
            0 <= n <= spec.config_path@.len() && res.safe_paths@ == spec.working_dir@
                + kind::safe_paths_separator(platform) + #[trigger] spec.config_path@.take(n),
        res.current_dir@ == spec.working_dir@,
        forall|dir: Seq<char>, name: Seq<char>| #[trigger]
            path::splits(dir, name, spec.config_path@) ==> res.safe_paths@ == spec.working_dir@
                + kind::safe_paths_separator(platform) + dir,
        exists|is_record: bool|
            res.pid_record == #[trigger] recorded_as(spec.pid_file, is_record) && tells_record(
                *spec,
                epoch,
                is_record,
            ),
{
    let config_dir: String = match path::parent(spec.config_path.as_str()) {
        Some(dir) => dir,
        None => {
            assert(spec.config_path@.take(spec.config_path@.len() as int) =~= spec.config_path@);
            spec.config_path.clone()
        },
    };
    assert(config_dir@ == spec.config_path@.take(config_dir@.len() as int));
    let is_record: bool = epoch_pid_path(spec, epoch).is_some();
    build_command_in(spec, platform, config_dir.as_str(), is_record)
}

/// How an instance is checked after it became ready.
#[derive(Debug, PartialEq, Eq)]
pub enum Liveness<P> {
    /// Not at all.
    Unchecked,
    /// With a probe of its own.
    Own(P),
    /// With the readiness probe.
    Readiness,
}

/// What an instance is made from. `P` stands for a health probe.
#[derive(Debug)]
pub struct InstanceBuilder<P> {
    pub spec: Arc<InstanceSpec>,
    pub epoch: u64,
    pub controller: ResolvedController,
    pub readiness_probe: Option<P>,
    pub liveness_probe: Option<P>,
    pub liveness_with_readiness: bool,
}

/// What an instance is spawned with: the probes (the controller's version probe
/// stands in where there is no readiness probe), and the instant by which it
/// has to be ready.
#[derive(Debug)]
pub struct SpawnPlan<P> {
    pub instance: Instance,
    pub readiness_probe: Option<P>,
    pub liveness: Liveness<P>,
    pub initial_deadline: u64,
}

impl<P> InstanceBuilder<P> {
    /// A builder without probes of its own.
    pub fn new(spec: Arc<InstanceSpec>, epoch: u64, controller: ResolvedController) -> (res: Self)
        ensures
            res == (InstanceBuilder::<P> {
                spec,
                epoch,
                controller,
                readiness_probe: None,
                liveness_probe: None,
                liveness_with_readiness: false,
            }),
    {
        InstanceBuilder {
            spec,
            epoch,
            controller,
            readiness_probe: None,
            liveness_probe: None,
            liveness_with_readiness: false,
        }
    }

    /// Checks readiness with `probe`.
    pub fn readiness_probe(self, probe: P) -> (res: Self)
        ensures
            res == (InstanceBuilder { readiness_probe: Some(probe), ..self }),
    {
        InstanceBuilder { readiness_probe: Some(probe), ..self }
    }

    /// Checks liveness with `probe`.
    pub fn liveness_probe(self, probe: P) -> (res: Self)
        ensures
            res == (InstanceBuilder {
                liveness_probe: Some(probe),
                liveness_with_readiness: false,
                ..self
            }),
    {
        InstanceBuilder { liveness_probe: Some(probe), liveness_with_readiness: false, ..self }
    }

    /// Checks liveness with the readiness probe.
    pub fn liveness_with_readiness_probe(self) -> (res: Self)
        ensures
            res == (InstanceBuilder {
                liveness_probe: None,
                liveness_with_readiness: true,
                ..self
            }),
    {
        InstanceBuilder { liveness_probe: None, liveness_with_readiness: true, ..self }
    }

    /// How the built instance is checked after it became ready.
    pub open spec fn liveness(self) -> Liveness<P> {
        if self.liveness_with_readiness {
            Liveness::Readiness
        } else {
            match self.liveness_probe {
                Some(probe) => Liveness::Own(probe),
                None => Liveness::Unchecked,
            }
        }
    }

    /// Plans the spawn at an instant, which is in nanoseconds, and at the time
    /// `now`: the config and the binary have to exist, and the kind needs a
    /// launch profile.
    pub fn plan(
        self,
        config_exists: bool,
        binary_exists: bool,
        instant: u64,
        now: i64,
    ) -> (res: Result<SpawnPlan<P>, Error>)
        requires
            instant + self.spec.options.startup_timeout_ms * 1_000_000 <= u64::MAX,
        ensures
            match res {
                Ok(plan) => {
                    let startup_timeout = (self.spec.options.startup_timeout_ms
                        * 1_000_000) as u64;
                    let deadline = (instant + startup_timeout) as u64;
                    &&& config_exists && binary_exists && self.spec.core.kind != CoreKind::Meow
                    &&& plan.readiness_probe == self.readiness_probe
                    &&& plan.liveness == self.liveness()
                    &&& plan.initial_deadline == deadline
                    &&& plan.instance.epoch == self.epoch
                    &&& plan.instance.spec == self.spec
                    &&& plan.instance.controller == self.controller
                    &&& plan.instance.monitor@ == monitor::fresh(deadline, startup_timeout, now)
                },
                Err(error) => if !config_exists {
                    error@ == ErrorView::ConfigNotFound(self.spec.config_path@)
                } else if !binary_exists {
                    error@ == ErrorView::BinaryNotFound(self.spec.core.binary_path@)
                } else {
                    self.spec.core.kind == CoreKind::Meow && error@ == ErrorView::UnsupportedCore(
                        CoreKind::Meow,
                    )
                },
            },
    {
        if !config_exists {
            return Err(Error::ConfigNotFound(self.spec.config_path.clone()));
        }
        if !binary_exists {
            return Err(Error::BinaryNotFound(self.spec.core.binary_path.clone()));
        }
        match kind::run_args(
            self.spec.core.kind,
            self.spec.working_dir.as_str(),
            self.spec.config_path.as_str(),
        ) {
            Ok(_) => {},
            Err(error) => {
                return Err(error);
            },
        }
        let liveness: Liveness<P> = if self.liveness_with_readiness {
            Liveness::Readiness
        } else {
            match self.liveness_probe {
                Some(probe) => Liveness::Own(probe),
                None => Liveness::Unchecked,
            }
        };
        let startup_timeout: u64 = self.spec.options.startup_timeout_ms * 1_000_000;
        let initial_deadline: u64 = instant + startup_timeout;
        let instance = Instance {
            epoch: self.epoch,
            spec: self.spec,
            controller: self.controller,
            monitor: Monitor::new(initial_deadline, startup_timeout, now),
        };
        Ok(SpawnPlan { instance, readiness_probe: self.readiness_probe, liveness, initial_deadline })
    }
}

/// What an instance that ended before it was ready left behind.
pub open spec fn early_end(reason: StopReason) -> Seq<char> {
    match reason {
        StopReason::Error(message) => message@,
        StopReason::Finished => "stopped before ready: Finished"@,
        StopReason::User => "stopped before ready: User"@,
    }
}

/// One epoch of a running core. The spec is immutable: a change of the config
/// means a new instance with a new epoch.
#[derive(Debug)]
pub struct Instance {
    pub epoch: u64,
    pub spec: Arc<InstanceSpec>,
    pub controller: ResolvedController,
    pub monitor: Monitor,
}

impl Instance {
    /// A builder without probes of its own.
    pub fn builder<P>(spec: Arc<InstanceSpec>, epoch: u64, controller: ResolvedController) -> (res:
        InstanceBuilder<P>)
        ensures
            res == (InstanceBuilder::<P> {
                spec,
                epoch,
                controller,
                readiness_probe: None,
                liveness_probe: None,
                liveness_with_readiness: false,
            }),
    {
        InstanceBuilder::new(spec, epoch, controller)
    }

    /// What the instance shows.
    pub fn state(&self) -> (res: &InstanceStatus)
        ensures
            *res == self.monitor.status,
    {
        &self.monitor.status
    }

    pub fn epoch(&self) -> (res: u64)
        ensures
            res == self.epoch,
    {
        self.epoch
    }

    pub fn spec(&self) -> (res: &InstanceSpec)
        ensures
            *res == *self.spec,
    {
        &self.spec
    }

    pub fn controller(&self) -> (res: &ResolvedController)
        ensures
            *res == self.controller,
    {
        &self.controller
    }

    /// The process id of a running instance.
    pub fn pid(&self) -> (res: Option<u32>)
        ensures
            res == match self.monitor.status.state {
                InstanceState::Running { pid } => Some(pid),
                _ => None::<u32>,
            },
    {
        match &self.monitor.status.state {
            InstanceState::Running { pid } => Some(*pid),
            _ => None,
        }
    }

    /// Whether an early end of the instance can be summed up: it has not ended,
    /// or its error output can be cut.
    pub open spec fn explains(&self) -> bool {
        self.monitor.status.state matches InstanceState::Stopped(reason) ==> kind::summarisable(
            self.spec.core.kind,
            early_end(reason),
        )
    }

    /// Whether an early end of the instance can be summed up.
    pub fn is_explained(&self) -> (res: bool)
        ensures
            res == self.explains(),
    {
        match &self.monitor.status.state {
            InstanceState::Stopped(reason) => {
                let message: String = early_end_text(reason);
                kind::is_summarisable(self.spec.core.kind, message.as_str())
            },
            _ => true,
        }
    }

    /// Whether the initial start is confirmed or has failed; none while neither
    /// is known. Once nobody monitors the instance any more it has failed.
    pub fn wait_ready(&self, monitored: bool) -> (res: Option<Result<(), Error>>)
        requires
            self.explains(),
        ensures
            match self.monitor.status.state {
                InstanceState::Running { .. } => res == Some(Ok::<(), Error>(())),
                InstanceState::Stopped(reason) => {
                    let stderr_tail = kind::condensed(self.spec.core.kind, early_end(reason));
                    res matches Some(Err(error)) && error@ == if self.monitor.probe_timeout {
                        ErrorView::StartupTimeout { stderr_tail }
                    } else {
                        ErrorView::StartupFailed { stderr_tail }
                    }
                },
                _ => if monitored {
                    res is None
                } else {
                    res matches Some(Err(error)) && error@ == (ErrorView::StartupFailed {
                        stderr_tail: self.monitor@.tail_text(),
                    })
                },
            },
    {
        match &self.monitor.status.state {
            InstanceState::Running { .. } => Some(Ok(())),
            InstanceState::Stopped(reason) => {
                let message: String = early_end_text(reason);
                let stderr_tail: String = kind::error_summary(
                    self.spec.core.kind,
                    message.as_str(),
                );
                if self.monitor.probe_timeout {
                    Some(Err(Error::StartupTimeout { stderr_tail }))
                } else {
                    Some(Err(Error::StartupFailed { stderr_tail }))
                }
            },
            _ => {
                if monitored {
                    return None;
                }
                Some(Err(Error::StartupFailed { stderr_tail: self.monitor.tail_text() }))
            },
        }
    }

    /// The record of the process on disk, if the spec has one for this epoch.
    /// What the directory of another config path than a portable one is depends
    /// on the machine.
    pub fn record(&self) -> (res: Option<EpochRecord>)
        ensures
            recorded_by(*self, res),
    {
        match epoch_pid_path(&self.spec, self.epoch) {
            Some(pid_file) => Some(
                EpochRecord { pid_file, runtime_dir: path::parent(self.spec.config_path.as_str()) },
            ),
            None => None,
        }
    }

    /// Begins to stop the instance within ten seconds.
    pub fn stop(&mut self) -> (res: Halt)
        ensures
            stops(*old(self), *final(self), res@, 10_000),
    {
        self.stop_and_confirm_dead(10_000)
    }

    /// Begins to stop the instance and to prove that its process is dead: unless
    /// it has ended already, it shows as stopping, and as stopped by the user
    /// once it ends.
    pub fn stop_and_confirm_dead(&mut self, timeout_ms: u64) -> (res: Halt)
        ensures
            stops(*old(self), *final(self), res@, timeout_ms),
    {
        let record: Option<EpochRecord> = self.record();
        let terminal: bool = self.monitor.status.state.is_terminal();
        let ghost before = *self;
        if !terminal {
            self.monitor.user_stop = true;
            self.monitor.publish(InstanceState::Stopping);
        }
        assert(stop_begun(before.monitor@, self.monitor@, terminal));
        let res: Halt = halt::stop_and_confirm_dead(terminal, record, timeout_ms);
        assert(halts(before, record, res@, timeout_ms));
        res
    }

    /// Takes the end of stopping: a process that was found and ended by its
    /// record was stopped by the user.
    pub fn halted(&mut self, publish_stopped: bool)
        ensures
            final(self).epoch == old(self).epoch,
            final(self).spec == old(self).spec,
            final(self).controller == old(self).controller,
            final(self).monitor@ == if publish_stopped {
                old(self).monitor@.ended(StopReasonView::User)
            } else {
                old(self).monitor@
            },
    {
        if publish_stopped {
            self.monitor.publish(InstanceState::Stopped(StopReason::User));
        }
    }
}

/// The monitor before and after a stop begins; `terminal` tells whether the
/// instance had ended already.
pub open spec fn stop_begun(before: MonitorView, after: MonitorView, terminal: bool) -> bool {
    after == if terminal {
        before
    } else {
        MonitorView { user_stop: true, state: InstanceStateView::Stopping, health: None, ..before }
    }
}

/// Whether `record` is the record of an instance's process, as far as that does
/// not depend on the machine.
pub open spec fn recorded_by(instance: Instance, record: Option<EpochRecord>) -> bool {
    &&& tells_record(*instance.spec, instance.epoch, record is Some)
    &&& record matches Some(found) ==> instance.spec.pid_file == Some(found.pid_file) && forall|
        dir: Seq<char>,
        name: Seq<char>,
    | #[trigger]
        path::splits(dir, name, instance.spec.config_path@) ==> found.runtime_dir is Some
            && found.runtime_dir->0@ == dir
}

/// Whether stopping begins with the given record, which is the one of the
/// instance.
pub open spec fn halts(
    before: Instance,
    record: Option<EpochRecord>,
    res: HaltView,
    timeout_ms: u64,
) -> bool {
    recorded_by(before, record) && res == halt::begin_halt(
        before.monitor.status.state is Stopped,
        record,
        timeout_ms,
    )
}

/// What the beginning of a stop leaves and leads to.
pub open spec fn stops(before: Instance, after: Instance, res: HaltView, timeout_ms: u64) -> bool {
    &&& after.epoch == before.epoch
    &&& after.spec == before.spec
    &&& after.controller == before.controller
    &&& stop_begun(before.monitor@, after.monitor@, before.monitor.status.state is Stopped)
    &&& exists|record: Option<EpochRecord>| halts(before, record, res, timeout_ms)
}

fn early_end_text(reason: &StopReason) -> (res: String)
    ensures
        res@ == early_end(*reason),
{
    match reason {
        StopReason::Error(message) => message.clone(),
        StopReason::Finished => "stopped before ready: Finished".to_owned(),
        StopReason::User => "stopped before ready: User".to_owned(),
    }
}

/// When a probe runs.
#[derive(Debug, Clone, Copy, PartialEq, Eq, Structural)]
pub enum ProbePhase {
    Readiness,
    Liveness,
    Reconcile,
}

/// What a probe found.
#[derive(Debug, PartialEq, Eq)]
pub enum ProbeResult {
    Healthy,
    Unhealthy { detail: Option<String> },
}

impl ProbeResult {
    /// Whether this is the finding that the core is unhealthy because of
    /// `detail`.
    pub open spec fn blames(self, detail: Seq<char>) -> bool {
        match self {
            ProbeResult::Unhealthy { detail: Some(text) } => text@ == detail,
            _ => false,
        }
    }

    /// Whether the core is healthy.
    pub fn is_healthy(&self) -> (res: bool)
        ensures
            res == (self is Healthy),
    {
        match self {
            ProbeResult::Healthy => true,
            ProbeResult::Unhealthy { .. } => false,
        }
    }
}

/// What answers a direct probe request without the instance: a phase other than
/// reconciliation is refused. None where the instance is to answer.
pub fn refuse_probe(phase: ProbePhase) -> (res: Option<ProbeResult>)
    ensures
        match res {
            None => phase == ProbePhase::Reconcile,
            Some(result) => phase != ProbePhase::Reconcile && result.blames(
                "only reconciliation probes can be requested directly"@,
            ),
        },
{
    if phase == ProbePhase::Reconcile {
        return None;
    }
    Some(
        ProbeResult::Unhealthy {
            detail: Some("only reconciliation probes can be requested directly".to_owned()),
        },
    )
}

/// What came of handing a reconciliation probe to the instance.
#[derive(Debug, PartialEq, Eq)]
pub enum ProbeReply {
    /// The monitor does not take requests any more.
    NotRunning,
    /// The request was taken and never answered.
    Dropped,
    Answered(ProbeResult),
}

/// The result of a direct probe.
pub fn probe_now(reply: ProbeReply) -> (res: ProbeResult)
    ensures
        match reply {
            ProbeReply::Answered(result) => res == result,
            ProbeReply::NotRunning => res.blames("instance probe monitor is not running"@),
            ProbeReply::Dropped => res.blames("instance probe driver stopped"@),
        },
{
    match reply {
        ProbeReply::NotRunning => ProbeResult::Unhealthy {
            detail: Some("instance probe monitor is not running".to_owned()),
        },
        ProbeReply::Dropped => ProbeResult::Unhealthy {
            detail: Some("instance probe driver stopped".to_owned()),
        },
        ProbeReply::Answered(result) => result,
    }
}

/// A record identifies the process of an epoch only beside the config of that
/// epoch: both names are the epoch's, in one directory. A process without a
/// record has none of either form.
pub proof fn a_record_belongs_to_its_epoch(
    pid_name: Option<Seq<char>>,
    config_name: Option<Seq<char>>,
    same_dir: bool,
    epoch: u64,
    pid_file: Option<String>,
    is_record: bool,
)
    ensures
        epoch_record(pid_name, config_name, same_dir, epoch) ==> same_dir && pid_name is Some
            && config_name is Some,
        epoch_record(
            Some(runtime_store::pid_name(epoch)),
            Some(runtime_store::config_name(epoch)),
            true,
            epoch,
        ),
        epoch_record(pid_name, config_name, same_dir, epoch) ==> pid_name->0
            == runtime_store::pid_name(epoch) && config_name->0 == runtime_store::config_name(
            epoch,
        ),
        recorded_as(pid_file, is_record) is Absent <==> pid_file is None,
        recorded_as(pid_file, is_record) is Epoch <==> pid_file is Some && is_record,
        recorded_as(pid_file, is_record) matches PidRecord::Epoch(path) ==> pid_file == Some(path),
        recorded_as(pid_file, is_record) matches PidRecord::Plain(path) ==> pid_file == Some(path),
{
}

/// An instance is probed in the way that was asked for last.
pub proof fn the_last_way_to_probe_counts<P>(builder: InstanceBuilder<P>)
    ensures
        builder.liveness_with_readiness <==> builder.liveness() is Readiness,
        !builder.liveness_with_readiness && builder.liveness_probe is Some ==> builder.liveness()
            == Liveness::Own(builder.liveness_probe->0),
        !builder.liveness_with_readiness && builder.liveness_probe is None ==> builder.liveness()
            is Unchecked,
{
}

/// A stop that was begun by the user shows at once, and ends as the user's
/// whatever the process exits with.
pub proof fn a_stop_is_the_users(
    before: MonitorView,
    after: MonitorView,
    exit: monitor::Exit,
    instant: u64,
    now: i64,
)
    requires
        stop_begun(before, after, false),
    ensures
        after.state is Stopping,
        after.health is None,
        after.current == before.current,
        ({
            let gone = after.after_event(monitor::SupervisorEvent::Exited(exit), instant, now).0;
            let end = gone.after_event(monitor::SupervisorEvent::Stopped, instant, now).0;
            end.state == InstanceStateView::Stopped(StopReasonView::User)
        }),
{
}

} // verus!
