//! Cross-epoch orchestration: start, stop, switch, apply, quarantine, and
//! status publication.
//!
//! The manager decides; whoever drives it performs. Each operation begins with
//! a call on [`CoreManager`] and goes on, one step at a time, in
//! [`CoreManager::advance`]: a [`Pending`] step names the [`Work`] to be done,
//! and the [`Report`] of that work leads to the next step or to the result.

pub mod advance;
pub mod apply;
pub mod setup;
pub mod laws;
pub mod publish;
pub mod prepare;
pub mod quarantine;
pub mod reconcile;
pub mod runs;
pub mod recovery;
pub mod start;
pub mod stop;
pub mod switching;

use crate::error::{Error, ErrorView};
use crate::kind::CoreKind;
use crate::share::share;
use crate::spec::{ControllerMode, InstanceSpec, ManagerOptions, ResolvedController};
use crate::state::{
    ConfigRevision, CoreStatus, CoreStatusView, HealthStatus, InstanceStatus, RevisionId,
};
use apply::ApplyStep;
use quarantine::{QuarantinedEpoch, QuarantinedEpochView};
use serde_yaml_ng::Mapping;
use start::StartStep;
use std::sync::Arc;
use stop::StopStep;
use switching::{GracefulStep, HardStep};
use vstd::prelude::*;

verus! {

/// Why a switch had to take the core down.
#[derive(Debug, Clone, Copy, PartialEq, Eq, Structural)]
pub enum DegradeReason {
    NotRunning,
    PassthroughMode,
    UnsupportedKind,
    DnsListen,
    InboundConflict,
    PatchFailed,
}

/// How a switch went.
#[derive(Debug, PartialEq, Eq)]
pub enum SwitchOutcome {
    Graceful,
    Hard { reason: DegradeReason },
    DurabilityUncertain { outcome: Box<SwitchOutcome>, warning: String },
}

/// The content of a [`SwitchOutcome`].
pub enum SwitchOutcomeView {
    Graceful,
    Hard { reason: DegradeReason },
    DurabilityUncertain { outcome: Box<SwitchOutcomeView>, warning: Seq<char> },
}

impl SwitchOutcome {
    /// The content of this outcome.
    pub open spec fn content(self) -> SwitchOutcomeView
        decreases self,
    {
        match self {
            SwitchOutcome::Graceful => SwitchOutcomeView::Graceful,
            SwitchOutcome::Hard { reason } => SwitchOutcomeView::Hard { reason },
            SwitchOutcome::DurabilityUncertain {
                outcome,
                warning,
            } => SwitchOutcomeView::DurabilityUncertain {
                outcome: Box::new((*outcome).content()),
                warning: warning@,
            },
        }
    }
}

/// How applying a config went.
#[derive(Debug, PartialEq, Eq)]
pub enum ApplyOutcome {
    Noop { revision: ConfigRevision },
    Patched { revision: ConfigRevision },
    Reloaded { revision: ConfigRevision },
    Restarted { revision: ConfigRevision },
    RolledBack { revision: ConfigRevision, failed_apply: String },
    DurabilityUncertain { outcome: Box<ApplyOutcome>, warning: String },
}

/// The content of an [`ApplyOutcome`].
pub enum ApplyOutcomeView {
    Noop { revision: ConfigRevision },
    Patched { revision: ConfigRevision },
    Reloaded { revision: ConfigRevision },
    Restarted { revision: ConfigRevision },
    RolledBack { revision: ConfigRevision, failed_apply: Seq<char> },
    DurabilityUncertain { outcome: Box<ApplyOutcomeView>, warning: Seq<char> },
}

impl ApplyOutcome {
    /// The content of this outcome.
    pub open spec fn content(self) -> ApplyOutcomeView
        decreases self,
    {
        match self {
            ApplyOutcome::Noop { revision } => ApplyOutcomeView::Noop { revision },
            ApplyOutcome::Patched { revision } => ApplyOutcomeView::Patched { revision },
            ApplyOutcome::Reloaded { revision } => ApplyOutcomeView::Reloaded { revision },
            ApplyOutcome::Restarted { revision } => ApplyOutcomeView::Restarted { revision },
            ApplyOutcome::RolledBack { revision, failed_apply } => ApplyOutcomeView::RolledBack {
                revision,
                failed_apply: failed_apply@,
            },
            ApplyOutcome::DurabilityUncertain {
                outcome,
                warning,
            } => ApplyOutcomeView::DurabilityUncertain {
                outcome: Box::new((*outcome).content()),
                warning: warning@,
            },
        }
    }
}

/// What keeps two epochs of a config from running side by side.
#[derive(Debug, Clone, Copy, PartialEq, Eq, Structural)]
pub enum OverlapBlock {
    DnsListen,
    InboundSurface,
}

/// How far a new config is from the running one.
#[derive(Debug, Clone, Copy, PartialEq, Eq, Structural)]
pub enum ConfigChange {
    Noop,
    Patch,
    Reload,
    Switch,
}

/// The reason, if any, for which a switch cannot be graceful.
pub open spec fn degrade_reason(
    managed: bool,
    kind: CoreKind,
    overlap_block: Option<OverlapBlock>,
) -> Option<DegradeReason> {
    if !managed {
        Some(DegradeReason::PassthroughMode)
    } else if kind != CoreKind::Mihomo {
        Some(DegradeReason::UnsupportedKind)
    } else {
        match overlap_block {
            Some(OverlapBlock::DnsListen) => Some(DegradeReason::DnsListen),
            Some(OverlapBlock::InboundSurface) => Some(DegradeReason::InboundConflict),
            None => None,
        }
    }
}

/// The reason, if any, for which a switch cannot be graceful.
pub fn graceful_degrade_reason(
    managed: bool,
    kind: CoreKind,
    overlap_block: Option<OverlapBlock>,
) -> (res: Option<DegradeReason>)
    ensures
        res == degrade_reason(managed, kind, overlap_block),
        res is None <==> managed && kind == CoreKind::Mihomo && overlap_block is None,
{
    if !managed {
        return Some(DegradeReason::PassthroughMode);
    }
    if kind != CoreKind::Mihomo {
        return Some(DegradeReason::UnsupportedKind);
    }
    match overlap_block {
        Some(OverlapBlock::DnsListen) => Some(DegradeReason::DnsListen),
        Some(OverlapBlock::InboundSurface) => Some(DegradeReason::InboundConflict),
        None => None,
    }
}

/// Everything that belongs to one epoch: the spec it was asked for, the spec
/// its instance runs with, its controller, its config revision and documents.
#[derive(Debug)]
pub struct Launch {
    pub source_spec: Arc<InstanceSpec>,
    pub effective_spec: Arc<InstanceSpec>,
    pub controller: ResolvedController,
    pub revision: ConfigRevision,
    pub source_document: Arc<Mapping>,
    pub effective_document: Arc<Mapping>,
}

impl Clone for Launch {
    fn clone(&self) -> (res: Self)
        ensures
            res == *self,
    {
        Launch {
            source_spec: share(&self.source_spec),
            effective_spec: share(&self.effective_spec),
            controller: self.controller.clone(),
            revision: self.revision.clone(),
            source_document: share(&self.source_document),
            effective_document: share(&self.effective_document),
        }
    }
}

/// What is known of an instance once it is ready.
#[derive(Debug, PartialEq, Eq)]
pub struct Readiness {
    pub pid: Option<u32>,
    pub health: Option<HealthStatus>,
}

/// What the driver sees at the moment of a call: the time, and the status of
/// the instance that the manager holds (ignored where it holds none).
#[derive(Debug, PartialEq, Eq)]
pub struct Observed {
    pub now: i64,
    pub current: InstanceStatus,
}

/// Work that the driver performs for the manager.
#[derive(Debug)]
pub enum Work {
    /// Stop the instance of `epoch` and confirm that it is dead.
    Stop { epoch: u64 },
    /// Remove the runtime artifacts of `epoch`.
    Cleanup { epoch: u64 },
    /// Read the config that `spec` names.
    Load { spec: Arc<InstanceSpec> },
    /// Derive, check and install the runtime config of a new epoch.
    Prepare { spec: Arc<InstanceSpec>, epoch: u64 },
    /// As `Prepare`, with a bootstrap config that can run beside the old epoch.
    PrepareGraceful { spec: Arc<InstanceSpec>, epoch: u64 },
    /// Derive, check and stage the next generation of the current epoch.
    PrepareApply { spec: Arc<InstanceSpec> },
    /// Spawn an instance.
    Spawn { spec: Arc<InstanceSpec>, epoch: u64, controller: ResolvedController },
    /// Wait until the instance of `epoch` is ready.
    AwaitReady { epoch: u64 },
    /// Back up the runtime config of `epoch` before `generation` replaces it.
    Backup { epoch: u64, generation: u64 },
    /// Replace the runtime config of `epoch` with the staged one.
    CommitReplace { epoch: u64 },
    /// Bring the running instance of `epoch` to the committed config.
    Reconcile { epoch: u64, change: ConfigChange },
    /// Put the backup back.
    Restore { epoch: u64 },
    /// Remove the backup.
    RemoveBackup { epoch: u64 },
}

/// What came of a piece of [`Work`].
#[derive(Debug)]
pub enum Report {
    Stopped(Result<(), Error>),
    Cleaned(Result<(), Error>),
    Loaded(Result<Option<OverlapBlock>, Error>),
    Prepared(Result<Launch, Error>),
    ApplyPrepared(Result<(Launch, ConfigChange), Error>),
    Spawned(Result<(), Error>),
    Ready(Result<Readiness, Error>),
    BackedUp(Result<(), Error>),
    /// The warning, if the replacement may not be durable.
    Committed(Result<Option<String>, Error>),
    /// `None` where the instance could not be brought to the new config.
    Reconciled(Option<Readiness>),
    Restored(Result<Option<String>, Error>),
    BackupRemoved(Result<(), Error>),
}

/// What follows once the artifacts of a failed epoch have been discarded.
#[derive(Debug, Clone, Copy, PartialEq, Eq, Structural)]
pub enum Ending {
    /// Publish the error: nothing runs any more.
    Terminal,
    /// Publish the state of the instance that was kept.
    Republish,
    /// Quarantine `epoch`.
    Quarantine { epoch: u64 },
    /// Publish that applying failed, as the old epoch could not be stopped.
    SwitchStopFailed,
}

/// A step that waits for the report of its work.
#[derive(Debug)]
pub enum Pending {
    Start(StartStep),
    /// A switch of a running core waits for the new config.
    SwitchLoad { spec: Arc<InstanceSpec> },
    Hard(HardStep),
    Graceful(GracefulStep),
    Apply(ApplyStep),
    Stop(StopStep),
    /// The artifacts of `epoch` are discarded before the error is returned.
    Discard { epoch: u64, error: Error, ending: Ending, warning: Option<String> },
}

/// What an operation gives.
#[derive(Debug, PartialEq, Eq)]
pub enum Outcome {
    Started,
    Switched(SwitchOutcome),
    Applied(ApplyOutcome),
    Stopped,
}

/// The content of an [`Outcome`].
pub enum OutcomeView {
    Started,
    Switched(SwitchOutcomeView),
    Applied(ApplyOutcomeView),
    Stopped,
}

impl View for Outcome {
    type V = OutcomeView;

    open spec fn view(&self) -> OutcomeView {
        match *self {
            Outcome::Started => OutcomeView::Started,
            Outcome::Switched(outcome) => OutcomeView::Switched(outcome.content()),
            Outcome::Applied(outcome) => OutcomeView::Applied(outcome.content()),
            Outcome::Stopped => OutcomeView::Stopped,
        }
    }
}

/// Where an operation stands after a call.
#[derive(Debug)]
pub enum Progress {
    Continue(Pending),
    Finished(Result<Outcome, Error>),
}

/// The content of a [`Progress`].
pub enum ProgressView {
    Continue(Pending),
    Finished(Result<OutcomeView, ErrorView>),
}

impl View for Progress {
    type V = ProgressView;

    open spec fn view(&self) -> ProgressView {
        match *self {
            Progress::Continue(pending) => ProgressView::Continue(pending),
            Progress::Finished(Ok(outcome)) => ProgressView::Finished(Ok(outcome@)),
            Progress::Finished(Err(error)) => ProgressView::Finished(Err(error@)),
        }
    }
}

/// The core manager: the epoch it runs, what it remembers, and what it has
/// published.
#[derive(Debug)]
pub struct CoreManager {
    pub options: ManagerOptions,
    pub current: Option<Launch>,
    pub last_spec: Option<Arc<InstanceSpec>>,
    pub quarantine: Vec<QuarantinedEpoch>,
    pub status: CoreStatus,
    /// The last epoch number that was handed out.
    pub epoch: u64,
    /// Counts the publications of the status, modulo its width.
    pub publications: u64,
}

/// The content of a [`CoreManager`].
#[verifier::ext_equal]
pub struct ManagerView {
    pub options: ManagerOptions,
    pub current: Option<Launch>,
    pub last_spec: Option<Arc<InstanceSpec>>,
    pub quarantine: Seq<QuarantinedEpochView>,
    pub status: CoreStatusView,
    pub epoch: u64,
    pub publications: u64,
}

impl View for CoreManager {
    type V = ManagerView;

    open spec fn view(&self) -> ManagerView {
        ManagerView {
            options: self.options,
            current: self.current,
            last_spec: self.last_spec,
            quarantine: quarantine::entries(self.quarantine@),
            status: self.status@,
            epoch: self.epoch,
            publications: self.publications,
        }
    }
}

impl ManagerView {
    /// Whether the manager holds an instance that has not ended.
    pub open spec fn running(self, seen: Observed) -> bool {
        self.current is Some && !(seen.current.state is Stopped)
    }

    /// Whether `pending` can be a step of this manager: the manager holds a
    /// current epoch exactly in the steps that leave it in place.
    pub open spec fn awaits(self, pending: Pending) -> bool {
        (self.current is Some) == pending.keeps_current()
    }
}

impl Pending {
    /// Whether the manager holds a current epoch while this step is pending.
    pub open spec fn keeps_current(self) -> bool {
        match self {
            Pending::Start(_) => false,
            Pending::SwitchLoad { .. } => true,
            Pending::Hard(step) => step is Prepare,
            Pending::Graceful(step) => step is Prepare || step is Spawn || step is AwaitReady
                || step is StopRejected || step is CleanOld,
            Pending::Apply(step) => step.keeps_current(),
            Pending::Stop(_) => false,
            Pending::Discard { ending, .. } => ending == Ending::Republish,
        }
    }
}

impl CoreManager {
    /// Whether the manager holds an instance that has not ended.
    pub fn is_running(&self, seen: &Observed) -> (res: bool)
        ensures
            res == self@.running(*seen),
    {
        self.current.is_some() && !seen.current.state.is_terminal()
    }

    fn is_managed(&self) -> (res: bool)
        ensures
            res == (self.options.controller_mode is Managed),
    {
        match &self.options.controller_mode {
            ControllerMode::Managed { .. } => true,
            ControllerMode::Passthrough => false,
        }
    }

    /// The published status.
    pub fn status(&self) -> (res: CoreStatus)
        ensures
            res == self.status,
    {
        self.status.clone()
    }

    /// Hands out the next epoch number.
    pub(crate) fn next_epoch(&mut self) -> (res: u64)
        requires
            old(self).epoch < u64::MAX,
        ensures
            res == old(self).epoch + 1,
            final(self).options == old(self).options,
            final(self)@ == (ManagerView { epoch: res, ..old(self)@ }),
    {
        self.epoch = self.epoch + 1;
        self.epoch
    }
}

} // verus!
