//! Steps of every operation: the work that each waits for, and what its report
//! leads to.

use super::{
    CoreManager, Ending, Launch, ManagerView, Observed, Pending, Progress, ProgressView, Report,
    Work,
};
use crate::error::{Error, ErrorView};
use crate::manager::apply;
use crate::manager::apply::{ApplyStep, Replace};
use crate::manager::publish;
use crate::manager::quarantine;
use crate::manager::start::StartStep;
use crate::manager::stop::StopStep;
use crate::manager::switching::{GracefulStep, HardStep};
use crate::manager::ConfigChange;
use crate::share::share;
use vstd::prelude::*;

verus! {

/// The work of spawning the instance of `launch`.
pub open spec fn spawning(launch: Launch) -> Work {
    Work::Spawn {
        spec: launch.effective_spec,
        epoch: launch.revision.epoch,
        controller: launch.controller,
    }
}

fn spawn_work(launch: &Launch) -> (res: Work)
    ensures
        res == spawning(*launch),
{
    Work::Spawn {
        spec: share(&launch.effective_spec),
        epoch: launch.revision.epoch,
        controller: launch.controller.clone(),
    }
}

impl Pending {
    /// The work that this step waits for.
    pub open spec fn awaited(self) -> Work {
        match self {
            Pending::Start(step) => match step {
                StartStep::StopStale { epoch, .. } => Work::Stop { epoch },
                StartStep::CleanStale { epoch, .. } => Work::Cleanup { epoch },
                StartStep::Load { spec, .. } => Work::Load { spec },
                StartStep::Prepare { epoch, spec, .. } => Work::Prepare { spec, epoch },
                StartStep::Spawn { launch, .. } => spawning(launch),
                StartStep::AwaitReady { launch, .. } => Work::AwaitReady {
                    epoch: launch.revision.epoch,
                },
                StartStep::StopRejected { epoch, .. } => Work::Stop { epoch },
            },
            Pending::SwitchLoad { spec } => Work::Load { spec },
            Pending::Hard(step) => match step {
                HardStep::Prepare { epoch, spec, .. } => Work::Prepare { spec, epoch },
                HardStep::StopOld { old_epoch, .. } => Work::Stop { epoch: old_epoch },
                HardStep::CleanOld { old_epoch, .. } => Work::Cleanup { epoch: old_epoch },
            },
            Pending::Graceful(step) => match step {
                GracefulStep::Prepare { epoch, spec } => Work::PrepareGraceful { spec, epoch },
                GracefulStep::Spawn { launch } => spawning(launch),
                GracefulStep::AwaitReady { launch } => Work::AwaitReady {
                    epoch: launch.revision.epoch,
                },
                GracefulStep::StopRejected { epoch, .. } => Work::Stop { epoch },
                GracefulStep::StopOld { old_epoch, .. } => Work::Stop { epoch: old_epoch },
                GracefulStep::StopBoth { epoch, .. } => Work::Stop { epoch },
                GracefulStep::Commit { launch, .. } => Work::CommitReplace {
                    epoch: launch.revision.epoch,
                },
                GracefulStep::StopUncommitted { epoch, .. } => Work::Stop { epoch },
                GracefulStep::Reconcile { launch, .. } => Work::Reconcile {
                    epoch: launch.revision.epoch,
                    change: ConfigChange::Patch,
                },
                GracefulStep::StopUnreconciled { launch, .. } => Work::Stop {
                    epoch: launch.revision.epoch,
                },
                GracefulStep::Respawn { launch, .. } => spawning(launch),
                GracefulStep::AwaitReplacement { launch, .. } => Work::AwaitReady {
                    epoch: launch.revision.epoch,
                },
                GracefulStep::StopReplacement { epoch, .. } => Work::Stop { epoch },
                GracefulStep::CleanOld { old_epoch, .. } => Work::Cleanup { epoch: old_epoch },
            },
            Pending::Apply(step) => match step {
                ApplyStep::Load { spec } => Work::Load { spec },
                ApplyStep::Prepare { spec } => Work::PrepareApply { spec },
                ApplyStep::SwitchPrepare { epoch, spec } => Work::Prepare { spec, epoch },
                ApplyStep::Backup { epoch, desired, .. } => Work::Backup {
                    epoch,
                    generation: desired.revision.generation,
                },
                ApplyStep::Commit { desired, .. } => Work::CommitReplace {
                    epoch: desired.revision.epoch,
                },
                ApplyStep::Abandon { epoch, .. } => Work::RemoveBackup { epoch },
                ApplyStep::Reconcile { desired, change, .. } => Work::Reconcile {
                    epoch: desired.revision.epoch,
                    change,
                },
                ApplyStep::Settle { revision, .. } => Work::RemoveBackup { epoch: revision.epoch },
                ApplyStep::StopOld { former, .. } => Work::Stop { epoch: former.revision.epoch },
                ApplyStep::SpawnDesired { desired, .. } => spawning(desired),
                ApplyStep::AwaitDesired { desired, .. } => Work::AwaitReady {
                    epoch: desired.revision.epoch,
                },
                ApplyStep::StopDesired { desired, .. } => Work::Stop {
                    epoch: desired.revision.epoch,
                },
                ApplyStep::Retire { revision, old_epoch, how, .. } => match how {
                    Replace::Restart => Work::RemoveBackup { epoch: revision.epoch },
                    Replace::Switch => Work::Cleanup { epoch: old_epoch },
                },
                ApplyStep::Restore { former, .. } => Work::Restore { epoch: former.revision.epoch },
                ApplyStep::CleanDesired { epoch, .. } => Work::Cleanup { epoch },
                ApplyStep::SpawnRollback { former, .. } => spawning(former),
                ApplyStep::AwaitRollback { former, .. } => Work::AwaitReady {
                    epoch: former.revision.epoch,
                },
                ApplyStep::StopRollback { former, .. } => Work::Stop { epoch: former.revision.epoch },
                ApplyStep::SettleRollback { revision, .. } => Work::RemoveBackup {
                    epoch: revision.epoch,
                },
            },
            Pending::Stop(step) => match step {
                StopStep::StopEnded { epoch } => Work::Stop { epoch },
                StopStep::CleanEnded { epoch } => Work::Cleanup { epoch },
                StopStep::StopActive { epoch } => Work::Stop { epoch },
                StopStep::CleanActive { epoch } => Work::Cleanup { epoch },
            },
            Pending::Discard { epoch, .. } => Work::Cleanup { epoch },
        }
    }

    /// The work that this step waits for.
    pub fn work(&self) -> (res: Work)
        ensures
            res == self.awaited(),
    {
        match self {
            Pending::Start(step) => match step {
                StartStep::StopStale { epoch, .. } => Work::Stop { epoch: *epoch },
                StartStep::CleanStale { epoch, .. } => Work::Cleanup { epoch: *epoch },
                StartStep::Load { spec, .. } => Work::Load { spec: share(spec) },
                StartStep::Prepare { epoch, spec, .. } => Work::Prepare {
                    spec: share(spec),
                    epoch: *epoch,
                },
                StartStep::Spawn { launch, .. } => spawn_work(launch),
                StartStep::AwaitReady { launch, .. } => Work::AwaitReady {
                    epoch: launch.revision.epoch,
                },
                StartStep::StopRejected { epoch, .. } => Work::Stop { epoch: *epoch },
            },
            Pending::SwitchLoad { spec } => Work::Load { spec: share(spec) },
            Pending::Hard(step) => match step {
                HardStep::Prepare { epoch, spec, .. } => Work::Prepare {
                    spec: share(spec),
                    epoch: *epoch,
                },
                HardStep::StopOld { old_epoch, .. } => Work::Stop { epoch: *old_epoch },
                HardStep::CleanOld { old_epoch, .. } => Work::Cleanup { epoch: *old_epoch },
            },
            Pending::Graceful(step) => match step {
                GracefulStep::Prepare { epoch, spec } => Work::PrepareGraceful {
                    spec: share(spec),
                    epoch: *epoch,
                },
                GracefulStep::Spawn { launch } => spawn_work(launch),
                GracefulStep::AwaitReady { launch } => Work::AwaitReady {
                    epoch: launch.revision.epoch,
                },
                GracefulStep::StopRejected { epoch, .. } => Work::Stop { epoch: *epoch },
                GracefulStep::StopOld { old_epoch, .. } => Work::Stop { epoch: *old_epoch },
                GracefulStep::StopBoth { epoch, .. } => Work::Stop { epoch: *epoch },
                GracefulStep::Commit { launch, .. } => Work::CommitReplace {
                    epoch: launch.revision.epoch,
                },
                GracefulStep::StopUncommitted { epoch, .. } => Work::Stop { epoch: *epoch },
                GracefulStep::Reconcile { launch, .. } => Work::Reconcile {
                    epoch: launch.revision.epoch,
                    change: ConfigChange::Patch,
                },
                GracefulStep::StopUnreconciled { launch, .. } => Work::Stop {
                    epoch: launch.revision.epoch,
                },
                GracefulStep::Respawn { launch, .. } => spawn_work(launch),
                GracefulStep::AwaitReplacement { launch, .. } => Work::AwaitReady {
                    epoch: launch.revision.epoch,
                },
                GracefulStep::StopReplacement { epoch, .. } => Work::Stop { epoch: *epoch },
                GracefulStep::CleanOld { old_epoch, .. } => Work::Cleanup { epoch: *old_epoch },
            },
            Pending::Apply(step) => match step {
                ApplyStep::Load { spec } => Work::Load { spec: share(spec) },
                ApplyStep::Prepare { spec } => Work::PrepareApply { spec: share(spec) },
                ApplyStep::SwitchPrepare { epoch, spec } => Work::Prepare {
                    spec: share(spec),
                    epoch: *epoch,
                },
                ApplyStep::Backup { epoch, desired, .. } => Work::Backup {
                    epoch: *epoch,
                    generation: desired.revision.generation,
                },
                ApplyStep::Commit { desired, .. } => Work::CommitReplace {
                    epoch: desired.revision.epoch,
                },
                ApplyStep::Abandon { epoch, .. } => Work::RemoveBackup { epoch: *epoch },
                ApplyStep::Reconcile { desired, change, .. } => Work::Reconcile {
                    epoch: desired.revision.epoch,
                    change: *change,
                },
                ApplyStep::Settle { revision, .. } => Work::RemoveBackup { epoch: revision.epoch },
                ApplyStep::StopOld { former, .. } => Work::Stop {
                    epoch: former.revision.epoch,
                },
                ApplyStep::SpawnDesired { desired, .. } => spawn_work(desired),
                ApplyStep::AwaitDesired { desired, .. } => Work::AwaitReady {
                    epoch: desired.revision.epoch,
                },
                ApplyStep::StopDesired { desired, .. } => Work::Stop {
                    epoch: desired.revision.epoch,
                },
                ApplyStep::Retire { revision, old_epoch, how, .. } => match how {
                    Replace::Restart => Work::RemoveBackup { epoch: revision.epoch },
                    Replace::Switch => Work::Cleanup { epoch: *old_epoch },
                },
                ApplyStep::Restore { former, .. } => Work::Restore {
                    epoch: former.revision.epoch,
                },
                ApplyStep::CleanDesired { epoch, .. } => Work::Cleanup { epoch: *epoch },
                ApplyStep::SpawnRollback { former, .. } => spawn_work(former),
                ApplyStep::AwaitRollback { former, .. } => Work::AwaitReady {
                    epoch: former.revision.epoch,
                },
                ApplyStep::StopRollback { former, .. } => Work::Stop {
                    epoch: former.revision.epoch,
                },
                ApplyStep::SettleRollback { revision, .. } => Work::RemoveBackup {
                    epoch: revision.epoch,
                },
            },
            Pending::Stop(step) => match step {
                StopStep::StopEnded { epoch } => Work::Stop { epoch: *epoch },
                StopStep::CleanEnded { epoch } => Work::Cleanup { epoch: *epoch },
                StopStep::StopActive { epoch } => Work::Stop { epoch: *epoch },
                StopStep::CleanActive { epoch } => Work::Cleanup { epoch: *epoch },
            },
            Pending::Discard { epoch, .. } => Work::Cleanup { epoch: *epoch },
        }
    }
}

impl ManagerView {
    /// What follows once the artifacts of a failed epoch have been discarded,
    /// whether or not that went well.
    pub open spec fn discarded(
        self,
        error: Error,
        ending: Ending,
        warning: Option<String>,
        seen: Observed,
    ) -> (ManagerView, ProgressView) {
        match ending {
            Ending::Terminal => (
                self.failed(error@, seen.now),
                ProgressView::Finished(Err(publish::uncertain(error@, warning))),
            ),
            Ending::Republish => (
                self.republished(seen),
                ProgressView::Finished(Err(publish::uncertain(error@, warning))),
            ),
            Ending::Quarantine { epoch } => (
                self.latched(epoch, error@, seen.now),
                ProgressView::Finished(Err(publish::uncertain(error@, warning))),
            ),
            Ending::SwitchStopFailed => {
                let refused = apply::stop_refused(Replace::Switch, error@);
                (
                    self.failed(refused, seen.now),
                    ProgressView::Finished(Err(publish::uncertain(refused, warning))),
                )
            },
        }
    }

    /// What follows a report to a pending step.
    pub open spec fn advanced(self, pending: Pending, report: Report, seen: Observed) -> (
        ManagerView,
        ProgressView,
    ) {
        match pending {
            Pending::Start(step) => self.start_advanced(step, report, seen),
            Pending::SwitchLoad { spec } => self.switch_loaded(spec, report),
            Pending::Hard(step) => self.hard_advanced(step, report, seen),
            Pending::Graceful(step) => self.graceful_advanced(step, report, seen),
            Pending::Apply(step) => self.apply_advanced(step, report, seen),
            Pending::Stop(step) => self.stop_advanced(step, report, seen),
            Pending::Discard { error, ending, warning, .. } => if report is Cleaned {
                self.discarded(error, ending, warning, seen)
            } else {
                (self, ProgressView::Continue(pending))
            },
        }
    }
}

impl CoreManager {
    fn finish_discard(
        &mut self,
        error: Error,
        ending: Ending,
        warning: Option<String>,
        seen: &Observed,
    ) -> (res: Progress)
        ensures
            final(self).options == old(self).options,
            (final(self)@, res@) == old(self)@.discarded(error, ending, warning, *seen),
    {
        match ending {
            Ending::Terminal => {
                self.publish_terminal_error(&error, seen.now);
                Progress::Finished(Err(publish::with_durability_error(error, warning)))
            },
            Ending::Republish => {
                self.republish_retained(seen);
                Progress::Finished(Err(publish::with_durability_error(error, warning)))
            },
            Ending::Quarantine { epoch } => {
                self.latch_quarantine(epoch, &error, seen.now);
                Progress::Finished(Err(publish::with_durability_error(error, warning)))
            },
            Ending::SwitchStopFailed => {
                let refused: Error = apply::stop_refusal(Replace::Switch, &error);
                self.publish_terminal_error(&refused, seen.now);
                Progress::Finished(Err(publish::with_durability_error(refused, warning)))
            },
        }
    }

    /// Takes the report of the work that `pending` waits for, and tells what
    /// comes next. A report of other work is ignored: the step goes on waiting.
    #[verifier::rlimit(40)]
    pub fn advance(&mut self, pending: Pending, report: Report, seen: &Observed) -> (res: Progress)
        requires
            old(self).epoch < u64::MAX,
            old(self)@.awaits(pending),
        ensures
            final(self).options == old(self).options,
            (final(self)@, res@) == old(self)@.advanced(pending, report, *seen),
            res matches Progress::Continue(next) ==> final(self)@.awaits(next),
    {
        match pending {
            Pending::Start(step) => self.advance_start(step, report, seen),
            Pending::SwitchLoad { spec } => self.advance_switch_load(spec, report),
            Pending::Hard(step) => self.advance_hard(step, report, seen),
            Pending::Graceful(step) => self.advance_graceful(step, report, seen),
            Pending::Apply(step) => self.advance_apply(step, report, seen),
            Pending::Stop(step) => self.advance_stop(step, report, seen),
            Pending::Discard { epoch, error, ending, warning } => match report {
                Report::Cleaned(_) => self.finish_discard(error, ending, warning, seen),
                _ => Progress::Continue(Pending::Discard { epoch, error, ending, warning }),
            },
        }
    }
}

/// What is discarded ends its operation with its error, and as that demands: the
/// old core is shown again, the end is shown, or the epoch is quarantined. A
/// warning goes along.
pub proof fn a_discard_ends_with_its_error(
    m: ManagerView,
    epoch: u64,
    error: Error,
    ending: Ending,
    warning: Option<String>,
    cleaned: Result<(), Error>,
    seen: Observed,
)
    ensures
        ({
            let (end, progress) = m.advanced(
                Pending::Discard { epoch, error, ending, warning },
                Report::Cleaned(cleaned),
                seen,
            );
            &&& progress is Finished && progress->Finished_0 is Err
            &&& warning is None && !(ending is SwitchStopFailed) ==> progress->Finished_0->Err_0
                == error@
            &&& warning is None && ending is SwitchStopFailed ==> progress->Finished_0->Err_0
                is ApplyFailed
            &&& warning matches Some(told) ==> progress->Finished_0->Err_0 is DurabilityUncertain
                && progress->Finished_0->Err_0->DurabilityUncertain_warning == told@
            &&& warning is Some && !(ending is SwitchStopFailed)
                ==> *progress->Finished_0->Err_0->source == error@
            &&& end.current == m.current && end.epoch == m.epoch && end.last_spec == m.last_spec
            &&& ending is Terminal || ending is SwitchStopFailed ==> end.status.state is Stopped
                && end.status.revision is None && end.quarantine == m.quarantine
            &&& ending is Republish && m.current is Some ==> end.status.revision == Some(
                m.current->0.revision,
            ) && end.status.health == seen.current.health && end.quarantine == m.quarantine
            &&& ending is Republish && m.current is None ==> end == m
            &&& ending matches Ending::Quarantine { epoch: uncertain } ==> quarantine::holds(
                end.quarantine,
                uncertain,
            ) && end.refusal() is Some && end.status.state is Stopped
        }),
{
    if let Ending::Quarantine { epoch: uncertain } = ending {
        quarantine::recording_only_adds_its_epoch(m.quarantine, uncertain, error@.text());
    }
}

} // verus!
