//! Switching from a running epoch to a new one.

use super::{
    graceful_degrade_reason, CoreManager, DegradeReason, Ending, Launch, ManagerView, Observed,
    Outcome, OutcomeView, Pending, Progress, ProgressView, Readiness, Report, SwitchOutcome,
    SwitchOutcomeView,
};
use crate::error::{Error, ErrorView};
use crate::manager;
use crate::manager::start::StartGoal;
use crate::manager::{publish, quarantine};
use crate::share::share;
use crate::spec::InstanceSpec;
use crate::state::{CoreState, CoreStateView};
use std::sync::Arc;
use vstd::prelude::*;

verus! {

/// A step of a hard switch, which stops the old epoch before it starts the new
/// one.
#[derive(Debug)]
pub enum HardStep {
    /// The runtime config of the new epoch is prepared.
    Prepare { epoch: u64, spec: Arc<InstanceSpec>, reason: DegradeReason },
    /// The old instance is stopped.
    StopOld { launch: Launch, old_epoch: u64, reason: DegradeReason },
    /// The artifacts of the old epoch are removed.
    CleanOld { launch: Launch, old_epoch: u64, reason: DegradeReason },
}

/// A step of a graceful switch, which starts the new epoch from a bootstrap
/// config before it stops the old one.
#[derive(Debug)]
pub enum GracefulStep {
    /// The bootstrap and the full config of the new epoch are prepared.
    Prepare { epoch: u64, spec: Arc<InstanceSpec> },
    /// The new instance is spawned.
    Spawn { launch: Launch },
    /// The new instance becomes ready.
    AwaitReady { launch: Launch },
    /// The new instance did not become ready and is stopped.
    StopRejected { epoch: u64, error: Error },
    /// The old instance is stopped.
    StopOld { launch: Launch, old_epoch: u64 },
    /// The old instance could not be stopped, and the new one is stopped too.
    StopBoth { epoch: u64, old_epoch: u64, error: Error },
    /// The full config replaces the bootstrap one.
    Commit { launch: Launch, old_epoch: u64 },
    /// The full config could not be committed, and the new instance is stopped.
    StopUncommitted { epoch: u64, error: Error },
    /// The new instance is brought to the full config.
    Reconcile { launch: Launch, old_epoch: u64, warning: Option<String> },
    /// The new instance did not take the full config and is stopped.
    StopUnreconciled { launch: Launch, old_epoch: u64, warning: Option<String> },
    /// A replacement is spawned from the full config.
    Respawn { launch: Launch, old_epoch: u64, warning: Option<String> },
    /// The replacement becomes ready.
    AwaitReplacement { launch: Launch, old_epoch: u64, warning: Option<String> },
    /// The replacement did not become ready and is stopped.
    StopReplacement { epoch: u64, error: Error, warning: Option<String> },
    /// The artifacts of the old epoch are removed.
    CleanOld { old_epoch: u64, replaced: bool, warning: Option<String> },
}

/// That a replacement could neither be made ready nor stopped.
pub open spec fn replacement_unstopped(error: ErrorView, stop_error: ErrorView) -> ErrorView {
    publish::also_unstopped(error, "; failed to stop rejected replacement: "@, stop_error)
}

impl ManagerView {
    /// A request to switch to `spec` that no quarantine refused.
    pub open spec fn begin_switch_open(self, spec: Arc<InstanceSpec>, seen: Observed) -> (
        ManagerView,
        ProgressView,
    ) {
        if self.running(seen) {
            (self, ProgressView::Continue(Pending::SwitchLoad { spec }))
        } else {
            self.begin_fresh(spec, StartGoal::Switch { reason: DegradeReason::NotRunning })
        }
    }

    /// A request to switch to `spec`.
    pub open spec fn begin_switch(self, spec: Arc<InstanceSpec>, seen: Observed) -> (
        ManagerView,
        ProgressView,
    ) {
        match self.refusal() {
            Some(refusal) => (self, ProgressView::Finished(Err(refusal))),
            None => self.begin_switch_open(spec, seen),
        }
    }

    /// A request to restart with the spec that ran last.
    pub open spec fn begin_restart(self, seen: Observed) -> (ManagerView, ProgressView) {
        match self.refusal() {
            Some(refusal) => (self, ProgressView::Finished(Err(refusal))),
            None => match self.last_spec {
                Some(spec) => self.begin_switch_open(spec, seen),
                None => (self, ProgressView::Finished(Err(ErrorView::NotStarted))),
            },
        }
    }

    /// What follows the report on the config of a switch.
    pub open spec fn switch_loaded(self, spec: Arc<InstanceSpec>, report: Report) -> (
        ManagerView,
        ProgressView,
    ) {
        match report {
            Report::Loaded(Ok(block)) => {
                let epoch = (self.epoch + 1) as u64;
                (
                    ManagerView { epoch, ..self },
                    ProgressView::Continue(
                        match manager::degrade_reason(
                            self.options.controller_mode is Managed,
                            spec.core.kind,
                            block,
                        ) {
                            Some(reason) => Pending::Hard(
                                HardStep::Prepare { epoch, spec, reason },
                            ),
                            None => Pending::Graceful(GracefulStep::Prepare { epoch, spec }),
                        },
                    ),
                )
            },
            Report::Loaded(Err(error)) => (self, ProgressView::Finished(Err(error@))),
            _ => (self, ProgressView::Continue(Pending::SwitchLoad { spec })),
        }
    }

    /// An operation ends with `error` of `epoch`: quarantined if a process may
    /// still be alive, published as the end otherwise.
    pub open spec fn ended(self, epoch: u64, error: ErrorView, now: i64) -> ManagerView {
        if error is StopUnconfirmed {
            self.latched(epoch, error, now)
        } else {
            self.failed(error, now)
        }
    }

    /// What follows a report to a step of a hard switch. Any report other than
    /// the one that the step waits for changes nothing.
    pub open spec fn hard_advanced(self, step: HardStep, report: Report, seen: Observed) -> (
        ManagerView,
        ProgressView,
    ) {
        let now = seen.now;
        match (step, report) {
            (HardStep::Prepare { epoch, .. }, Report::Prepared(Err(error))) => (
                self,
                ProgressView::Continue(
                    Pending::Discard { epoch, error, ending: Ending::Republish, warning: None },
                ),
            ),
            (HardStep::Prepare { reason, .. }, Report::Prepared(Ok(launch))) => {
                let old_epoch = self.current->0.revision.epoch;
                (
                    (ManagerView { current: None, ..self }).announced(
                        launch,
                        CoreStateView::Switching {
                            from: Some(old_epoch),
                            to: launch.revision.epoch,
                        },
                        now,
                    ),
                    ProgressView::Continue(
                        Pending::Hard(HardStep::StopOld { launch, old_epoch, reason }),
                    ),
                )
            },
            (HardStep::StopOld { launch, old_epoch, .. }, Report::Stopped(Err(error))) => (
                self,
                ProgressView::Continue(
                    Pending::Discard {
                        epoch: launch.revision.epoch,
                        error,
                        ending: if error is StopUnconfirmed {
                            Ending::Quarantine { epoch: old_epoch }
                        } else {
                            Ending::Terminal
                        },
                        warning: None,
                    },
                ),
            ),
            (HardStep::StopOld { launch, old_epoch, reason }, Report::Stopped(Ok(_))) => (
                self,
                ProgressView::Continue(
                    Pending::Hard(HardStep::CleanOld { launch, old_epoch, reason }),
                ),
            ),
            (HardStep::CleanOld { .. }, Report::Cleaned(Err(error))) => (
                self.failed(error@, now),
                ProgressView::Finished(Err(error@)),
            ),
            (HardStep::CleanOld { launch, reason, .. }, Report::Cleaned(Ok(_))) => self.begin_spawn(
                launch,
                StartGoal::Switch { reason },
                now,
            ),
            (step, _) => (self, ProgressView::Continue(Pending::Hard(step))),
        }
    }

    /// A replacement failed with `error` and is dead unless the error says that
    /// nobody knows.
    pub open spec fn replacement_failed(
        self,
        epoch: u64,
        error: Error,
        warning: Option<String>,
        now: i64,
    ) -> (ManagerView, ProgressView) {
        if error is StopUnconfirmed {
            (
                self.latched(epoch, error@, now),
                ProgressView::Finished(Err(publish::uncertain(error@, warning))),
            )
        } else {
            (
                self,
                ProgressView::Continue(
                    Pending::Discard { epoch, error, ending: Ending::Terminal, warning },
                ),
            )
        }
    }

    /// What follows a report to a step of a graceful switch. Any report other
    /// than the one that the step waits for changes nothing.
    pub open spec fn graceful_advanced(self, step: GracefulStep, report: Report, seen: Observed) -> (
        ManagerView,
        ProgressView,
    ) {
        let now = seen.now;
        match (step, report) {
            (GracefulStep::Prepare { epoch, .. }, Report::Prepared(Err(error))) => (
                self,
                ProgressView::Continue(
                    Pending::Discard { epoch, error, ending: Ending::Republish, warning: None },
                ),
            ),
            (GracefulStep::Prepare { .. }, Report::Prepared(Ok(launch))) => (
                self.announced(
                    launch,
                    CoreStateView::Switching {
                        from: Some(self.current->0.revision.epoch),
                        to: launch.revision.epoch,
                    },
                    now,
                ),
                ProgressView::Continue(Pending::Graceful(GracefulStep::Spawn { launch })),
            ),
            (GracefulStep::Spawn { launch }, Report::Spawned(Err(error))) => (
                self,
                ProgressView::Continue(
                    Pending::Discard {
                        epoch: launch.revision.epoch,
                        error,
                        ending: Ending::Republish,
                        warning: None,
                    },
                ),
            ),
            (GracefulStep::Spawn { launch }, Report::Spawned(Ok(_))) => (
                self,
                ProgressView::Continue(Pending::Graceful(GracefulStep::AwaitReady { launch })),
            ),
            (GracefulStep::AwaitReady { launch }, Report::Ready(Err(error))) => (
                self,
                ProgressView::Continue(
                    Pending::Graceful(
                        GracefulStep::StopRejected { epoch: launch.revision.epoch, error },
                    ),
                ),
            ),
            (GracefulStep::AwaitReady { launch }, Report::Ready(Ok(_))) => (
                ManagerView { current: None, ..self },
                ProgressView::Continue(
                    Pending::Graceful(
                        GracefulStep::StopOld {
                            launch,
                            old_epoch: self.current->0.revision.epoch,
                        },
                    ),
                ),
            ),
            (GracefulStep::StopRejected { epoch, error }, Report::Stopped(Ok(_))) => (
                self,
                ProgressView::Continue(
                    Pending::Discard { epoch, error, ending: Ending::Republish, warning: None },
                ),
            ),
            (GracefulStep::StopRejected { epoch, error }, Report::Stopped(Err(stop_error))) => {
                let both = publish::also_unstopped(
                    error@,
                    "; failed to stop rejected graceful bootstrap: "@,
                    stop_error@,
                );
                (self.latched(epoch, both, now), ProgressView::Finished(Err(both)))
            },
            (GracefulStep::StopOld { launch, old_epoch }, Report::Stopped(Err(error))) => (
                self,
                ProgressView::Continue(
                    Pending::Graceful(
                        GracefulStep::StopBoth { epoch: launch.revision.epoch, old_epoch, error },
                    ),
                ),
            ),
            (GracefulStep::StopOld { launch, old_epoch }, Report::Stopped(Ok(_))) => (
                self,
                ProgressView::Continue(
                    Pending::Graceful(GracefulStep::Commit { launch, old_epoch }),
                ),
            ),
            (GracefulStep::StopBoth { epoch, old_epoch, error }, Report::Stopped(Ok(_))) => (
                self,
                ProgressView::Continue(
                    Pending::Discard {
                        epoch,
                        error,
                        ending: if error is StopUnconfirmed {
                            Ending::Quarantine { epoch: old_epoch }
                        } else {
                            Ending::Terminal
                        },
                        warning: None,
                    },
                ),
            ),
            (
                GracefulStep::StopBoth { epoch, old_epoch, error },
                Report::Stopped(Err(new_error)),
            ) => {
                let both = ErrorView::StopUnconfirmed(
                    "old epoch stop failed: "@ + error@.text()
                        + "; new bootstrap stop also failed: "@ + new_error@.text(),
                );
                let held = if error is StopUnconfirmed {
                    ManagerView {
                        quarantine: quarantine::recorded(
                            self.quarantine,
                            old_epoch,
                            error@.text(),
                        ),
                        ..self
                    }
                } else {
                    self
                };
                (held.latched(epoch, both, now), ProgressView::Finished(Err(both)))
            },
            (GracefulStep::Commit { launch, .. }, Report::Committed(Err(error))) => (
                self,
                ProgressView::Continue(
                    Pending::Graceful(
                        GracefulStep::StopUncommitted { epoch: launch.revision.epoch, error },
                    ),
                ),
            ),
            (GracefulStep::Commit { launch, old_epoch }, Report::Committed(Ok(warning))) => (
                self,
                ProgressView::Continue(
                    Pending::Graceful(GracefulStep::Reconcile { launch, old_epoch, warning }),
                ),
            ),
            (GracefulStep::StopUncommitted { epoch, error }, Report::Stopped(Ok(_))) => (
                self,
                ProgressView::Continue(
                    Pending::Discard {
                        epoch,
                        error,
                        ending: if error is StopUnconfirmed {
                            Ending::Quarantine { epoch }
                        } else {
                            Ending::Terminal
                        },
                        warning: None,
                    },
                ),
            ),
            (GracefulStep::StopUncommitted { epoch, error }, Report::Stopped(Err(new_error))) => {
                let both = ErrorView::StopUnconfirmed(
                    "full runtime commit failed: "@ + error@.text()
                        + "; bootstrap stop also failed: "@ + new_error@.text(),
                );
                (self.latched(epoch, both, now), ProgressView::Finished(Err(both)))
            },
            (
                GracefulStep::Reconcile { launch, old_epoch, warning },
                Report::Reconciled(Some(ready)),
            ) => (
                self.installed(launch, ready, now),
                ProgressView::Continue(
                    Pending::Graceful(
                        GracefulStep::CleanOld { old_epoch, replaced: false, warning },
                    ),
                ),
            ),
            (
                GracefulStep::Reconcile { launch, old_epoch, warning },
                Report::Reconciled(None),
            ) => (
                self,
                ProgressView::Continue(
                    Pending::Graceful(
                        GracefulStep::StopUnreconciled { launch, old_epoch, warning },
                    ),
                ),
            ),
            (
                GracefulStep::StopUnreconciled { launch, warning, .. },
                Report::Stopped(Err(error)),
            ) => (
                self.ended(launch.revision.epoch, error@, now),
                ProgressView::Finished(Err(publish::uncertain(error@, warning))),
            ),
            (
                GracefulStep::StopUnreconciled { launch, old_epoch, warning },
                Report::Stopped(Ok(_)),
            ) => (
                self,
                ProgressView::Continue(
                    Pending::Graceful(GracefulStep::Respawn { launch, old_epoch, warning }),
                ),
            ),
            (
                GracefulStep::Respawn { launch, warning, .. },
                Report::Spawned(Err(error)),
            ) => self.replacement_failed(launch.revision.epoch, error, warning, now),
            (GracefulStep::Respawn { launch, old_epoch, warning }, Report::Spawned(Ok(_))) => (
                self,
                ProgressView::Continue(
                    Pending::Graceful(
                        GracefulStep::AwaitReplacement { launch, old_epoch, warning },
                    ),
                ),
            ),
            (
                GracefulStep::AwaitReplacement { launch, warning, .. },
                Report::Ready(Err(error)),
            ) => (
                self,
                ProgressView::Continue(
                    Pending::Graceful(
                        GracefulStep::StopReplacement {
                            epoch: launch.revision.epoch,
                            error,
                            warning,
                        },
                    ),
                ),
            ),
            (
                GracefulStep::AwaitReplacement { launch, old_epoch, warning },
                Report::Ready(Ok(ready)),
            ) => (
                self.installed(launch, ready, now),
                ProgressView::Continue(
                    Pending::Graceful(
                        GracefulStep::CleanOld { old_epoch, replaced: true, warning },
                    ),
                ),
            ),
            (
                GracefulStep::StopReplacement { epoch, error, warning },
                Report::Stopped(Ok(_)),
            ) => self.replacement_failed(epoch, error, warning, now),
            (
                GracefulStep::StopReplacement { epoch, error, warning },
                Report::Stopped(Err(stop_error)),
            ) => {
                let both = replacement_unstopped(error@, stop_error@);
                (
                    self.latched(epoch, both, now),
                    ProgressView::Finished(Err(publish::uncertain(both, warning))),
                )
            },
            (GracefulStep::CleanOld { replaced, warning, .. }, Report::Cleaned(Ok(_))) => (
                self,
                ProgressView::Finished(
                    Ok(
                        OutcomeView::Switched(
                            publish::uncertain_switch(
                                if replaced {
                                    SwitchOutcomeView::Hard { reason: DegradeReason::PatchFailed }
                                } else {
                                    SwitchOutcomeView::Graceful
                                },
                                warning,
                            ),
                        ),
                    ),
                ),
            ),
            (GracefulStep::CleanOld { warning, .. }, Report::Cleaned(Err(error))) => (
                self,
                ProgressView::Finished(Err(publish::uncertain(error@, warning))),
            ),
            (step, _) => (self, ProgressView::Continue(Pending::Graceful(step))),
        }
    }
}

impl CoreManager {
    fn switch_locked(&mut self, spec: Arc<InstanceSpec>, seen: &Observed) -> (res: Progress)
        requires
            old(self).epoch < u64::MAX,
        ensures
            final(self).options == old(self).options,
            (final(self)@, res@) == old(self)@.begin_switch_open(spec, *seen),
    {
        if self.is_running(seen) {
            return Progress::Continue(Pending::SwitchLoad { spec });
        }
        self.begin_fresh(spec, StartGoal::Switch { reason: DegradeReason::NotRunning })
    }

    /// Switches to the core that `spec` describes. Refused while a process is
    /// in quarantine.
    pub fn switch(&mut self, spec: Arc<InstanceSpec>, seen: &Observed) -> (res: Progress)
        requires
            old(self).epoch < u64::MAX,
        ensures
            final(self).options == old(self).options,
            (final(self)@, res@) == old(self)@.begin_switch(spec, *seen),
            res matches Progress::Continue(next) ==> final(self)@.awaits(next),
    {
        match self.quarantine_error() {
            Some(error) => {
                return Progress::Finished(Err(error));
            },
            None => {},
        }
        self.switch_locked(spec, seen)
    }

    /// Restarts the core with the spec that ran last. Refused while a process
    /// is in quarantine.
    pub fn restart(&mut self, seen: &Observed) -> (res: Progress)
        requires
            old(self).epoch < u64::MAX,
        ensures
            final(self).options == old(self).options,
            (final(self)@, res@) == old(self)@.begin_restart(*seen),
            res matches Progress::Continue(next) ==> final(self)@.awaits(next),
    {
        match self.quarantine_error() {
            Some(error) => {
                return Progress::Finished(Err(error));
            },
            None => {},
        }
        let spec: Arc<InstanceSpec> = match &self.last_spec {
            Some(spec) => share(spec),
            None => {
                return Progress::Finished(Err(Error::NotStarted));
            },
        };
        self.switch_locked(spec, seen)
    }

    /// Goes on with a switch of a running core once its config has been read.
    pub(crate) fn advance_switch_load(&mut self, spec: Arc<InstanceSpec>, report: Report) -> (res:
        Progress)
        requires
            old(self).epoch < u64::MAX,
        ensures
            final(self).options == old(self).options,
            (final(self)@, res@) == old(self)@.switch_loaded(spec, report),
    {
        match report {
            Report::Loaded(Ok(block)) => {
                let managed: bool = self.is_managed();
                let epoch: u64 = self.next_epoch();
                match graceful_degrade_reason(managed, spec.core.kind, block) {
                    Some(reason) => Progress::Continue(
                        Pending::Hard(HardStep::Prepare { epoch, spec, reason }),
                    ),
                    None => Progress::Continue(
                        Pending::Graceful(GracefulStep::Prepare { epoch, spec }),
                    ),
                }
            },
            Report::Loaded(Err(error)) => Progress::Finished(Err(error)),
            _ => Progress::Continue(Pending::SwitchLoad { spec }),
        }
    }

    /// Ends an operation with `error` of `epoch`.
    pub(crate) fn end_with(&mut self, epoch: u64, error: &Error, now: i64)
        ensures
            final(self).options == old(self).options,
            final(self)@ == old(self)@.ended(epoch, error@, now),
    {
        if error.is_stop_unconfirmed() {
            self.latch_quarantine(epoch, error, now);
        } else {
            self.publish_terminal_error(error, now);
        }
    }

    /// Goes on with a hard switch.
    pub(crate) fn advance_hard(
        &mut self,
        step: HardStep,
        report: Report,
        seen: &Observed,
    ) -> (res: Progress)
        requires
            step is Prepare ==> old(self).current is Some,
        ensures
            final(self).options == old(self).options,
            (final(self)@, res@) == old(self)@.hard_advanced(step, report, *seen),
    {
        let now: i64 = seen.now;
        match (step, report) {
            (
                HardStep::Prepare { epoch, .. },
                Report::Prepared(Err(error)),
            ) => Progress::Continue(
                Pending::Discard { epoch, error, ending: Ending::Republish, warning: None },
            ),
            (HardStep::Prepare { reason, .. }, Report::Prepared(Ok(launch))) => {
                let former: Launch = self.current.take().unwrap();
                let old_epoch: u64 = former.revision.epoch;
                let state: CoreState = CoreState::Switching {
                    from: Some(old_epoch),
                    to: launch.revision.epoch,
                };
                self.announce(&launch, state, now);
                Progress::Continue(Pending::Hard(HardStep::StopOld { launch, old_epoch, reason }))
            },
            (HardStep::StopOld { launch, old_epoch, .. }, Report::Stopped(Err(error))) => {
                let ending: Ending = if error.is_stop_unconfirmed() {
                    Ending::Quarantine { epoch: old_epoch }
                } else {
                    Ending::Terminal
                };
                Progress::Continue(
                    Pending::Discard {
                        epoch: launch.revision.epoch,
                        error,
                        ending,
                        warning: None,
                    },
                )
            },
            (
                HardStep::StopOld { launch, old_epoch, reason },
                Report::Stopped(Ok(_)),
            ) => Progress::Continue(
                Pending::Hard(HardStep::CleanOld { launch, old_epoch, reason }),
            ),
            (HardStep::CleanOld { .. }, Report::Cleaned(Err(error))) => {
                self.publish_terminal_error(&error, now);
                Progress::Finished(Err(error))
            },
            (HardStep::CleanOld { launch, reason, .. }, Report::Cleaned(Ok(_))) => self.begin_spawn(
                launch,
                StartGoal::Switch { reason },
                now,
            ),
            (step, _) => Progress::Continue(Pending::Hard(step)),
        }
    }

    fn replacement_failed(
        &mut self,
        epoch: u64,
        error: Error,
        warning: Option<String>,
        now: i64,
    ) -> (res: Progress)
        ensures
            final(self).options == old(self).options,
            (final(self)@, res@) == old(self)@.replacement_failed(epoch, error, warning, now),
    {
        if error.is_stop_unconfirmed() {
            self.latch_quarantine(epoch, &error, now);
            return Progress::Finished(Err(publish::with_durability_error(error, warning)));
        }
        Progress::Continue(Pending::Discard { epoch, error, ending: Ending::Terminal, warning })
    }

    /// Goes on with a graceful switch.
    pub(crate) fn advance_graceful(
        &mut self,
        step: GracefulStep,
        report: Report,
        seen: &Observed,
    ) -> (res: Progress)
        requires
            (step is Prepare || step is AwaitReady) ==> old(self).current is Some,
        ensures
            final(self).options == old(self).options,
            (final(self)@, res@) == old(self)@.graceful_advanced(step, report, *seen),
    {
        let now: i64 = seen.now;
        match (step, report) {
            (
                GracefulStep::Prepare { epoch, .. },
                Report::Prepared(Err(error)),
            ) => Progress::Continue(
                Pending::Discard { epoch, error, ending: Ending::Republish, warning: None },
            ),
            (GracefulStep::Prepare { .. }, Report::Prepared(Ok(launch))) => {
                let old_epoch: u64 = self.current.as_ref().unwrap().revision.epoch;
                let state: CoreState = CoreState::Switching {
                    from: Some(old_epoch),
                    to: launch.revision.epoch,
                };
                self.announce(&launch, state, now);
                Progress::Continue(Pending::Graceful(GracefulStep::Spawn { launch }))
            },
            (
                GracefulStep::Spawn { launch },
                Report::Spawned(Err(error)),
            ) => Progress::Continue(
                Pending::Discard {
                    epoch: launch.revision.epoch,
                    error,
                    ending: Ending::Republish,
                    warning: None,
                },
            ),
            (GracefulStep::Spawn { launch }, Report::Spawned(Ok(_))) => Progress::Continue(
                Pending::Graceful(GracefulStep::AwaitReady { launch }),
            ),
            (
                GracefulStep::AwaitReady { launch },
                Report::Ready(Err(error)),
            ) => Progress::Continue(
                Pending::Graceful(
                    GracefulStep::StopRejected { epoch: launch.revision.epoch, error },
                ),
            ),
            (GracefulStep::AwaitReady { launch }, Report::Ready(Ok(_))) => {
                let former: Launch = self.current.take().unwrap();
                Progress::Continue(
                    Pending::Graceful(
                        GracefulStep::StopOld { launch, old_epoch: former.revision.epoch },
                    ),
                )
            },
            (
                GracefulStep::StopRejected { epoch, error },
                Report::Stopped(Ok(_)),
            ) => Progress::Continue(
                Pending::Discard { epoch, error, ending: Ending::Republish, warning: None },
            ),
            (GracefulStep::StopRejected { epoch, error }, Report::Stopped(Err(stop_error))) => {
                let both: Error = publish::unstopped(
                    &error,
                    "; failed to stop rejected graceful bootstrap: ",
                    &stop_error,
                );
                self.latch_quarantine(epoch, &both, now);
                Progress::Finished(Err(both))
            },
            (
                GracefulStep::StopOld { launch, old_epoch },
                Report::Stopped(Err(error)),
            ) => Progress::Continue(
                Pending::Graceful(
                    GracefulStep::StopBoth { epoch: launch.revision.epoch, old_epoch, error },
                ),
            ),
            (
                GracefulStep::StopOld { launch, old_epoch },
                Report::Stopped(Ok(_)),
            ) => Progress::Continue(Pending::Graceful(GracefulStep::Commit { launch, old_epoch })),
            (GracefulStep::StopBoth { epoch, old_epoch, error }, Report::Stopped(Ok(_))) => {
                let ending: Ending = if error.is_stop_unconfirmed() {
                    Ending::Quarantine { epoch: old_epoch }
                } else {
                    Ending::Terminal
                };
                Progress::Continue(Pending::Discard { epoch, error, ending, warning: None })
            },
            (
                GracefulStep::StopBoth { epoch, old_epoch, error },
                Report::Stopped(Err(new_error)),
            ) => {
                if error.is_stop_unconfirmed() {
                    let reason: String = error.message();
                    self.record_quarantine(old_epoch, reason);
                }
                let old_text: String = error.message();
                let new_text: String = new_error.message();
                let both: Error = Error::StopUnconfirmed(
                    crate::text::concat4(
                        "old epoch stop failed: ",
                        old_text.as_str(),
                        "; new bootstrap stop also failed: ",
                        new_text.as_str(),
                    ),
                );
                self.latch_quarantine(epoch, &both, now);
                Progress::Finished(Err(both))
            },
            (
                GracefulStep::Commit { launch, .. },
                Report::Committed(Err(error)),
            ) => Progress::Continue(
                Pending::Graceful(
                    GracefulStep::StopUncommitted { epoch: launch.revision.epoch, error },
                ),
            ),
            (
                GracefulStep::Commit { launch, old_epoch },
                Report::Committed(Ok(warning)),
            ) => Progress::Continue(
                Pending::Graceful(GracefulStep::Reconcile { launch, old_epoch, warning }),
            ),
            (GracefulStep::StopUncommitted { epoch, error }, Report::Stopped(Ok(_))) => {
                let ending: Ending = if error.is_stop_unconfirmed() {
                    Ending::Quarantine { epoch }
                } else {
                    Ending::Terminal
                };
                Progress::Continue(Pending::Discard { epoch, error, ending, warning: None })
            },
            (GracefulStep::StopUncommitted { epoch, error }, Report::Stopped(Err(new_error))) => {
                let commit_text: String = error.message();
                let new_text: String = new_error.message();
                let both: Error = Error::StopUnconfirmed(
                    crate::text::concat4(
                        "full runtime commit failed: ",
                        commit_text.as_str(),
                        "; bootstrap stop also failed: ",
                        new_text.as_str(),
                    ),
                );
                self.latch_quarantine(epoch, &both, now);
                Progress::Finished(Err(both))
            },
            (
                GracefulStep::Reconcile { launch, old_epoch, warning },
                Report::Reconciled(Some(ready)),
            ) => {
                self.install(launch, ready, now);
                Progress::Continue(
                    Pending::Graceful(
                        GracefulStep::CleanOld { old_epoch, replaced: false, warning },
                    ),
                )
            },
            (
                GracefulStep::Reconcile { launch, old_epoch, warning },
                Report::Reconciled(None),
            ) => Progress::Continue(
                Pending::Graceful(GracefulStep::StopUnreconciled { launch, old_epoch, warning }),
            ),
            (
                GracefulStep::StopUnreconciled { launch, warning, .. },
                Report::Stopped(Err(error)),
            ) => {
                self.end_with(launch.revision.epoch, &error, now);
                Progress::Finished(Err(publish::with_durability_error(error, warning)))
            },
            (
                GracefulStep::StopUnreconciled { launch, old_epoch, warning },
                Report::Stopped(Ok(_)),
            ) => Progress::Continue(
                Pending::Graceful(GracefulStep::Respawn { launch, old_epoch, warning }),
            ),
            (
                GracefulStep::Respawn { launch, warning, .. },
                Report::Spawned(Err(error)),
            ) => self.replacement_failed(launch.revision.epoch, error, warning, now),
            (
                GracefulStep::Respawn { launch, old_epoch, warning },
                Report::Spawned(Ok(_)),
            ) => Progress::Continue(
                Pending::Graceful(GracefulStep::AwaitReplacement { launch, old_epoch, warning }),
            ),
            (
                GracefulStep::AwaitReplacement { launch, warning, .. },
                Report::Ready(Err(error)),
            ) => Progress::Continue(
                Pending::Graceful(
                    GracefulStep::StopReplacement { epoch: launch.revision.epoch, error, warning },
                ),
            ),
            (
                GracefulStep::AwaitReplacement { launch, old_epoch, warning },
                Report::Ready(Ok(ready)),
            ) => {
                self.install(launch, ready, now);
                Progress::Continue(
                    Pending::Graceful(
                        GracefulStep::CleanOld { old_epoch, replaced: true, warning },
                    ),
                )
            },
            (
                GracefulStep::StopReplacement { epoch, error, warning },
                Report::Stopped(Ok(_)),
            ) => self.replacement_failed(epoch, error, warning, now),
            (
                GracefulStep::StopReplacement { epoch, error, warning },
                Report::Stopped(Err(stop_error)),
            ) => {
                let both: Error = publish::unstopped(
                    &error,
                    "; failed to stop rejected replacement: ",
                    &stop_error,
                );
                self.latch_quarantine(epoch, &both, now);
                Progress::Finished(Err(publish::with_durability_error(both, warning)))
            },
            (GracefulStep::CleanOld { replaced, warning, .. }, Report::Cleaned(Ok(_))) => {
                let outcome: SwitchOutcome = if replaced {
                    SwitchOutcome::Hard { reason: DegradeReason::PatchFailed }
                } else {
                    SwitchOutcome::Graceful
                };
                Progress::Finished(
                    Ok(
                        Outcome::Switched(
                            publish::with_switch_durability_warning(outcome, warning),
                        ),
                    ),
                )
            },
            (
                GracefulStep::CleanOld { warning, .. },
                Report::Cleaned(Err(error)),
            ) => Progress::Finished(Err(publish::with_durability_error(error, warning))),
            (step, _) => Progress::Continue(Pending::Graceful(step)),
        }
    }
}

} // verus!
