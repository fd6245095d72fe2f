//! Applying a changed config to the running core, with compensation.

use super::{
    ApplyOutcome, ApplyOutcomeView, ConfigChange, CoreManager, Ending, Launch, ManagerView,
    Observed, Outcome, OutcomeView, Pending, Progress, ProgressView, Readiness, Report,
};
use crate::error::{Error, ErrorView};
use crate::manager::{publish, switching};
use crate::share::share;
use crate::spec::InstanceSpec;
use crate::state::{ConfigRevision, CoreState, CoreStateView, RevisionId};
use crate::text;
use std::sync::Arc;
use vstd::prelude::*;
use vstd::string::*;

verus! {

/// How the running instance is replaced by the desired one.
#[derive(Debug, Clone, Copy, PartialEq, Eq, Structural)]
pub enum Replace {
    /// Within its epoch, after the new config could not be taken in place.
    Restart,
    /// By a new epoch.
    Switch,
}

/// A step of applying a config.
#[derive(Debug)]
pub enum ApplyStep {
    /// The config is read.
    Load { spec: Arc<InstanceSpec> },
    /// The next generation of the current epoch is prepared and compared.
    Prepare { spec: Arc<InstanceSpec> },
    /// The change needs a new epoch, which is prepared.
    SwitchPrepare { epoch: u64, spec: Arc<InstanceSpec> },
    /// The runtime config is backed up.
    Backup { epoch: u64, desired: Launch, change: ConfigChange },
    /// The runtime config is replaced.
    Commit { desired: Launch, change: ConfigChange },
    /// The replacement failed; the backup is removed.
    Abandon { epoch: u64, error: Error },
    /// The running instance is brought to the new config.
    Reconcile { desired: Launch, change: ConfigChange, warning: Option<String> },
    /// The running instance took the new config; the backup is removed.
    Settle { revision: ConfigRevision, change: ConfigChange, warning: Option<String> },
    /// The old instance is stopped.
    StopOld { desired: Launch, former: Launch, how: Replace, warning: Option<String> },
    /// The desired instance is spawned.
    SpawnDesired { desired: Launch, former: Launch, how: Replace, warning: Option<String> },
    /// The desired instance becomes ready.
    AwaitDesired { desired: Launch, former: Launch, how: Replace, warning: Option<String> },
    /// The desired instance did not become ready and is stopped.
    StopDesired {
        desired: Launch,
        former: Launch,
        how: Replace,
        error: Error,
        warning: Option<String>,
    },
    /// The desired instance runs; what it replaced is removed.
    Retire { revision: ConfigRevision, old_epoch: u64, how: Replace, warning: Option<String> },
    /// The desired instance failed; the old runtime config is put back.
    Restore { former: Launch, apply_error: Error, warning: Option<String> },
    /// The desired epoch failed; its artifacts are removed.
    CleanDesired { epoch: u64, former: Launch, apply_error: Error },
    /// The old instance is spawned again.
    SpawnRollback {
        former: Launch,
        apply_error: Error,
        how: Replace,
        warning: Option<String>,
        restore_warning: Option<String>,
    },
    /// The old instance becomes ready again.
    AwaitRollback {
        former: Launch,
        apply_error: Error,
        how: Replace,
        warning: Option<String>,
        restore_warning: Option<String>,
    },
    /// The old instance did not become ready again and is stopped.
    StopRollback {
        former: Launch,
        apply_error: Error,
        how: Replace,
        error: Error,
        warning: Option<String>,
        restore_warning: Option<String>,
    },
    /// The old instance runs again; the backup is removed.
    SettleRollback {
        revision: ConfigRevision,
        apply_error: Error,
        warning: Option<String>,
        restore_warning: Option<String>,
    },
}

impl ApplyStep {
    /// Whether the step comes before the running instance is taken down.
    pub open spec fn before_stop(self) -> bool {
        self is Load || self is Prepare || self is SwitchPrepare || self is Backup || self is Commit
            || self is Reconcile
    }

    /// Whether the manager holds a current epoch while this step is pending.
    pub open spec fn keeps_current(self) -> bool {
        self.before_stop() || self is Abandon || self is Settle || self is Retire
            || self is SettleRollback
    }
}

/// What a config that the running instance took in place is reported as.
pub open spec fn settled(change: ConfigChange, revision: ConfigRevision) -> ApplyOutcomeView {
    if change == ConfigChange::Patch {
        ApplyOutcomeView::Patched { revision }
    } else {
        ApplyOutcomeView::Reloaded { revision }
    }
}

/// That the old epoch could not be stopped.
pub open spec fn stop_refused(how: Replace, error: ErrorView) -> ErrorView {
    ErrorView::ApplyFailed(
        (match how {
            Replace::Restart => "failed to stop current epoch for reconcile: "@,
            Replace::Switch => "failed to stop current epoch for switch: "@,
        }) + error.text(),
    )
}

/// That the desired instance failed and the old one may or may not run again.
pub open spec fn rollback_unstopped(how: Replace, apply: ErrorView, error: ErrorView) -> ErrorView {
    ErrorView::StopUnconfirmed(
        (match how {
            Replace::Restart => "desired apply failed ("@,
            Replace::Switch => "desired switch failed ("@,
        }) + apply.text() + "); rollback replacement "@ + error.text(),
    )
}

/// The current epoch with the documents and the revision of `desired`; its
/// instance stays.
pub open spec fn taken_in_place(current: Launch, desired: Launch) -> Launch {
    Launch {
        source_spec: desired.source_spec,
        effective_spec: current.effective_spec,
        controller: current.controller,
        revision: desired.revision,
        source_document: desired.source_document,
        effective_document: desired.effective_document,
    }
}

/// A request under two durability warnings.
pub open spec fn twice_uncertain(
    error: ErrorView,
    restore_warning: Option<String>,
    warning: Option<String>,
) -> ErrorView {
    publish::uncertain(publish::uncertain(error, restore_warning), warning)
}

impl ManagerView {
    /// A request to apply the config of `spec`.
    pub open spec fn begin_apply(
        self,
        spec: Arc<InstanceSpec>,
        expected: Option<RevisionId>,
        seen: Observed,
    ) -> (ManagerView, ProgressView) {
        match self.refusal() {
            Some(refusal) => (self, ProgressView::Finished(Err(refusal))),
            None => if !self.running(seen) {
                (self, ProgressView::Finished(Err(ErrorView::NotStarted)))
            } else {
                let actual = self.current->0.revision.spec_id()@;
                if expected is Some && expected->0@ != actual {
                    (
                        self,
                        ProgressView::Finished(
                            Err(
                                ErrorView::RevisionConflict {
                                    expected: expected->0@,
                                    actual: Some(actual),
                                },
                            ),
                        ),
                    )
                } else {
                    (self, ProgressView::Continue(Pending::Apply(ApplyStep::Load { spec })))
                }
            },
        }
    }

    /// What the classified change leads to.
    pub open spec fn apply_prepared(
        self,
        spec: Arc<InstanceSpec>,
        desired: Launch,
        change: ConfigChange,
    ) -> (ManagerView, ProgressView) {
        match change {
            ConfigChange::Noop => (
                self,
                ProgressView::Finished(
                    Ok(
                        OutcomeView::Applied(
                            ApplyOutcomeView::Noop { revision: self.current->0.revision },
                        ),
                    ),
                ),
            ),
            ConfigChange::Switch => {
                let epoch = (self.epoch + 1) as u64;
                (
                    ManagerView { epoch, ..self },
                    ProgressView::Continue(
                        Pending::Apply(ApplyStep::SwitchPrepare { epoch, spec }),
                    ),
                )
            },
            _ => (
                self,
                ProgressView::Continue(
                    Pending::Apply(
                        ApplyStep::Backup {
                            epoch: self.current->0.revision.epoch,
                            desired,
                            change,
                        },
                    ),
                ),
            ),
        }
    }

    /// The desired instance failed with `error` and is dead unless the error
    /// says that nobody knows.
    pub open spec fn desired_failed(
        self,
        desired: Launch,
        former: Launch,
        how: Replace,
        error: Error,
        warning: Option<String>,
        now: i64,
    ) -> (ManagerView, ProgressView) {
        if error is StopUnconfirmed {
            (
                self.latched(desired.revision.epoch, error@, now),
                ProgressView::Finished(Err(publish::uncertain(error@, warning))),
            )
        } else {
            (
                self,
                ProgressView::Continue(
                    Pending::Apply(
                        match how {
                            Replace::Restart => ApplyStep::Restore {
                                former,
                                apply_error: error,
                                warning,
                            },
                            Replace::Switch => ApplyStep::CleanDesired {
                                epoch: desired.revision.epoch,
                                former,
                                apply_error: error,
                            },
                        },
                    ),
                ),
            )
        }
    }

    /// The old epoch is announced and spawned again.
    pub open spec fn begin_rollback(
        self,
        former: Launch,
        apply_error: Error,
        how: Replace,
        warning: Option<String>,
        restore_warning: Option<String>,
        now: i64,
    ) -> (ManagerView, ProgressView) {
        (
            self.announced(
                former,
                CoreStateView::Restarting { epoch: former.revision.epoch, attempt: 0 },
                now,
            ),
            ProgressView::Continue(
                Pending::Apply(
                    ApplyStep::SpawnRollback { former, apply_error, how, warning, restore_warning },
                ),
            ),
        )
    }

    /// The old instance could not be brought back.
    pub open spec fn rollback_failed(
        self,
        epoch: u64,
        apply: ErrorView,
        how: Replace,
        error: ErrorView,
        warning: Option<String>,
        restore_warning: Option<String>,
        now: i64,
    ) -> (ManagerView, ProgressView) {
        let result = if error is StopUnconfirmed {
            rollback_unstopped(how, apply, error)
        } else {
            ErrorView::ApplyRollbackFailed { apply: apply.text(), rollback: error.text() }
        };
        (
            self.ended(epoch, result, now),
            ProgressView::Finished(Err(twice_uncertain(result, restore_warning, warning))),
        )
    }

    /// What follows a report to a step before the running instance is taken
    /// down.
    pub open spec fn in_place_advanced(self, step: ApplyStep, report: Report, seen: Observed) -> (
        ManagerView,
        ProgressView,
    ) {
        let now = seen.now;
        match (step, report) {
            (ApplyStep::Load { .. }, Report::Loaded(Err(error))) => (
                self,
                ProgressView::Finished(Err(error@)),
            ),
            (ApplyStep::Load { spec }, Report::Loaded(Ok(_))) => (
                self,
                ProgressView::Continue(Pending::Apply(ApplyStep::Prepare { spec })),
            ),
            (ApplyStep::Prepare { .. }, Report::ApplyPrepared(Err(error))) => (
                self,
                ProgressView::Finished(Err(error@)),
            ),
            (
                ApplyStep::Prepare { spec },
                Report::ApplyPrepared(Ok(prepared)),
            ) => self.apply_prepared(spec, prepared.0, prepared.1),
            (ApplyStep::SwitchPrepare { .. }, Report::Prepared(Err(error))) => (
                self,
                ProgressView::Finished(Err(error@)),
            ),
            (ApplyStep::SwitchPrepare { .. }, Report::Prepared(Ok(desired))) => (
                ManagerView { current: None, ..self },
                ProgressView::Continue(
                    Pending::Apply(
                        ApplyStep::StopOld {
                            desired,
                            former: self.current->0,
                            how: Replace::Switch,
                            warning: None,
                        },
                    ),
                ),
            ),
            (ApplyStep::Backup { .. }, Report::BackedUp(Err(error))) => (
                self,
                ProgressView::Finished(Err(error@)),
            ),
            (ApplyStep::Backup { desired, change, .. }, Report::BackedUp(Ok(_))) => (
                self,
                ProgressView::Continue(Pending::Apply(ApplyStep::Commit { desired, change })),
            ),
            (ApplyStep::Commit { desired, .. }, Report::Committed(Err(error))) => (
                self,
                ProgressView::Continue(
                    Pending::Apply(ApplyStep::Abandon { epoch: desired.revision.epoch, error }),
                ),
            ),
            (ApplyStep::Commit { desired, change }, Report::Committed(Ok(warning))) => (
                self,
                ProgressView::Continue(
                    Pending::Apply(ApplyStep::Reconcile { desired, change, warning }),
                ),
            ),
            (ApplyStep::Abandon { error, .. }, Report::BackupRemoved(_)) => (
                self,
                ProgressView::Finished(Err(error@)),
            ),
            (
                ApplyStep::Reconcile { desired, change, warning },
                Report::Reconciled(Some(ready)),
            ) => (
                self.installed(taken_in_place(self.current->0, desired), ready, now),
                ProgressView::Continue(
                    Pending::Apply(
                        ApplyStep::Settle { revision: desired.revision, change, warning },
                    ),
                ),
            ),
            (
                ApplyStep::Reconcile { desired, warning, .. },
                Report::Reconciled(None),
            ) => (
                ManagerView { current: None, ..self },
                ProgressView::Continue(
                    Pending::Apply(
                        ApplyStep::StopOld {
                            desired,
                            former: self.current->0,
                            how: Replace::Restart,
                            warning,
                        },
                    ),
                ),
            ),
            (ApplyStep::Settle { revision, change, warning }, Report::BackupRemoved(_)) => (
                self,
                ProgressView::Finished(
                    Ok(
                        OutcomeView::Applied(
                            publish::uncertain_apply(settled(change, revision), warning),
                        ),
                    ),
                ),
            ),
            (step, _) => (self, ProgressView::Continue(Pending::Apply(step))),
        }
    }

    /// What follows a report to a step that puts the desired instance in the
    /// place of the old one.
    pub open spec fn replace_advanced(self, step: ApplyStep, report: Report, seen: Observed) -> (
        ManagerView,
        ProgressView,
    ) {
        let now = seen.now;
        match (step, report) {
            (ApplyStep::StopOld { desired, former, how, warning }, Report::Stopped(Err(error))) => {
                let refused = if error is StopUnconfirmed {
                    error@
                } else {
                    stop_refused(how, error@)
                };
                match how {
                    Replace::Restart => (
                        self.ended(former.revision.epoch, refused, now),
                        ProgressView::Finished(Err(publish::uncertain(refused, warning))),
                    ),
                    Replace::Switch => (
                        self,
                        ProgressView::Continue(
                            Pending::Discard {
                                epoch: desired.revision.epoch,
                                error,
                                ending: if error is StopUnconfirmed {
                                    Ending::Quarantine { epoch: former.revision.epoch }
                                } else {
                                    Ending::SwitchStopFailed
                                },
                                warning: None,
                            },
                        ),
                    ),
                }
            },
            (ApplyStep::StopOld { desired, former, how, warning }, Report::Stopped(Ok(_))) => (
                self.announced(
                    desired,
                    match how {
                        Replace::Restart => CoreStateView::Restarting {
                            epoch: desired.revision.epoch,
                            attempt: 0,
                        },
                        Replace::Switch => CoreStateView::Switching {
                            from: Some(former.revision.epoch),
                            to: desired.revision.epoch,
                        },
                    },
                    now,
                ),
                ProgressView::Continue(
                    Pending::Apply(ApplyStep::SpawnDesired { desired, former, how, warning }),
                ),
            ),
            (
                ApplyStep::SpawnDesired { desired, former, how, warning },
                Report::Spawned(Err(error)),
            ) => self.desired_failed(desired, former, how, error, warning, now),
            (ApplyStep::SpawnDesired { desired, former, how, warning }, Report::Spawned(Ok(_))) => (
                self,
                ProgressView::Continue(
                    Pending::Apply(ApplyStep::AwaitDesired { desired, former, how, warning }),
                ),
            ),
            (ApplyStep::AwaitDesired { desired, former, how, warning }, Report::Ready(Err(error))) => (
                self,
                ProgressView::Continue(
                    Pending::Apply(ApplyStep::StopDesired { desired, former, how, error, warning }),
                ),
            ),
            (ApplyStep::AwaitDesired { desired, former, how, warning }, Report::Ready(Ok(ready))) => (
                self.installed(desired, ready, now),
                ProgressView::Continue(
                    Pending::Apply(
                        ApplyStep::Retire {
                            revision: desired.revision,
                            old_epoch: former.revision.epoch,
                            how,
                            warning,
                        },
                    ),
                ),
            ),
            (
                ApplyStep::StopDesired { desired, former, how, error, warning },
                Report::Stopped(Ok(_)),
            ) => self.desired_failed(desired, former, how, error, warning, now),
            (
                ApplyStep::StopDesired { desired, error, warning, .. },
                Report::Stopped(Err(stop_error)),
            ) => {
                let both = switching::replacement_unstopped(error@, stop_error@);
                (
                    self.latched(desired.revision.epoch, both, now),
                    ProgressView::Finished(Err(publish::uncertain(both, warning))),
                )
            },
            (
                ApplyStep::Retire { revision, how: Replace::Restart, warning, .. },
                Report::BackupRemoved(_),
            ) => (
                self,
                ProgressView::Finished(
                    Ok(
                        OutcomeView::Applied(
                            publish::uncertain_apply(
                                ApplyOutcomeView::Restarted { revision },
                                warning,
                            ),
                        ),
                    ),
                ),
            ),
            (
                ApplyStep::Retire { revision, how: Replace::Switch, warning, .. },
                Report::Cleaned(_),
            ) => (
                self,
                ProgressView::Finished(
                    Ok(
                        OutcomeView::Applied(
                            publish::uncertain_apply(
                                ApplyOutcomeView::Restarted { revision },
                                warning,
                            ),
                        ),
                    ),
                ),
            ),
            (step, _) => (self, ProgressView::Continue(Pending::Apply(step))),
        }
    }

    /// What follows a report to a step that brings the old instance back.
    pub open spec fn rollback_advanced(self, step: ApplyStep, report: Report, seen: Observed) -> (
        ManagerView,
        ProgressView,
    ) {
        let now = seen.now;
        match (step, report) {
            (ApplyStep::Restore { apply_error, warning, .. }, Report::Restored(Err(error))) => {
                let result = ErrorView::ApplyRollbackFailed {
                    apply: apply_error@.text(),
                    rollback: "runtime restore failed: "@ + error@.text(),
                };
                (
                    self.failed(result, now),
                    ProgressView::Finished(Err(publish::uncertain(result, warning))),
                )
            },
            (
                ApplyStep::Restore { former, apply_error, warning },
                Report::Restored(Ok(restore_warning)),
            ) => self.begin_rollback(
                former,
                apply_error,
                Replace::Restart,
                warning,
                restore_warning,
                now,
            ),
            (
                ApplyStep::CleanDesired { former, apply_error, .. },
                Report::Cleaned(_),
            ) => self.begin_rollback(former, apply_error, Replace::Switch, None, None, now),
            (
                ApplyStep::SpawnRollback { former, apply_error, how, warning, restore_warning },
                Report::Spawned(Err(error)),
            ) => self.rollback_failed(
                former.revision.epoch,
                apply_error@,
                how,
                error@,
                warning,
                restore_warning,
                now,
            ),
            (
                ApplyStep::SpawnRollback { former, apply_error, how, warning, restore_warning },
                Report::Spawned(Ok(_)),
            ) => (
                self,
                ProgressView::Continue(
                    Pending::Apply(
                        ApplyStep::AwaitRollback {
                            former,
                            apply_error,
                            how,
                            warning,
                            restore_warning,
                        },
                    ),
                ),
            ),
            (
                ApplyStep::AwaitRollback { former, apply_error, how, warning, restore_warning },
                Report::Ready(Err(error)),
            ) => (
                self,
                ProgressView::Continue(
                    Pending::Apply(
                        ApplyStep::StopRollback {
                            former,
                            apply_error,
                            how,
                            error,
                            warning,
                            restore_warning,
                        },
                    ),
                ),
            ),
            (
                ApplyStep::AwaitRollback { former, apply_error, how, warning, restore_warning },
                Report::Ready(Ok(ready)),
            ) => {
                let back = self.installed(former, ready, now);
                match how {
                    Replace::Restart => (
                        back,
                        ProgressView::Continue(
                            Pending::Apply(
                                ApplyStep::SettleRollback {
                                    revision: former.revision,
                                    apply_error,
                                    warning,
                                    restore_warning,
                                },
                            ),
                        ),
                    ),
                    Replace::Switch => (
                        back,
                        ProgressView::Finished(
                            Ok(
                                OutcomeView::Applied(
                                    ApplyOutcomeView::RolledBack {
                                        revision: former.revision,
                                        failed_apply: apply_error@.text(),
                                    },
                                ),
                            ),
                        ),
                    ),
                }
            },
            (
                ApplyStep::StopRollback { former, apply_error, how, error, warning, restore_warning },
                Report::Stopped(Ok(_)),
            ) => self.rollback_failed(
                former.revision.epoch,
                apply_error@,
                how,
                error@,
                warning,
                restore_warning,
                now,
            ),
            (
                ApplyStep::StopRollback { former, apply_error, how, error, warning, restore_warning },
                Report::Stopped(Err(stop_error)),
            ) => self.rollback_failed(
                former.revision.epoch,
                apply_error@,
                how,
                switching::replacement_unstopped(error@, stop_error@),
                warning,
                restore_warning,
                now,
            ),
            (
                ApplyStep::SettleRollback { revision, apply_error, warning, restore_warning },
                Report::BackupRemoved(_),
            ) => (
                self,
                ProgressView::Finished(
                    Ok(
                        OutcomeView::Applied(
                            publish::uncertain_apply(
                                publish::uncertain_apply(
                                    ApplyOutcomeView::RolledBack {
                                        revision,
                                        failed_apply: apply_error@.text(),
                                    },
                                    restore_warning,
                                ),
                                warning,
                            ),
                        ),
                    ),
                ),
            ),
            (step, _) => (self, ProgressView::Continue(Pending::Apply(step))),
        }
    }

    /// What follows a report to a step of applying. Any report other than the
    /// one that the step waits for changes nothing.
    pub open spec fn apply_advanced(self, step: ApplyStep, report: Report, seen: Observed) -> (
        ManagerView,
        ProgressView,
    ) {
        if step.before_stop() || step is Abandon || step is Settle {
            self.in_place_advanced(step, report, seen)
        } else if step is StopOld || step is SpawnDesired || step is AwaitDesired
            || step is StopDesired || step is Retire {
            self.replace_advanced(step, report, seen)
        } else {
            self.rollback_advanced(step, report, seen)
        }
    }
}

/// That the old epoch could not be stopped.
pub(crate) fn stop_refusal(how: Replace, error: &Error) -> (res: Error)
    ensures
        res@ == stop_refused(how, error@),
{
    let detail: String = error.message();
    let lead: &str = match how {
        Replace::Restart => "failed to stop current epoch for reconcile: ",
        Replace::Switch => "failed to stop current epoch for switch: ",
    };
    Error::ApplyFailed(text::concat(lead, detail.as_str()))
}

impl CoreManager {
    /// Applies the config of `spec` to the running core, unless its revision is
    /// not the expected one. Refused while a process is in quarantine.
    pub fn apply_config(
        &mut self,
        spec: Arc<InstanceSpec>,
        expected_revision: Option<RevisionId>,
        seen: &Observed,
    ) -> (res: Progress)
        ensures
            final(self).options == old(self).options,
            (final(self)@, res@) == old(self)@.begin_apply(spec, expected_revision, *seen),
            res matches Progress::Continue(next) ==> final(self)@.awaits(next),
    {
        match self.quarantine_error() {
            Some(error) => {
                return Progress::Finished(Err(error));
            },
            None => {},
        }
        if !self.is_running(seen) {
            return Progress::Finished(Err(Error::NotStarted));
        }
        let actual: RevisionId = self.current.as_ref().unwrap().revision.id();
        if let Some(expected) = expected_revision {
            if !expected.same(&actual) {
                return Progress::Finished(
                    Err(Error::RevisionConflict { expected, actual: Some(actual) }),
                );
            }
        }
        Progress::Continue(Pending::Apply(ApplyStep::Load { spec }))
    }

    fn apply_prepared(
        &mut self,
        spec: Arc<InstanceSpec>,
        desired: Launch,
        change: ConfigChange,
    ) -> (res: Progress)
        requires
            old(self).epoch < u64::MAX,
            old(self).current is Some,
        ensures
            final(self).options == old(self).options,
            (final(self)@, res@) == old(self)@.apply_prepared(spec, desired, change),
    {
        match change {
            ConfigChange::Noop => {
                let revision: ConfigRevision = self.current.as_ref().unwrap().revision.clone();
                Progress::Finished(Ok(Outcome::Applied(ApplyOutcome::Noop { revision })))
            },
            ConfigChange::Switch => {
                let epoch: u64 = self.next_epoch();
                Progress::Continue(Pending::Apply(ApplyStep::SwitchPrepare { epoch, spec }))
            },
            _ => {
                let epoch: u64 = self.current.as_ref().unwrap().revision.epoch;
                Progress::Continue(Pending::Apply(ApplyStep::Backup { epoch, desired, change }))
            },
        }
    }

    fn advance_in_place(&mut self, step: ApplyStep, report: Report, seen: &Observed) -> (res:
        Progress)
        requires
            old(self).epoch < u64::MAX,
            step.before_stop() ==> old(self).current is Some,
        ensures
            final(self).options == old(self).options,
            (final(self)@, res@) == old(self)@.in_place_advanced(step, report, *seen),
    {
        let now: i64 = seen.now;
        match (step, report) {
            (ApplyStep::Load { .. }, Report::Loaded(Err(error))) => Progress::Finished(Err(error)),
            (ApplyStep::Load { spec }, Report::Loaded(Ok(_))) => Progress::Continue(
                Pending::Apply(ApplyStep::Prepare { spec }),
            ),
            (ApplyStep::Prepare { .. }, Report::ApplyPrepared(Err(error))) => Progress::Finished(
                Err(error),
            ),
            (
                ApplyStep::Prepare { spec },
                Report::ApplyPrepared(Ok(prepared)),
            ) => self.apply_prepared(spec, prepared.0, prepared.1),
            (ApplyStep::SwitchPrepare { .. }, Report::Prepared(Err(error))) => Progress::Finished(
                Err(error),
            ),
            (ApplyStep::SwitchPrepare { .. }, Report::Prepared(Ok(desired))) => {
                let former: Launch = self.current.take().unwrap();
                Progress::Continue(
                    Pending::Apply(
                        ApplyStep::StopOld { desired, former, how: Replace::Switch, warning: None },
                    ),
                )
            },
            (ApplyStep::Backup { .. }, Report::BackedUp(Err(error))) => Progress::Finished(
                Err(error),
            ),
            (
                ApplyStep::Backup { desired, change, .. },
                Report::BackedUp(Ok(_)),
            ) => Progress::Continue(Pending::Apply(ApplyStep::Commit { desired, change })),
            (
                ApplyStep::Commit { desired, .. },
                Report::Committed(Err(error)),
            ) => Progress::Continue(
                Pending::Apply(ApplyStep::Abandon { epoch: desired.revision.epoch, error }),
            ),
            (
                ApplyStep::Commit { desired, change },
                Report::Committed(Ok(warning)),
            ) => Progress::Continue(
                Pending::Apply(ApplyStep::Reconcile { desired, change, warning }),
            ),
            (ApplyStep::Abandon { error, .. }, Report::BackupRemoved(_)) => Progress::Finished(
                Err(error),
            ),
            (
                ApplyStep::Reconcile { desired, change, warning },
                Report::Reconciled(Some(ready)),
            ) => {
                let current: Launch = self.current.take().unwrap();
                let revision: ConfigRevision = desired.revision.clone();
                let taken: Launch = Launch {
                    source_spec: desired.source_spec,
                    effective_spec: current.effective_spec,
                    controller: current.controller,
                    revision: desired.revision,
                    source_document: desired.source_document,
                    effective_document: desired.effective_document,
                };
                self.install(taken, ready, now);
                Progress::Continue(Pending::Apply(ApplyStep::Settle { revision, change, warning }))
            },
            (ApplyStep::Reconcile { desired, warning, .. }, Report::Reconciled(None)) => {
                let former: Launch = self.current.take().unwrap();
                Progress::Continue(
                    Pending::Apply(
                        ApplyStep::StopOld { desired, former, how: Replace::Restart, warning },
                    ),
                )
            },
            (ApplyStep::Settle { revision, change, warning }, Report::BackupRemoved(_)) => {
                let outcome: ApplyOutcome = if change == ConfigChange::Patch {
                    ApplyOutcome::Patched { revision }
                } else {
                    ApplyOutcome::Reloaded { revision }
                };
                Progress::Finished(
                    Ok(Outcome::Applied(publish::with_durability_warning(outcome, warning))),
                )
            },
            (step, _) => Progress::Continue(Pending::Apply(step)),
        }
    }

    fn desired_failed(
        &mut self,
        desired: Launch,
        former: Launch,
        how: Replace,
        error: Error,
        warning: Option<String>,
        now: i64,
    ) -> (res: Progress)
        ensures
            final(self).options == old(self).options,
            (final(self)@, res@) == old(self)@.desired_failed(
                desired,
                former,
                how,
                error,
                warning,
                now,
            ),
    {
        if error.is_stop_unconfirmed() {
            self.latch_quarantine(desired.revision.epoch, &error, now);
            return Progress::Finished(Err(publish::with_durability_error(error, warning)));
        }
        match how {
            Replace::Restart => Progress::Continue(
                Pending::Apply(ApplyStep::Restore { former, apply_error: error, warning }),
            ),
            Replace::Switch => Progress::Continue(
                Pending::Apply(
                    ApplyStep::CleanDesired {
                        epoch: desired.revision.epoch,
                        former,
                        apply_error: error,
                    },
                ),
            ),
        }
    }

    fn advance_replace(&mut self, step: ApplyStep, report: Report, seen: &Observed) -> (res:
        Progress)
        ensures
            final(self).options == old(self).options,
            (final(self)@, res@) == old(self)@.replace_advanced(step, report, *seen),
    {
        let now: i64 = seen.now;
        match (step, report) {
            (ApplyStep::StopOld { desired, former, how, warning }, Report::Stopped(Err(error))) => {
                match how {
                    Replace::Restart => {
                        let refused: Error = if error.is_stop_unconfirmed() {
                            error
                        } else {
                            stop_refusal(how, &error)
                        };
                        self.end_with(former.revision.epoch, &refused, now);
                        Progress::Finished(Err(publish::with_durability_error(refused, warning)))
                    },
                    Replace::Switch => {
                        let ending: Ending = if error.is_stop_unconfirmed() {
                            Ending::Quarantine { epoch: former.revision.epoch }
                        } else {
                            Ending::SwitchStopFailed
                        };
                        Progress::Continue(
                            Pending::Discard {
                                epoch: desired.revision.epoch,
                                error,
                                ending,
                                warning: None,
                            },
                        )
                    },
                }
            },
            (ApplyStep::StopOld { desired, former, how, warning }, Report::Stopped(Ok(_))) => {
                let state: CoreState = match how {
                    Replace::Restart => CoreState::Restarting {
                        epoch: desired.revision.epoch,
                        attempt: 0,
                    },
                    Replace::Switch => CoreState::Switching {
                        from: Some(former.revision.epoch),
                        to: desired.revision.epoch,
                    },
                };
                self.announce(&desired, state, now);
                Progress::Continue(
                    Pending::Apply(ApplyStep::SpawnDesired { desired, former, how, warning }),
                )
            },
            (
                ApplyStep::SpawnDesired { desired, former, how, warning },
                Report::Spawned(Err(error)),
            ) => self.desired_failed(desired, former, how, error, warning, now),
            (
                ApplyStep::SpawnDesired { desired, former, how, warning },
                Report::Spawned(Ok(_)),
            ) => Progress::Continue(
                Pending::Apply(ApplyStep::AwaitDesired { desired, former, how, warning }),
            ),
            (
                ApplyStep::AwaitDesired { desired, former, how, warning },
                Report::Ready(Err(error)),
            ) => Progress::Continue(
                Pending::Apply(
                    ApplyStep::StopDesired { desired, former, how, error, warning },
                ),
            ),
            (
                ApplyStep::AwaitDesired { desired, former, how, warning },
                Report::Ready(Ok(ready)),
            ) => {
                let revision: ConfigRevision = desired.revision.clone();
                self.install(desired, ready, now);
                Progress::Continue(
                    Pending::Apply(
                        ApplyStep::Retire {
                            revision,
                            old_epoch: former.revision.epoch,
                            how,
                            warning,
                        },
                    ),
                )
            },
            (
                ApplyStep::StopDesired { desired, former, how, error, warning },
                Report::Stopped(Ok(_)),
            ) => self.desired_failed(desired, former, how, error, warning, now),
            (
                ApplyStep::StopDesired { desired, error, warning, .. },
                Report::Stopped(Err(stop_error)),
            ) => {
                let both: Error = publish::unstopped(
                    &error,
                    "; failed to stop rejected replacement: ",
                    &stop_error,
                );
                self.latch_quarantine(desired.revision.epoch, &both, now);
                Progress::Finished(Err(publish::with_durability_error(both, warning)))
            },
            (
                ApplyStep::Retire { revision, how: Replace::Restart, warning, .. },
                Report::BackupRemoved(_),
            ) => Progress::Finished(
                Ok(
                    Outcome::Applied(
                        publish::with_durability_warning(
                            ApplyOutcome::Restarted { revision },
                            warning,
                        ),
                    ),
                ),
            ),
            (
                ApplyStep::Retire { revision, how: Replace::Switch, warning, .. },
                Report::Cleaned(_),
            ) => Progress::Finished(
                Ok(
                    Outcome::Applied(
                        publish::with_durability_warning(
                            ApplyOutcome::Restarted { revision },
                            warning,
                        ),
                    ),
                ),
            ),
            (step, _) => Progress::Continue(Pending::Apply(step)),
        }
    }

    fn begin_rollback(
        &mut self,
        former: Launch,
        apply_error: Error,
        how: Replace,
        warning: Option<String>,
        restore_warning: Option<String>,
        now: i64,
    ) -> (res: Progress)
        ensures
            final(self).options == old(self).options,
            (final(self)@, res@) == old(self)@.begin_rollback(
                former,
                apply_error,
                how,
                warning,
                restore_warning,
                now,
            ),
    {
        let state: CoreState = CoreState::Restarting { epoch: former.revision.epoch, attempt: 0 };
        self.announce(&former, state, now);
        Progress::Continue(
            Pending::Apply(
                ApplyStep::SpawnRollback {
                    former,
                    apply_error,
                    how,
                    warning,
                    restore_warning,
                },
            ),
        )
    }

    fn rollback_failed(
        &mut self,
        epoch: u64,
        apply_error: &Error,
        how: Replace,
        error: &Error,
        warning: Option<String>,
        restore_warning: Option<String>,
        now: i64,
    ) -> (res: Progress)
        ensures
            final(self).options == old(self).options,
            (final(self)@, res@) == old(self)@.rollback_failed(
                epoch,
                apply_error@,
                how,
                error@,
                warning,
                restore_warning,
                now,
            ),
    {
        let apply: String = apply_error.message();
        let rollback: String = error.message();
        let result: Error = if error.is_stop_unconfirmed() {
            let lead: &str = match how {
                Replace::Restart => "desired apply failed (",
                Replace::Switch => "desired switch failed (",
            };
            Error::StopUnconfirmed(
                text::concat4(
                    lead,
                    apply.as_str(),
                    "); rollback replacement ",
                    rollback.as_str(),
                ),
            )
        } else {
            Error::ApplyRollbackFailed { apply, rollback }
        };
        self.end_with(epoch, &result, now);
        Progress::Finished(
            Err(
                publish::with_durability_error(
                    publish::with_durability_error(result, restore_warning),
                    warning,
                ),
            ),
        )
    }

    fn advance_rollback(&mut self, step: ApplyStep, report: Report, seen: &Observed) -> (res:
        Progress)
        ensures
            final(self).options == old(self).options,
            (final(self)@, res@) == old(self)@.rollback_advanced(step, report, *seen),
    {
        let now: i64 = seen.now;
        match (step, report) {
            (ApplyStep::Restore { apply_error, warning, .. }, Report::Restored(Err(error))) => {
                let apply: String = apply_error.message();
                let detail: String = error.message();
                let result: Error = Error::ApplyRollbackFailed {
                    apply,
                    rollback: text::concat("runtime restore failed: ", detail.as_str()),
                };
                self.publish_terminal_error(&result, now);
                Progress::Finished(Err(publish::with_durability_error(result, warning)))
            },
            (
                ApplyStep::Restore { former, apply_error, warning },
                Report::Restored(Ok(restore_warning)),
            ) => self.begin_rollback(
                former,
                apply_error,
                Replace::Restart,
                warning,
                restore_warning,
                now,
            ),
            (
                ApplyStep::CleanDesired { former, apply_error, .. },
                Report::Cleaned(_),
            ) => self.begin_rollback(former, apply_error, Replace::Switch, None, None, now),
            (
                ApplyStep::SpawnRollback { former, apply_error, how, warning, restore_warning },
                Report::Spawned(Err(error)),
            ) => self.rollback_failed(
                former.revision.epoch,
                &apply_error,
                how,
                &error,
                warning,
                restore_warning,
                now,
            ),
            (
                ApplyStep::SpawnRollback { former, apply_error, how, warning, restore_warning },
                Report::Spawned(Ok(_)),
            ) => Progress::Continue(
                Pending::Apply(
                    ApplyStep::AwaitRollback {
                        former,
                        apply_error,
                        how,
                        warning,
                        restore_warning,
                    },
                ),
            ),
            (
                ApplyStep::AwaitRollback { former, apply_error, how, warning, restore_warning },
                Report::Ready(Err(error)),
            ) => Progress::Continue(
                Pending::Apply(
                    ApplyStep::StopRollback {
                        former,
                        apply_error,
                        how,
                        error,
                        warning,
                        restore_warning,
                    },
                ),
            ),
            (
                ApplyStep::AwaitRollback { former, apply_error, how, warning, restore_warning },
                Report::Ready(Ok(ready)),
            ) => {
                let revision: ConfigRevision = former.revision.clone();
                self.install(former, ready, now);
                match how {
                    Replace::Restart => Progress::Continue(
                        Pending::Apply(
                            ApplyStep::SettleRollback {
                                revision,
                                apply_error,
                                warning,
                                restore_warning,
                            },
                        ),
                    ),
                    Replace::Switch => Progress::Finished(
                        Ok(
                            Outcome::Applied(
                                ApplyOutcome::RolledBack {
                                    revision,
                                    failed_apply: apply_error.message(),
                                },
                            ),
                        ),
                    ),
                }
            },
            (
                ApplyStep::StopRollback {
                    former,
                    apply_error,
                    how,
                    error,
                    warning,
                    restore_warning,
                },
                Report::Stopped(Ok(_)),
            ) => self.rollback_failed(
                former.revision.epoch,
                &apply_error,
                how,
                &error,
                warning,
                restore_warning,
                now,
            ),
            (
                ApplyStep::StopRollback {
                    former,
                    apply_error,
                    how,
                    error,
                    warning,
                    restore_warning,
                },
                Report::Stopped(Err(stop_error)),
            ) => {
                let both: Error = publish::unstopped(
                    &error,
                    "; failed to stop rejected replacement: ",
                    &stop_error,
                );
                self.rollback_failed(
                    former.revision.epoch,
                    &apply_error,
                    how,
                    &both,
                    warning,
                    restore_warning,
                    now,
                )
            },
            (
                ApplyStep::SettleRollback { revision, apply_error, warning, restore_warning },
                Report::BackupRemoved(_),
            ) => {
                let outcome: ApplyOutcome = ApplyOutcome::RolledBack {
                    revision,
                    failed_apply: apply_error.message(),
                };
                Progress::Finished(
                    Ok(
                        Outcome::Applied(
                            publish::with_durability_warning(
                                publish::with_durability_warning(outcome, restore_warning),
                                warning,
                            ),
                        ),
                    ),
                )
            },
            (step, _) => Progress::Continue(Pending::Apply(step)),
        }
    }

    /// Goes on with applying a config.
    pub(crate) fn advance_apply(&mut self, step: ApplyStep, report: Report, seen: &Observed) -> (res:
        Progress)
        requires
            old(self).epoch < u64::MAX,
            step.before_stop() ==> old(self).current is Some,
        ensures
            final(self).options == old(self).options,
            (final(self)@, res@) == old(self)@.apply_advanced(step, report, *seen),
    {
        match step {
            ApplyStep::Load { .. } | ApplyStep::Prepare { .. } | ApplyStep::SwitchPrepare { .. }
            | ApplyStep::Backup { .. } | ApplyStep::Commit { .. } | ApplyStep::Abandon { .. }
            | ApplyStep::Reconcile { .. } | ApplyStep::Settle { .. } => self.advance_in_place(
                step,
                report,
                seen,
            ),
            ApplyStep::StopOld { .. } | ApplyStep::SpawnDesired { .. }
            | ApplyStep::AwaitDesired { .. } | ApplyStep::StopDesired { .. }
            | ApplyStep::Retire { .. } => self.advance_replace(step, report, seen),
            _ => self.advance_rollback(step, report, seen),
        }
    }
}

} // verus!
