//! Starting an epoch when nothing runs.

use super::{
    CoreManager, DegradeReason, Ending, Launch, ManagerView, Observed, Outcome, OutcomeView,
    Pending, Progress, ProgressView, Readiness, Report, SwitchOutcome, SwitchOutcomeView,
};
use crate::error::{Error, ErrorView};
use crate::manager::{publish, quarantine};
use crate::spec::InstanceSpec;
use crate::state::{CoreState, CoreStateView};
use std::sync::Arc;
use vstd::prelude::*;

verus! {

/// What a start was asked for, which is how its success is reported.
#[derive(Debug, Clone, Copy, PartialEq, Eq, Structural)]
pub enum StartGoal {
    Start,
    Switch { reason: DegradeReason },
}

impl StartGoal {
    /// What the operation gives once the core runs.
    pub open spec fn outcome(self) -> OutcomeView {
        match self {
            StartGoal::Start => OutcomeView::Started,
            StartGoal::Switch { reason } => OutcomeView::Switched(
                SwitchOutcomeView::Hard { reason },
            ),
        }
    }

    fn reached(self) -> (res: Outcome)
        ensures
            res@ == self.outcome(),
    {
        match self {
            StartGoal::Start => Outcome::Started,
            StartGoal::Switch { reason } => Outcome::Switched(SwitchOutcome::Hard { reason }),
        }
    }
}

/// A step of a start.
#[derive(Debug)]
pub enum StartStep {
    /// The ended instance is stopped for good.
    StopStale { epoch: u64, spec: Arc<InstanceSpec>, goal: StartGoal },
    /// Its artifacts are removed.
    CleanStale { epoch: u64, spec: Arc<InstanceSpec>, goal: StartGoal },
    /// The config is read.
    Load { epoch: u64, spec: Arc<InstanceSpec>, goal: StartGoal },
    /// The runtime config of the new epoch is prepared.
    Prepare { epoch: u64, spec: Arc<InstanceSpec>, goal: StartGoal },
    /// The instance is spawned.
    Spawn { launch: Launch, goal: StartGoal },
    /// The instance becomes ready.
    AwaitReady { launch: Launch, goal: StartGoal },
    /// The instance that did not become ready is stopped.
    StopRejected { epoch: u64, error: Error },
}

impl ManagerView {
    /// The error that a new operation is refused with, if it is.
    pub open spec fn refusal(self) -> Option<ErrorView> {
        quarantine::refusal(self.quarantine)
    }

    /// A new epoch begins with reading the config.
    pub open spec fn begin_load(self, spec: Arc<InstanceSpec>, goal: StartGoal) -> (
        ManagerView,
        ProgressView,
    ) {
        let epoch = (self.epoch + 1) as u64;
        (
            ManagerView { epoch, ..self },
            ProgressView::Continue(Pending::Start(StartStep::Load { epoch, spec, goal })),
        )
    }

    /// A start while nothing runs: an ended instance is put away first.
    pub open spec fn begin_fresh(self, spec: Arc<InstanceSpec>, goal: StartGoal) -> (
        ManagerView,
        ProgressView,
    ) {
        match self.current {
            Some(stale) => (
                ManagerView { current: None, ..self },
                ProgressView::Continue(
                    Pending::Start(
                        StartStep::StopStale { epoch: stale.revision.epoch, spec, goal },
                    ),
                ),
            ),
            None => self.begin_load(spec, goal),
        }
    }

    /// A request to start.
    pub open spec fn begin_start(self, spec: Arc<InstanceSpec>, seen: Observed) -> (
        ManagerView,
        ProgressView,
    ) {
        match self.refusal() {
            Some(refusal) => (self, ProgressView::Finished(Err(refusal))),
            None => if self.running(seen) {
                (self, ProgressView::Finished(Err(ErrorView::AlreadyRunning)))
            } else {
                self.begin_fresh(spec, StartGoal::Start)
            },
        }
    }

    /// A prepared epoch is announced and spawned.
    pub open spec fn begin_spawn(self, launch: Launch, goal: StartGoal, now: i64) -> (
        ManagerView,
        ProgressView,
    ) {
        (
            self.announced(launch, CoreStateView::Starting { epoch: launch.revision.epoch }, now),
            ProgressView::Continue(Pending::Start(StartStep::Spawn { launch, goal })),
        )
    }

    /// An operation ends with an error that quarantines `epoch` if its process
    /// may still be alive, and publishes nothing otherwise.
    pub open spec fn stop_failed_silently(self, epoch: u64, error: Error, now: i64) -> (
        ManagerView,
        ProgressView,
    ) {
        (
            if error is StopUnconfirmed {
                self.latched(epoch, error@, now)
            } else {
                self
            },
            ProgressView::Finished(Err(error@)),
        )
    }

    /// What follows a report to a step of a start. Any report other than the
    /// one that the step waits for changes nothing.
    pub open spec fn start_advanced(self, step: StartStep, report: Report, seen: Observed) -> (
        ManagerView,
        ProgressView,
    ) {
        let now = seen.now;
        match (step, report) {
            (StartStep::StopStale { epoch, spec, goal }, Report::Stopped(Ok(_))) => (
                self,
                ProgressView::Continue(Pending::Start(StartStep::CleanStale { epoch, spec, goal })),
            ),
            (
                StartStep::StopStale { epoch, .. },
                Report::Stopped(Err(error)),
            ) => self.stop_failed_silently(epoch, error, now),
            (StartStep::CleanStale { spec, goal, .. }, Report::Cleaned(Ok(_))) => self.begin_load(
                spec,
                goal,
            ),
            (StartStep::CleanStale { .. }, Report::Cleaned(Err(error))) => (
                self,
                ProgressView::Finished(Err(error@)),
            ),
            (StartStep::Load { epoch, spec, goal }, Report::Loaded(Ok(_))) => (
                self,
                ProgressView::Continue(Pending::Start(StartStep::Prepare { epoch, spec, goal })),
            ),
            (StartStep::Load { .. }, Report::Loaded(Err(error))) => (
                self.failed(error@, now),
                ProgressView::Finished(Err(error@)),
            ),
            (StartStep::Prepare { goal, .. }, Report::Prepared(Ok(launch))) => self.begin_spawn(
                launch,
                goal,
                now,
            ),
            (StartStep::Prepare { epoch, .. }, Report::Prepared(Err(error))) => (
                self,
                ProgressView::Continue(
                    Pending::Discard { epoch, error, ending: Ending::Terminal, warning: None },
                ),
            ),
            (StartStep::Spawn { launch, goal }, Report::Spawned(Ok(_))) => (
                self,
                ProgressView::Continue(Pending::Start(StartStep::AwaitReady { launch, goal })),
            ),
            (StartStep::Spawn { launch, .. }, Report::Spawned(Err(error))) => (
                self,
                ProgressView::Continue(
                    Pending::Discard {
                        epoch: launch.revision.epoch,
                        error,
                        ending: Ending::Terminal,
                        warning: None,
                    },
                ),
            ),
            (StartStep::AwaitReady { launch, goal }, Report::Ready(Ok(ready))) => (
                self.installed(launch, ready, now),
                ProgressView::Finished(Ok(goal.outcome())),
            ),
            (StartStep::AwaitReady { launch, .. }, Report::Ready(Err(error))) => (
                self,
                ProgressView::Continue(
                    Pending::Start(
                        StartStep::StopRejected { epoch: launch.revision.epoch, error },
                    ),
                ),
            ),
            (StartStep::StopRejected { epoch, error }, Report::Stopped(Ok(_))) => (
                self,
                ProgressView::Continue(
                    Pending::Discard { epoch, error, ending: Ending::Terminal, warning: None },
                ),
            ),
            (StartStep::StopRejected { epoch, error }, Report::Stopped(Err(stop_error))) => {
                let both = publish::also_unstopped(
                    error@,
                    "; failed to stop rejected initial instance: "@,
                    stop_error@,
                );
                (self.latched(epoch, both, now), ProgressView::Finished(Err(both)))
            },
            (step, _) => (self, ProgressView::Continue(Pending::Start(step))),
        }
    }
}

impl CoreManager {
    fn begin_load(&mut self, spec: Arc<InstanceSpec>, goal: StartGoal) -> (res: Progress)
        requires
            old(self).epoch < u64::MAX,
        ensures
            final(self).options == old(self).options,
            (final(self)@, res@) == old(self)@.begin_load(spec, goal),
    {
        let epoch: u64 = self.next_epoch();
        Progress::Continue(Pending::Start(StartStep::Load { epoch, spec, goal }))
    }

    /// Starts while nothing runs: an ended instance is put away first.
    pub(crate) fn begin_fresh(&mut self, spec: Arc<InstanceSpec>, goal: StartGoal) -> (res:
        Progress)
        requires
            old(self).epoch < u64::MAX,
        ensures
            final(self).options == old(self).options,
            (final(self)@, res@) == old(self)@.begin_fresh(spec, goal),
    {
        match self.current.take() {
            Some(stale) => Progress::Continue(
                Pending::Start(StartStep::StopStale { epoch: stale.revision.epoch, spec, goal }),
            ),
            None => self.begin_load(spec, goal),
        }
    }

    /// Starts the core that `spec` describes. Refused while a process is in
    /// quarantine, and while a core runs.
    pub fn start(&mut self, spec: Arc<InstanceSpec>, seen: &Observed) -> (res: Progress)
        requires
            old(self).epoch < u64::MAX,
        ensures
            final(self).options == old(self).options,
            (final(self)@, res@) == old(self)@.begin_start(spec, *seen),
            res matches Progress::Continue(next) ==> final(self)@.awaits(next),
    {
        match self.quarantine_error() {
            Some(error) => {
                return Progress::Finished(Err(error));
            },
            None => {},
        }
        if self.is_running(seen) {
            return Progress::Finished(Err(Error::AlreadyRunning));
        }
        self.begin_fresh(spec, StartGoal::Start)
    }

    /// Announces a prepared epoch and has it spawned.
    pub(crate) fn begin_spawn(&mut self, launch: Launch, goal: StartGoal, now: i64) -> (res:
        Progress)
        ensures
            final(self).options == old(self).options,
            (final(self)@, res@) == old(self)@.begin_spawn(launch, goal, now),
    {
        self.announce(&launch, CoreState::Starting { epoch: launch.revision.epoch }, now);
        Progress::Continue(Pending::Start(StartStep::Spawn { launch, goal }))
    }

    /// Ends an operation whose stop failed, without a publication unless
    /// `epoch` has to be quarantined.
    pub(crate) fn stop_failed_silently(&mut self, epoch: u64, error: Error, now: i64) -> (res:
        Progress)
        ensures
            final(self).options == old(self).options,
            (final(self)@, res@) == old(self)@.stop_failed_silently(epoch, error, now),
    {
        if error.is_stop_unconfirmed() {
            self.latch_quarantine(epoch, &error, now);
        }
        Progress::Finished(Err(error))
    }

    /// Goes on with a start.
    pub(crate) fn advance_start(
        &mut self,
        step: StartStep,
        report: Report,
        seen: &Observed,
    ) -> (res: Progress)
        requires
            old(self).epoch < u64::MAX,
        ensures
            final(self).options == old(self).options,
            (final(self)@, res@) == old(self)@.start_advanced(step, report, *seen),
    {
        let now: i64 = seen.now;
        match (step, report) {
            (
                StartStep::StopStale { epoch, spec, goal },
                Report::Stopped(Ok(_)),
            ) => Progress::Continue(Pending::Start(StartStep::CleanStale { epoch, spec, goal })),
            (
                StartStep::StopStale { epoch, .. },
                Report::Stopped(Err(error)),
            ) => self.stop_failed_silently(epoch, error, now),
            (StartStep::CleanStale { spec, goal, .. }, Report::Cleaned(Ok(_))) => self.begin_load(
                spec,
                goal,
            ),
            (
                StartStep::CleanStale { .. },
                Report::Cleaned(Err(error)),
            ) => Progress::Finished(Err(error)),
            (
                StartStep::Load { epoch, spec, goal },
                Report::Loaded(Ok(_)),
            ) => Progress::Continue(Pending::Start(StartStep::Prepare { epoch, spec, goal })),
            (StartStep::Load { .. }, Report::Loaded(Err(error))) => {
                self.publish_terminal_error(&error, now);
                Progress::Finished(Err(error))
            },
            (StartStep::Prepare { goal, .. }, Report::Prepared(Ok(launch))) => self.begin_spawn(
                launch,
                goal,
                now,
            ),
            (
                StartStep::Prepare { epoch, .. },
                Report::Prepared(Err(error)),
            ) => Progress::Continue(
                Pending::Discard { epoch, error, ending: Ending::Terminal, warning: None },
            ),
            (
                StartStep::Spawn { launch, goal },
                Report::Spawned(Ok(_)),
            ) => Progress::Continue(Pending::Start(StartStep::AwaitReady { launch, goal })),
            (
                StartStep::Spawn { launch, .. },
                Report::Spawned(Err(error)),
            ) => Progress::Continue(
                Pending::Discard {
                    epoch: launch.revision.epoch,
                    error,
                    ending: Ending::Terminal,
                    warning: None,
                },
            ),
            (StartStep::AwaitReady { launch, goal }, Report::Ready(Ok(ready))) => {
                self.install(launch, ready, now);
                Progress::Finished(Ok(goal.reached()))
            },
            (
                StartStep::AwaitReady { launch, .. },
                Report::Ready(Err(error)),
            ) => Progress::Continue(
                Pending::Start(StartStep::StopRejected { epoch: launch.revision.epoch, error }),
            ),
            (
                StartStep::StopRejected { epoch, error },
                Report::Stopped(Ok(_)),
            ) => Progress::Continue(
                Pending::Discard { epoch, error, ending: Ending::Terminal, warning: None },
            ),
            (StartStep::StopRejected { epoch, error }, Report::Stopped(Err(stop_error))) => {
                let both: Error = publish::unstopped(
                    &error,
                    "; failed to stop rejected initial instance: ",
                    &stop_error,
                );
                self.latch_quarantine(epoch, &both, now);
                Progress::Finished(Err(both))
            },
            (step, _) => Progress::Continue(Pending::Start(step)),
        }
    }
}

} // verus!
