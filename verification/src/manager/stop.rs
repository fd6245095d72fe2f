//! Stopping the current epoch.

use super::{
    CoreManager, Launch, ManagerView, Observed, Outcome, OutcomeView, Pending, Progress,
    ProgressView, Report,
};
use crate::error::{Error, ErrorView};
use crate::manager::publish;
use crate::state::{CoreState, CoreStateView, StopReason, StopReasonView};
use vstd::prelude::*;

verus! {

/// A step of a stop.
#[derive(Debug)]
pub enum StopStep {
    /// An instance that had already ended is stopped for good.
    StopEnded { epoch: u64 },
    /// Its artifacts are removed.
    CleanEnded { epoch: u64 },
    /// A running instance is stopped.
    StopActive { epoch: u64 },
    /// Its artifacts are removed.
    CleanActive { epoch: u64 },
}

impl ManagerView {
    /// A running epoch is given up and its stop announced.
    pub open spec fn begin_stop_active(self, launch: Launch, now: i64) -> (
        ManagerView,
        ProgressView,
    ) {
        let epoch = launch.revision.epoch;
        (
            (ManagerView { current: None, ..self }).announced(
                launch,
                CoreStateView::Stopping { epoch },
                now,
            ),
            ProgressView::Continue(Pending::Stop(StopStep::StopActive { epoch })),
        )
    }

    /// A request to stop. The quarantine does not stand in its way.
    pub open spec fn begin_stop(self, seen: Observed) -> (ManagerView, ProgressView) {
        match self.current {
            None => (self, ProgressView::Finished(Err(ErrorView::NotStarted))),
            Some(launch) => if seen.current.state is Stopped {
                let epoch = launch.revision.epoch;
                (
                    (ManagerView { current: None, ..self }).announced(
                        launch,
                        publish::core_state(epoch, seen.current.state),
                        seen.now,
                    ),
                    ProgressView::Continue(Pending::Stop(StopStep::StopEnded { epoch })),
                )
            } else {
                self.begin_stop_active(launch, seen.now)
            },
        }
    }

    /// A request to shut down: a stop that is content with nothing to stop.
    pub open spec fn begin_shutdown(self, seen: Observed) -> (ManagerView, ProgressView) {
        match self.current {
            None => (self, ProgressView::Finished(Ok(OutcomeView::Stopped))),
            Some(launch) => self.begin_stop_active(launch, seen.now),
        }
    }

    /// An operation ends with an error that quarantines `epoch` if its process
    /// may still be alive, and is published as the end otherwise.
    pub open spec fn stop_failed(self, epoch: u64, error: Error, now: i64) -> (
        ManagerView,
        ProgressView,
    ) {
        (
            if error is StopUnconfirmed {
                self.latched(epoch, error@, now)
            } else {
                self.failed(error@, now)
            },
            ProgressView::Finished(Err(error@)),
        )
    }

    /// What follows a report to a step of a stop. Any report other than the
    /// one that the step waits for changes nothing.
    pub open spec fn stop_advanced(self, step: StopStep, report: Report, seen: Observed) -> (
        ManagerView,
        ProgressView,
    ) {
        let now = seen.now;
        match (step, report) {
            (StopStep::StopEnded { epoch }, Report::Stopped(Ok(_))) => (
                self,
                ProgressView::Continue(Pending::Stop(StopStep::CleanEnded { epoch })),
            ),
            (
                StopStep::StopEnded { epoch },
                Report::Stopped(Err(error)),
            ) => self.stop_failed_silently(epoch, error, now),
            (StopStep::CleanEnded { .. }, Report::Cleaned(Ok(_))) => (
                self,
                ProgressView::Finished(Err(ErrorView::NotStarted)),
            ),
            (StopStep::CleanEnded { .. }, Report::Cleaned(Err(error))) => (
                self.failed(error@, now),
                ProgressView::Finished(Err(error@)),
            ),
            (StopStep::StopActive { epoch }, Report::Stopped(Ok(_))) => (
                self,
                ProgressView::Continue(Pending::Stop(StopStep::CleanActive { epoch })),
            ),
            (StopStep::StopActive { epoch }, Report::Stopped(Err(error))) => self.stop_failed(
                epoch,
                error,
                now,
            ),
            (StopStep::CleanActive { .. }, Report::Cleaned(Ok(_))) => (
                self.published(
                    CoreStateView::Stopped { reason: Some(StopReasonView::User) },
                    None,
                    None,
                    None,
                    now,
                ),
                ProgressView::Finished(Ok(OutcomeView::Stopped)),
            ),
            (StopStep::CleanActive { .. }, Report::Cleaned(Err(error))) => (
                self.failed(error@, now),
                ProgressView::Finished(Err(error@)),
            ),
            (step, _) => (self, ProgressView::Continue(Pending::Stop(step))),
        }
    }
}

impl CoreManager {
    fn begin_stop_active(&mut self, launch: Launch, now: i64) -> (res: Progress)
        ensures
            final(self).options == old(self).options,
            (final(self)@, res@) == old(self)@.begin_stop_active(launch, now),
    {
        let epoch: u64 = launch.revision.epoch;
        self.current = None;
        self.announce(&launch, CoreState::Stopping { epoch }, now);
        Progress::Continue(Pending::Stop(StopStep::StopActive { epoch }))
    }

    /// Stops the current instance, even while another epoch is quarantined.
    ///
    /// The quarantine is bypassed on purpose, so that callers can reduce
    /// the number of processes that may be alive. It does not clear quarantine.
    pub fn stop(&mut self, seen: &Observed) -> (res: Progress)
        ensures
            final(self).options == old(self).options,
            (final(self)@, res@) == old(self)@.begin_stop(*seen),
            res matches Progress::Continue(next) ==> final(self)@.awaits(next),
    {
        let launch: Launch = match self.current.take() {
            Some(launch) => launch,
            None => {
                return Progress::Finished(Err(Error::NotStarted));
            },
        };
        if seen.current.state.is_terminal() {
            let epoch: u64 = launch.revision.epoch;
            let state: CoreState = publish::instance_core_state(epoch, &seen.current.state);
            self.announce(&launch, state, seen.now);
            return Progress::Continue(Pending::Stop(StopStep::StopEnded { epoch }));
        }
        self.begin_stop_active(launch, seen.now)
    }

    /// Stops the current instance, if there is one, even while another epoch
    /// is quarantined. It does not clear quarantine.
    pub fn shutdown(&mut self, seen: &Observed) -> (res: Progress)
        ensures
            final(self).options == old(self).options,
            (final(self)@, res@) == old(self)@.begin_shutdown(*seen),
            res matches Progress::Continue(next) ==> final(self)@.awaits(next),
    {
        match self.current.take() {
            Some(launch) => self.begin_stop_active(launch, seen.now),
            None => Progress::Finished(Ok(Outcome::Stopped)),
        }
    }

    /// Ends an operation whose stop failed, with a publication.
    pub(crate) fn stop_failed(&mut self, epoch: u64, error: Error, now: i64) -> (res: Progress)
        ensures
            final(self).options == old(self).options,
            (final(self)@, res@) == old(self)@.stop_failed(epoch, error, now),
    {
        if error.is_stop_unconfirmed() {
            self.latch_quarantine(epoch, &error, now);
        } else {
            self.publish_terminal_error(&error, now);
        }
        Progress::Finished(Err(error))
    }

    /// Goes on with a stop.
    pub(crate) fn advance_stop(
        &mut self,
        step: StopStep,
        report: Report,
        seen: &Observed,
    ) -> (res: Progress)
        ensures
            final(self).options == old(self).options,
            (final(self)@, res@) == old(self)@.stop_advanced(step, report, *seen),
    {
        let now: i64 = seen.now;
        match (step, report) {
            (StopStep::StopEnded { epoch }, Report::Stopped(Ok(_))) => Progress::Continue(
                Pending::Stop(StopStep::CleanEnded { epoch }),
            ),
            (
                StopStep::StopEnded { epoch },
                Report::Stopped(Err(error)),
            ) => self.stop_failed_silently(epoch, error, now),
            (StopStep::CleanEnded { .. }, Report::Cleaned(Ok(_))) => Progress::Finished(
                Err(Error::NotStarted),
            ),
            (StopStep::CleanEnded { .. }, Report::Cleaned(Err(error))) => {
                self.publish_terminal_error(&error, now);
                Progress::Finished(Err(error))
            },
            (StopStep::StopActive { epoch }, Report::Stopped(Ok(_))) => Progress::Continue(
                Pending::Stop(StopStep::CleanActive { epoch }),
            ),
            (StopStep::StopActive { epoch }, Report::Stopped(Err(error))) => self.stop_failed(
                epoch,
                error,
                now,
            ),
            (StopStep::CleanActive { .. }, Report::Cleaned(Ok(_))) => {
                self.publish(
                    CoreState::Stopped { reason: Some(StopReason::User) },
                    None,
                    None,
                    None,
                    now,
                );
                Progress::Finished(Ok(Outcome::Stopped))
            },
            (StopStep::CleanActive { .. }, Report::Cleaned(Err(error))) => {
                self.publish_terminal_error(&error, now);
                Progress::Finished(Err(error))
            },
            (step, _) => Progress::Continue(Pending::Stop(step)),
        }
    }
}

} // verus!
