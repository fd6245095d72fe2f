//! What holds of every operation of the manager.

use super::advance;
use super::apply::{ApplyStep, Replace};
use super::quarantine;
use super::start::{StartGoal, StartStep};
use super::stop::StopStep;
use super::switching::{GracefulStep, HardStep};
use super::{
    CoreManager, DegradeReason, Ending, Launch, ManagerView, Observed, Outcome, OutcomeView,
    Pending, Progress, ProgressView, Report, Work,
};
use crate::error::{Error, ErrorView};
use crate::manager::publish;
use crate::spec::InstanceSpec;
use crate::state::{CoreStateView, InstanceStatus, RevisionId};
use std::sync::Arc;
use vstd::prelude::*;

verus! {

/// While an epoch is quarantined, every request that would run something is
/// refused with the same error and changes nothing.
pub proof fn quarantine_refuses_every_request(
    m: ManagerView,
    spec: Arc<InstanceSpec>,
    expected: Option<RevisionId>,
    seen: Observed,
)
    requires
        m.quarantine.len() > 0,
    ensures
        m.begin_start(spec, seen) == (m, ProgressView::Finished(Err(m.refusal()->0))),
        m.begin_switch(spec, seen) == (m, ProgressView::Finished(Err(m.refusal()->0))),
        m.begin_restart(seen) == (m, ProgressView::Finished(Err(m.refusal()->0))),
        m.begin_apply(spec, expected, seen) == (m, ProgressView::Finished(Err(m.refusal()->0))),
        m.refusal()->0 matches ErrorView::ManagerQuarantined { epoch, .. }
            && epoch == m.quarantine[0].epoch,
{
}

/// Stopping and shutting down take no notice of the quarantine and leave it as
/// it is.
pub proof fn stopping_ignores_the_quarantine(
    m: ManagerView,
    other: Seq<quarantine::QuarantinedEpochView>,
    seen: Observed,
)
    ensures
        ({
            let n = ManagerView { quarantine: other, ..m };
            &&& n.begin_stop(seen).1 == m.begin_stop(seen).1
            &&& n.begin_stop(seen).0 == (ManagerView {
                quarantine: other,
                ..m.begin_stop(seen).0
            })
            &&& n.begin_shutdown(seen).1 == m.begin_shutdown(seen).1
            &&& n.begin_shutdown(seen).0 == (ManagerView {
                quarantine: other,
                ..m.begin_shutdown(seen).0
            })
        }),
{
}

/// A quarantined epoch is in quarantine after every step of every operation.
pub proof fn no_step_releases_a_quarantined_epoch(
    m: ManagerView,
    pending: Pending,
    report: Report,
    seen: Observed,
    epoch: u64,
)
    requires
        quarantine::holds(m.quarantine, epoch),
    ensures
        quarantine::holds(m.advanced(pending, report, seen).0.quarantine, epoch),
{
    lemma_quarantine_step(m, pending, report, seen, epoch);
}

proof fn lemma_latched(m: ManagerView, epoch: u64, error: ErrorView, now: i64)
    ensures
        forall|e: u64| #[trigger]
            quarantine::holds(m.latched(epoch, error, now).quarantine, e) <==> (e == epoch
                || quarantine::holds(m.quarantine, e)),
        m.latched(epoch, error, now).current == m.current,
        m.latched(epoch, error, now).epoch == m.epoch,
        m.latched(epoch, error, now).refusal() is Some,
{
    quarantine::recording_only_adds_its_epoch(m.quarantine, epoch, error.text());
}

#[verifier::rlimit(40)]
proof fn lemma_quarantine_step(
    m: ManagerView,
    pending: Pending,
    report: Report,
    seen: Observed,
    epoch: u64,
)
    requires
        quarantine::holds(m.quarantine, epoch),
    ensures
        quarantine::holds(m.advanced(pending, report, seen).0.quarantine, epoch),
{
    let now = seen.now;
    assert forall|x: ManagerView, e: u64, error: ErrorView|
        x.quarantine == m.quarantine implies quarantine::holds(
        #[trigger] x.latched(e, error, now).quarantine,
        epoch,
    ) by {
        lemma_latched(x, e, error, now);
    }
    match pending {
        Pending::Graceful(GracefulStep::StopBoth { epoch: new_epoch, old_epoch, error }) => {
            if let Report::Stopped(Err(new_error)) = report {
                quarantine::recording_only_adds_its_epoch(m.quarantine, old_epoch, error@.text());
                let held = ManagerView {
                    quarantine: quarantine::recorded(m.quarantine, old_epoch, error@.text()),
                    ..m
                };
                let both = ErrorView::StopUnconfirmed(
                    "old epoch stop failed: "@ + error@.text()
                        + "; new bootstrap stop also failed: "@ + new_error@.text(),
                );
                lemma_latched(held, new_epoch, both, now);
            }
        },
        _ => {},
    }
}

proof fn lemma_latched_once(m: ManagerView, epoch: u64, error: ErrorView, now: i64)
    requires
        quarantine::one_per_epoch(m.quarantine),
    ensures
        quarantine::one_per_epoch(m.latched(epoch, error, now).quarantine),
{
    quarantine::recording_keeps_one_per_epoch(m.quarantine, epoch, error.text());
}

/// No epoch is quarantined twice, through every step of every operation.
#[verifier::rlimit(40)]
pub proof fn no_epoch_is_quarantined_twice(
    m: ManagerView,
    pending: Pending,
    report: Report,
    seen: Observed,
)
    requires
        quarantine::one_per_epoch(m.quarantine),
    ensures
        quarantine::one_per_epoch(m.advanced(pending, report, seen).0.quarantine),
{
    let now = seen.now;
    assert forall|x: ManagerView, e: u64, error: ErrorView|
        x.quarantine == m.quarantine implies quarantine::one_per_epoch(
        #[trigger] x.latched(e, error, now).quarantine,
    ) by {
        lemma_latched_once(x, e, error, now);
    }
    match pending {
        Pending::Graceful(GracefulStep::StopBoth { epoch: new_epoch, old_epoch, error }) => {
            if let Report::Stopped(Err(new_error)) = report {
                quarantine::recording_keeps_one_per_epoch(m.quarantine, old_epoch, error@.text());
                let held = ManagerView {
                    quarantine: quarantine::recorded(m.quarantine, old_epoch, error@.text()),
                    ..m
                };
                let both = ErrorView::StopUnconfirmed(
                    "old epoch stop failed: "@ + error@.text()
                        + "; new bootstrap stop also failed: "@ + new_error@.text(),
                );
                lemma_latched_once(held, new_epoch, both, now);
            }
        },
        _ => {},
    }
}

/// To begin an operation leaves the quarantine as it is.
pub proof fn requests_leave_the_quarantine(
    m: ManagerView,
    spec: Arc<InstanceSpec>,
    expected: Option<RevisionId>,
    seen: Observed,
)
    ensures
        m.begin_start(spec, seen).0.quarantine == m.quarantine,
        m.begin_switch(spec, seen).0.quarantine == m.quarantine,
        m.begin_restart(seen).0.quarantine == m.quarantine,
        m.begin_apply(spec, expected, seen).0.quarantine == m.quarantine,
        m.begin_stop(seen).0.quarantine == m.quarantine,
        m.begin_shutdown(seen).0.quarantine == m.quarantine,
{
}

/// What an operation waits for after a call, if it goes on.
pub open spec fn next_step(progress: ProgressView) -> Option<Pending> {
    match progress {
        ProgressView::Continue(pending) => Some(pending),
        ProgressView::Finished(_) => None,
    }
}

impl Pending {
    /// Whether a process of `epoch` may be alive that only this step knows of.
    pub open spec fn owns(self, epoch: u64) -> bool {
        match self {
            Pending::Start(step) => match step {
                StartStep::StopStale { epoch: e, .. } => e == epoch,
                StartStep::Spawn { launch, .. } => launch.revision.epoch == epoch,
                StartStep::AwaitReady { launch, .. } => launch.revision.epoch == epoch,
                StartStep::StopRejected { epoch: e, .. } => e == epoch,
                _ => false,
            },
            Pending::SwitchLoad { .. } => false,
            Pending::Hard(step) => match step {
                HardStep::StopOld { old_epoch, .. } => old_epoch == epoch,
                _ => false,
            },
            Pending::Graceful(step) => match step {
                GracefulStep::Spawn { launch } => launch.revision.epoch == epoch,
                GracefulStep::AwaitReady { launch } => launch.revision.epoch == epoch,
                GracefulStep::StopRejected { epoch: e, .. } => e == epoch,
                GracefulStep::StopOld { launch, old_epoch } => launch.revision.epoch == epoch
                    || old_epoch == epoch,
                GracefulStep::StopBoth { epoch: e, old_epoch, error } => e == epoch || (
                error is StopUnconfirmed && old_epoch == epoch),
                GracefulStep::Commit { launch, .. } => launch.revision.epoch == epoch,
                GracefulStep::StopUncommitted { epoch: e, .. } => e == epoch,
                GracefulStep::Reconcile { launch, .. } => launch.revision.epoch == epoch,
                GracefulStep::StopUnreconciled { launch, .. } => launch.revision.epoch == epoch,
                GracefulStep::Respawn { launch, .. } => launch.revision.epoch == epoch,
                GracefulStep::AwaitReplacement { launch, .. } => launch.revision.epoch == epoch,
                GracefulStep::StopReplacement { epoch: e, .. } => e == epoch,
                _ => false,
            },
            Pending::Apply(step) => match step {
                ApplyStep::StopOld { former, .. } => former.revision.epoch == epoch,
                ApplyStep::SpawnDesired { desired, .. } => desired.revision.epoch == epoch,
                ApplyStep::AwaitDesired { desired, .. } => desired.revision.epoch == epoch,
                ApplyStep::StopDesired { desired, .. } => desired.revision.epoch == epoch,
                ApplyStep::SpawnRollback { former, .. } => former.revision.epoch == epoch,
                ApplyStep::AwaitRollback { former, .. } => former.revision.epoch == epoch,
                ApplyStep::StopRollback { former, .. } => former.revision.epoch == epoch,
                _ => false,
            },
            Pending::Stop(step) => match step {
                StopStep::StopEnded { epoch: e } => e == epoch,
                StopStep::StopActive { epoch: e } => e == epoch,
                _ => false,
            },
            Pending::Discard { ending, .. } => ending == (Ending::Quarantine { epoch }),
        }
    }

    /// Whether `report` shows that no process of `epoch` is alive: its stop was
    /// confirmed, or it could not be spawned.
    pub open spec fn proven_dead(self, report: Report, epoch: u64) -> bool {
        match (self.awaited(), report) {
            (Work::Stop { epoch: e }, Report::Stopped(Ok(_))) => e == epoch,
            (Work::Spawn { epoch: e, .. }, Report::Spawned(Err(_))) => e == epoch,
            _ => false,
        }
    }
}

/// Whether `epoch` is accounted for: it is the current one, it is quarantined,
/// or the pending step is still busy with it.
pub open spec fn accounted(m: ManagerView, step: Option<Pending>, epoch: u64) -> bool {
    (m.current is Some && m.current->0.revision.epoch == epoch) || quarantine::holds(
        m.quarantine,
        epoch,
    ) || (step is Some && step->0.owns(epoch))
}

/// A process that is about to be spawned is accounted for.
pub proof fn spawned_epochs_are_accounted_for(m: ManagerView, pending: Pending)
    ensures
        pending.awaited() matches Work::Spawn { epoch, .. } ==> accounted(
            m,
            Some(pending),
            epoch,
        ),
{
}

/// The stop of an epoch is asked for by a step that accounts for it.
pub proof fn stopped_epochs_are_accounted_for(m: ManagerView, pending: Pending)
    ensures
        pending.awaited() matches Work::Stop { epoch } ==> accounted(m, Some(pending), epoch),
{
}

/// No process is lost sight of: an epoch that is accounted for stays so through
/// every step, until its stop is confirmed or its spawn has failed. This needs
/// two things of the driver: a failed stop is reported as unconfirmed, and the
/// next generation of a config keeps the epoch.
pub proof fn no_epoch_is_lost(
    m: ManagerView,
    pending: Pending,
    report: Report,
    seen: Observed,
    epoch: u64,
)
    requires
        m.awaits(pending),
        accounted(m, Some(pending), epoch),
        !pending.proven_dead(report, epoch),
        report matches Report::Stopped(Err(error)) ==> error is StopUnconfirmed,
        pending matches Pending::Apply(ApplyStep::Reconcile { desired, .. })
            ==> desired.revision.epoch == m.current->0.revision.epoch,
    ensures
        ({
            let (after, progress) = m.advanced(pending, report, seen);
            accounted(after, next_step(progress), epoch)
        }),
{
    let now = seen.now;
    if quarantine::holds(m.quarantine, epoch) {
        no_step_releases_a_quarantined_epoch(m, pending, report, seen, epoch);
    }
    assert forall|e: u64, error: ErrorView| quarantine::holds(
        #[trigger] m.latched(e, error, now).quarantine,
        e,
    ) by {
        lemma_latched(m, e, error, now);
    }
    assert forall|e: u64, error: ErrorView| #[trigger] m.latched(e, error, now).current
        == m.current by {
        lemma_latched(m, e, error, now);
    }
    match pending {
        Pending::Graceful(GracefulStep::StopBoth { epoch: new_epoch, old_epoch, error }) => {
            if let Report::Stopped(Err(new_error)) = report {
                quarantine::recording_only_adds_its_epoch(m.quarantine, old_epoch, error@.text());
                let held = if error is StopUnconfirmed {
                    ManagerView {
                        quarantine: quarantine::recorded(m.quarantine, old_epoch, error@.text()),
                        ..m
                    }
                } else {
                    m
                };
                let both = ErrorView::StopUnconfirmed(
                    "old epoch stop failed: "@ + error@.text()
                        + "; new bootstrap stop also failed: "@ + new_error@.text(),
                );
                lemma_latched(held, new_epoch, both, now);
            }
        },
        _ => {},
    }
}

/// When a stop that could not be confirmed ends an operation, requests are
/// refused from then on.
pub proof fn an_unconfirmed_stop_closes_the_manager(
    m: ManagerView,
    pending: Pending,
    error: Error,
    seen: Observed,
)
    requires
        pending.awaited() is Stop,
        error is StopUnconfirmed,
    ensures
        ({
            let (after, progress) = m.advanced(pending, Report::Stopped(Err(error)), seen);
            progress is Finished ==> after.refusal() is Some
        }),
{
    let now = seen.now;
    assert forall|e: u64, x: ErrorView| #[trigger] m.latched(e, x, now).refusal() is Some by {
        lemma_latched(m, e, x, now);
    }
    if let Pending::Graceful(
        GracefulStep::StopBoth { epoch: new_epoch, old_epoch, error: first },
    ) = pending {
        let held = if first is StopUnconfirmed {
            ManagerView {
                quarantine: quarantine::recorded(m.quarantine, old_epoch, first@.text()),
                ..m
            }
        } else {
            m
        };
        let both = ErrorView::StopUnconfirmed(
            "old epoch stop failed: "@ + first@.text() + "; new bootstrap stop also failed: "@
                + error@.text(),
        );
        lemma_latched(held, new_epoch, both, now);
    }
}

/// Epoch numbers are handed out once each: a step either keeps the counter, or
/// moves it by one and goes on with the number it reached.
#[verifier::rlimit(60)]
#[verifier::spinoff_prover]
pub proof fn epochs_are_handed_out_once(
    m: ManagerView,
    pending: Pending,
    report: Report,
    seen: Observed,
)
    requires
        m.epoch < u64::MAX,
    ensures
        ({
            let (after, progress) = m.advanced(pending, report, seen);
            after.epoch == m.epoch || (after.epoch == m.epoch + 1 && match next_step(progress) {
                Some(Pending::Start(StartStep::Load { epoch, .. })) => epoch == after.epoch,
                Some(Pending::Hard(HardStep::Prepare { epoch, .. })) => epoch == after.epoch,
                Some(Pending::Graceful(GracefulStep::Prepare { epoch, .. })) => epoch
                    == after.epoch,
                Some(Pending::Apply(ApplyStep::SwitchPrepare { epoch, .. })) => epoch
                    == after.epoch,
                _ => false,
            })
        }),
{
}

/// An operation that succeeds leaves a current epoch behind, except a stop,
/// which leaves none.
#[verifier::rlimit(60)]
#[verifier::spinoff_prover]
pub proof fn success_decides_the_current_epoch(
    m: ManagerView,
    pending: Pending,
    report: Report,
    seen: Observed,
)
    requires
        m.awaits(pending),
    ensures
        ({
            let (after, progress) = m.advanced(pending, report, seen);
            progress matches ProgressView::Finished(Ok(outcome)) ==> (after.current is Some) == !(
            outcome is Stopped)
        }),
{
}

/// When a new epoch is given up before the old one was stopped, the old one
/// stays current and its state is published again.
pub proof fn a_rejected_epoch_leaves_the_old_one(
    m: ManagerView,
    epoch: u64,
    error: Error,
    warning: Option<String>,
    cleaned: Result<(), Error>,
    seen: Observed,
)
    requires
        m.current is Some,
    ensures
        ({
            let pending = Pending::Discard { epoch, error, ending: Ending::Republish, warning };
            let (after, progress) = m.advanced(pending, Report::Cleaned(cleaned), seen);
            let kept = m.current->0;
            &&& after.current == m.current
            &&& after.last_spec == m.last_spec
            &&& after.quarantine == m.quarantine
            &&& after.status.revision == Some(kept.revision)
            &&& after.status.state == publish::core_state(kept.revision.epoch, seen.current.state)
            &&& progress == ProgressView::Finished(Err(publish::uncertain(error@, warning)))
        }),
{
}

/// A core that became ready is published as running, under its own epoch,
/// revision and controller.
pub proof fn a_ready_core_is_published_as_running(
    m: ManagerView,
    launch: Launch,
    ready: super::Readiness,
    now: i64,
)
    ensures
        ({
            let after = m.installed(launch, ready, now);
            &&& after.status.state == (CoreStateView::Running {
                epoch: launch.revision.epoch,
                pid: ready.pid(),
            })
            &&& after.status.revision == Some(launch.revision)
            &&& after.status.controller == Some(launch.controller.host)
            &&& after.status.health == ready.health
            &&& after.current == Some(launch)
            &&& after.last_spec == Some(launch.source_spec)
        }),
{
}

/// Reports of an epoch that is not the published one change nothing.
pub proof fn stale_reports_change_nothing(
    m: ManagerView,
    epoch: u64,
    instance: InstanceStatus,
    now: i64,
)
    requires
        m.status.revision is None || m.status.revision->0.epoch != epoch,
    ensures
        publish::epoch_status(m.status, epoch, instance, now) == m.status,
        !publish::epoch_status_applies(m.status, epoch, instance),
{
}

/// A report that changes the health alone keeps the time of the last
/// transition; a report that was taken in once changes nothing the second time.
pub proof fn health_reports_keep_the_transition_time(
    m: ManagerView,
    epoch: u64,
    instance: InstanceStatus,
    now: i64,
    later: i64,
)
    ensures
        ({
            let once = publish::epoch_status(m.status, epoch, instance, now);
            &&& once.state == m.status.state ==> once.changed_at == m.status.changed_at
            &&& publish::epoch_status(once, epoch, instance, later) == once
            &&& !publish::epoch_status_applies(once, epoch, instance)
        }),
{
}

} // verus!
