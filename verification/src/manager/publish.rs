//! What the manager publishes of itself.

use super::{
    ApplyOutcome, ApplyOutcomeView, CoreManager, Launch, ManagerView, Observed, Outcome,
    OutcomeView, Progress, ProgressView, Readiness, SwitchOutcome, SwitchOutcomeView,
};
use crate::error::{Error, ErrorView};
use crate::host::Host;
use crate::manager::quarantine;
use crate::share::share;
use crate::spec::InstanceSpec;
use crate::state::{
    copy_health, same_health, ConfigRevision, CoreState, CoreStateView, CoreStatus, CoreStatusView,
    HealthState, HealthStatus, InstanceState, InstanceStatus, SpecSummary, StopReason,
    StopReasonView,
};
use crate::state;
use crate::text;
use std::sync::Arc;
use vstd::prelude::*;
use vstd::string::*;

verus! {

/// The manager state in which an instance of `epoch` in `state` shows.
pub open spec fn core_state(epoch: u64, state: InstanceState) -> CoreStateView {
    match state {
        InstanceState::Starting => CoreStateView::Starting { epoch },
        InstanceState::Running { pid } => CoreStateView::Running { epoch, pid },
        InstanceState::Restarting { attempt } => CoreStateView::Restarting { epoch, attempt },
        InstanceState::Stopping => CoreStateView::Stopping { epoch },
        InstanceState::Stopped(reason) => CoreStateView::Stopped { reason: Some(reason@) },
    }
}

/// The manager state in which an instance of `epoch` in `state` shows.
pub fn instance_core_state(epoch: u64, state: &InstanceState) -> (res: CoreState)
    ensures
        res@ == core_state(epoch, *state),
{
    match state {
        InstanceState::Starting => CoreState::Starting { epoch },
        InstanceState::Running { pid } => CoreState::Running { epoch, pid: *pid },
        InstanceState::Restarting { attempt } => CoreState::Restarting { epoch, attempt: *attempt },
        InstanceState::Stopping => CoreState::Stopping { epoch },
        InstanceState::Stopped(reason) => CoreState::Stopped { reason: Some(reason.clone()) },
    }
}

/// The health that a state stands for by itself; none where nothing runs.
pub open spec fn health_target(state: CoreStateView) -> Option<HealthState> {
    match state {
        CoreStateView::Starting { .. } => Some(HealthState::Starting),
        CoreStateView::Restarting { .. } => Some(HealthState::Starting),
        CoreStateView::Switching { .. } => Some(HealthState::Starting),
        CoreStateView::Running { .. } => Some(HealthState::Healthy),
        CoreStateView::Stopping { .. } => None,
        CoreStateView::Stopped { .. } => None,
    }
}

/// The health published with `state` when no instance reports its own: the
/// previous health where it already was what the state stands for.
pub open spec fn default_health(
    previous: Option<HealthStatus>,
    state: CoreStateView,
    now: i64,
) -> Option<HealthStatus> {
    match health_target(state) {
        None => None,
        Some(target) => if previous is Some && previous->0.state == target {
            previous
        } else {
            Some(
                HealthStatus {
                    state: target,
                    changed_at: now,
                    consecutive_failures: 0,
                    last_error: None,
                    last_success_at: None,
                },
            )
        },
    }
}

/// The health published with `state` when no instance reports its own.
pub fn default_health_for_state(
    previous: &Option<HealthStatus>,
    state: &CoreState,
    now: i64,
) -> (res: Option<HealthStatus>)
    ensures
        res == default_health(*previous, state@, now),
{
    let target: HealthState = match state {
        CoreState::Starting { .. } => HealthState::Starting,
        CoreState::Restarting { .. } => HealthState::Starting,
        CoreState::Switching { .. } => HealthState::Starting,
        CoreState::Running { .. } => HealthState::Healthy,
        CoreState::Stopping { .. } => {
            return None;
        },
        CoreState::Stopped { .. } => {
            return None;
        },
    };
    let mut health: HealthStatus = HealthStatus::starting(now);
    health.state = target;
    match previous {
        Some(previous) => {
            if previous.state == target {
                health = previous.clone();
            }
        },
        None => {},
    }
    Some(health)
}

/// What the status tells of a spec.
pub open spec fn summary(spec: InstanceSpec) -> SpecSummary {
    SpecSummary { kind: spec.core.kind, config_path: spec.config_path }
}

/// What the status tells of a spec.
pub fn spec_summary(spec: &InstanceSpec) -> (res: SpecSummary)
    ensures
        res == summary(*spec),
{
    SpecSummary { kind: spec.core.kind, config_path: spec.config_path.clone() }
}

/// The status after an instance of `epoch` reported `instance`: unchanged
/// unless the epoch is the published one and something differs.
pub open spec fn epoch_status(
    status: CoreStatusView,
    epoch: u64,
    instance: InstanceStatus,
    now: i64,
) -> CoreStatusView {
    let state = core_state(epoch, instance.state);
    if !(status.revision is Some && status.revision->0.epoch == epoch) {
        status
    } else if status.state == state && state::health_of(status.health) == state::health_of(
        instance.health,
    ) {
        status
    } else {
        CoreStatusView {
            state,
            health: instance.health,
            changed_at: if status.state != state {
                now
            } else {
                status.changed_at
            },
            ..status
        }
    }
}

/// Whether a report of an instance of `epoch` changes the status.
pub open spec fn epoch_status_applies(
    status: CoreStatusView,
    epoch: u64,
    instance: InstanceStatus,
) -> bool {
    status.revision is Some && status.revision->0.epoch == epoch && (status.state != core_state(
        epoch,
        instance.state,
    ) || state::health_of(status.health) != state::health_of(instance.health))
}

/// Takes the report of an instance of `epoch` into the status. Reports of
/// another epoch than the published one are ignored. Tells whether the status
/// changed.
pub fn apply_epoch_status(
    status: &mut CoreStatus,
    epoch: u64,
    instance: &InstanceStatus,
    now: i64,
) -> (res: bool)
    ensures
        final(status)@ == epoch_status(old(status)@, epoch, *instance, now),
        res == epoch_status_applies(old(status)@, epoch, *instance),
        !res ==> *final(status) == *old(status),
        old(status)@.revision is Some && old(status)@.revision->0.epoch == epoch ==> {
            &&& final(status)@.state is Stopped <==> instance.state is Stopped
            &&& instance.state matches InstanceState::Stopped(reason)
                ==> final(status)@.state->reason == Some(reason@)
            &&& final(status)@.state is Stopping <==> instance.state is Stopping
            &&& final(status)@.state is Running <==> instance.state is Running
        },
{
    match &status.revision {
        Some(revision) => {
            if revision.epoch != epoch {
                return false;
            }
        },
        None => {
            return false;
        },
    }
    let state: CoreState = instance_core_state(epoch, &instance.state);
    let lifecycle_changed: bool = !status.state.same(&state);
    let health_changed: bool = !same_health(&status.health, &instance.health);
    if !lifecycle_changed && !health_changed {
        return false;
    }
    status.state = state;
    status.health = copy_health(&instance.health);
    if lifecycle_changed {
        status.changed_at = now;
    }
    true
}

impl ManagerView {
    /// The manager after it published `status` anew.
    pub open spec fn with_status(self, status: CoreStatusView) -> ManagerView {
        ManagerView {
            status,
            publications: if self.publications == u64::MAX {
                0
            } else {
                (self.publications + 1) as u64
            },
            ..self
        }
    }

    /// The manager after it published a state that no instance reported.
    pub open spec fn published(
        self,
        state: CoreStateView,
        spec: Option<SpecSummary>,
        controller: Option<Host>,
        revision: Option<ConfigRevision>,
        now: i64,
    ) -> ManagerView {
        self.with_status(
            CoreStatusView {
                state,
                changed_at: if self.status.state != state {
                    now
                } else {
                    self.status.changed_at
                },
                health: default_health(self.status.health, state, now),
                spec,
                controller,
                revision,
            },
        )
    }

    /// The manager after it published `state` of an epoch that is under way.
    pub open spec fn announced(self, launch: Launch, state: CoreStateView, now: i64) -> ManagerView {
        self.published(
            state,
            Some(summary(*launch.source_spec)),
            Some(launch.controller.host),
            Some(launch.revision),
            now,
        )
    }

    /// The manager after it published what the instance of `launch` reports.
    pub open spec fn with_instance(
        self,
        launch: Launch,
        state: CoreStateView,
        health: Option<HealthStatus>,
        now: i64,
    ) -> ManagerView {
        self.with_status(
            CoreStatusView {
                state,
                changed_at: if self.status.state != state {
                    now
                } else {
                    self.status.changed_at
                },
                health,
                spec: Some(summary(*launch.source_spec)),
                controller: Some(launch.controller.host),
                revision: Some(launch.revision),
            },
        )
    }

    /// The manager after it published that the core stopped with `error`.
    pub open spec fn failed(self, error: ErrorView, now: i64) -> ManagerView {
        self.published(
            CoreStateView::Stopped { reason: Some(StopReasonView::Error(error.text())) },
            None,
            None,
            None,
            now,
        )
    }

    /// The manager with `epoch` in quarantine because of `error`, published.
    pub open spec fn latched(self, epoch: u64, error: ErrorView, now: i64) -> ManagerView {
        let held = ManagerView {
            quarantine: quarantine::recorded(self.quarantine, epoch, error.text()),
            ..self
        };
        held.failed(quarantine::refusal(held.quarantine)->0, now)
    }

    /// The manager with the ready instance of `launch` as its current one.
    pub open spec fn installed(self, launch: Launch, ready: Readiness, now: i64) -> ManagerView {
        ManagerView {
            current: Some(launch),
            last_spec: Some(launch.source_spec),
            ..self.with_instance(
                launch,
                CoreStateView::Running { epoch: launch.revision.epoch, pid: ready.pid() },
                ready.health,
                now,
            )
        }
    }

    /// The manager after it published its current instance again.
    pub open spec fn republished(self, seen: Observed) -> ManagerView {
        match self.current {
            Some(launch) => self.with_instance(
                launch,
                core_state(launch.revision.epoch, seen.current.state),
                seen.current.health,
                seen.now,
            ),
            None => self,
        }
    }
}

impl Readiness {
    /// The process id, with 0 for an unknown one.
    pub open spec fn pid(self) -> u32 {
        match self.pid {
            Some(pid) => pid,
            None => 0,
        }
    }
}

impl CoreManager {
    fn set_status(
        &mut self,
        state: CoreState,
        health: Option<HealthStatus>,
        spec: Option<SpecSummary>,
        controller: Option<Host>,
        revision: Option<ConfigRevision>,
        now: i64,
    )
        ensures
            final(self).options == old(self).options,
            final(self)@ == old(self)@.with_status(
                CoreStatusView {
                    state: state@,
                    changed_at: if old(self)@.status.state != state@ {
                        now
                    } else {
                        old(self)@.status.changed_at
                    },
                    health,
                    spec,
                    controller,
                    revision,
                },
            ),
    {
        let changed_at: i64 = if self.status.state.same(&state) {
            self.status.changed_at
        } else {
            now
        };
        self.status = CoreStatus { state, changed_at, health, spec, controller, revision };
        self.publications = if self.publications == u64::MAX {
            0
        } else {
            self.publications + 1
        };
    }

    /// Publishes a state that no instance reported.
    pub(crate) fn publish(
        &mut self,
        state: CoreState,
        spec: Option<SpecSummary>,
        controller: Option<Host>,
        revision: Option<ConfigRevision>,
        now: i64,
    )
        ensures
            final(self).options == old(self).options,
            final(self)@ == old(self)@.published(state@, spec, controller, revision, now),
    {
        let health: Option<HealthStatus> = default_health_for_state(
            &self.status.health,
            &state,
            now,
        );
        self.set_status(state, health, spec, controller, revision, now);
    }

    /// Publishes `state` of an epoch that is under way.
    pub(crate) fn announce(&mut self, launch: &Launch, state: CoreState, now: i64)
        ensures
            final(self).options == old(self).options,
            final(self)@ == old(self)@.announced(*launch, state@, now),
    {
        let spec: SpecSummary = spec_summary(&launch.source_spec);
        self.publish(
            state,
            Some(spec),
            Some(launch.controller.host.clone()),
            Some(launch.revision.clone()),
            now,
        );
    }

    /// Publishes what the instance of `launch` reports.
    pub(crate) fn publish_instance(
        &mut self,
        launch: &Launch,
        state: CoreState,
        health: Option<HealthStatus>,
        now: i64,
    )
        ensures
            final(self).options == old(self).options,
            final(self)@ == old(self)@.with_instance(*launch, state@, health, now),
    {
        let spec: SpecSummary = spec_summary(&launch.source_spec);
        self.set_status(
            state,
            health,
            Some(spec),
            Some(launch.controller.host.clone()),
            Some(launch.revision.clone()),
            now,
        );
    }

    /// Publishes that the core stopped with `error`.
    pub(crate) fn publish_terminal_error(&mut self, error: &Error, now: i64)
        ensures
            final(self).options == old(self).options,
            final(self)@ == old(self)@.failed(error@, now),
    {
        let message: String = error.message();
        self.publish(
            CoreState::Stopped { reason: Some(StopReason::Error(message)) },
            None,
            None,
            None,
            now,
        );
    }

    /// Puts `epoch` into quarantine because of `error` and publishes that.
    pub(crate) fn latch_quarantine(&mut self, epoch: u64, error: &Error, now: i64)
        ensures
            final(self).options == old(self).options,
            final(self)@ == old(self)@.latched(epoch, error@, now),
    {
        let reason: String = error.message();
        proof {
            quarantine::recording_only_adds_its_epoch(self@.quarantine, epoch, reason@);
        }
        self.record_quarantine(epoch, reason);
        match self.quarantine_error() {
            Some(refusal) => self.publish_terminal_error(&refusal, now),
            None => {},
        }
    }

    /// Makes the ready instance of `launch` the current one.
    pub(crate) fn install(&mut self, launch: Launch, ready: Readiness, now: i64)
        ensures
            final(self).options == old(self).options,
            final(self)@ == old(self)@.installed(launch, ready, now),
    {
        let pid: u32 = match ready.pid {
            Some(pid) => pid,
            None => 0,
        };
        self.publish_instance(
            &launch,
            CoreState::Running { epoch: launch.revision.epoch, pid },
            ready.health,
            now,
        );
        self.last_spec = Some(share(&launch.source_spec));
        self.current = Some(launch);
    }

    /// Publishes the current instance again.
    pub(crate) fn republish_retained(&mut self, seen: &Observed)
        ensures
            final(self).options == old(self).options,
            final(self)@ == old(self)@.republished(*seen),
    {
        let launch: Launch = match &self.current {
            Some(launch) => launch.clone(),
            None => {
                return;
            },
        };
        let state: CoreState = instance_core_state(launch.revision.epoch, &seen.current.state);
        self.publish_instance(&launch, state, copy_health(&seen.current.health), seen.now);
    }

    /// Takes the report of an instance of `epoch` into the published status.
    /// Tells whether watchers have something new to see.
    pub fn publish_epoch_status(
        &mut self,
        epoch: u64,
        instance: &InstanceStatus,
        now: i64,
    ) -> (res: bool)
        ensures
            res == epoch_status_applies(old(self)@.status, epoch, *instance),
            final(self).options == old(self).options,
            final(self)@ == if res {
                old(self)@.with_status(epoch_status(old(self)@.status, epoch, *instance, now))
            } else {
                old(self)@
            },
            old(self)@.status.revision is Some && old(self)@.status.revision->0.epoch == epoch ==> {
                &&& final(self)@.status.state is Stopped <==> instance.state is Stopped
                &&& instance.state matches InstanceState::Stopped(reason)
                    ==> final(self)@.status.state->reason == Some(reason@)
                &&& final(self)@.status.state is Stopping <==> instance.state is Stopping
                &&& final(self)@.status.state is Running <==> instance.state is Running
            },
    {
        let changed: bool = apply_epoch_status(&mut self.status, epoch, instance, now);
        if changed {
            self.publications = if self.publications == u64::MAX {
                0
            } else {
                self.publications + 1
            };
        }
        changed
    }
}

/// An error under the warning that what was written may not be durable.
pub open spec fn uncertain(error: ErrorView, warning: Option<String>) -> ErrorView {
    match warning {
        Some(warning) => ErrorView::DurabilityUncertain {
            source: Box::new(error),
            warning: warning@,
        },
        None => error,
    }
}

/// An outcome of applying under the warning that it may not be durable.
pub open spec fn uncertain_apply(
    outcome: ApplyOutcomeView,
    warning: Option<String>,
) -> ApplyOutcomeView {
    match warning {
        Some(warning) => ApplyOutcomeView::DurabilityUncertain {
            outcome: Box::new(outcome),
            warning: warning@,
        },
        None => outcome,
    }
}

/// An outcome of switching under the warning that it may not be durable.
pub open spec fn uncertain_switch(
    outcome: SwitchOutcomeView,
    warning: Option<String>,
) -> SwitchOutcomeView {
    match warning {
        Some(warning) => SwitchOutcomeView::DurabilityUncertain {
            outcome: Box::new(outcome),
            warning: warning@,
        },
        None => outcome,
    }
}

/// Puts an outcome under a durability warning, if there is one.
pub fn with_durability_warning(outcome: ApplyOutcome, warning: Option<String>) -> (res:
    ApplyOutcome)
    ensures
        res.content() == uncertain_apply(outcome.content(), warning),
{
    match warning {
        Some(warning) => ApplyOutcome::DurabilityUncertain { outcome: Box::new(outcome), warning },
        None => outcome,
    }
}

/// Puts an error under a durability warning, if there is one.
pub fn with_durability_error(error: Error, warning: Option<String>) -> (res: Error)
    ensures
        res@ == uncertain(error@, warning),
        warning is None ==> res == error,
{
    match warning {
        Some(warning) => Error::DurabilityUncertain { source: Box::new(error), warning },
        None => error,
    }
}

/// Puts a result of applying under a durability warning, if there is one. The
/// result itself stays whole inside.
pub fn with_durability_result(
    result: Result<ApplyOutcome, Error>,
    warning: Option<String>,
) -> (res: Result<ApplyOutcome, Error>)
    ensures
        match (result, res) {
            (Ok(before), Ok(after)) => after.content() == uncertain_apply(
                before.content(),
                warning,
            ),
            (Err(before), Err(after)) => after@ == uncertain(before@, warning),
            _ => false,
        },
{
    match result {
        Ok(outcome) => Ok(with_durability_warning(outcome, warning)),
        Err(error) => Err(with_durability_error(error, warning)),
    }
}

/// Puts a switch outcome under a durability warning, if there is one.
pub fn with_switch_durability_warning(
    outcome: SwitchOutcome,
    warning: Option<String>,
) -> (res: SwitchOutcome)
    ensures
        res.content() == uncertain_switch(outcome.content(), warning),
{
    match warning {
        Some(warning) => SwitchOutcome::DurabilityUncertain { outcome: Box::new(outcome), warning },
        None => outcome,
    }
}

/// Puts a result of switching under a durability warning, if there is one. The
/// result itself stays whole inside.
pub fn with_switch_durability_result(
    result: Result<SwitchOutcome, Error>,
    warning: Option<String>,
) -> (res: Result<SwitchOutcome, Error>)
    ensures
        match (result, res) {
            (Ok(before), Ok(after)) => after.content() == uncertain_switch(
                before.content(),
                warning,
            ),
            (Err(before), Err(after)) => after@ == uncertain(before@, warning),
            _ => false,
        },
{
    match result {
        Ok(outcome) => Ok(with_switch_durability_warning(outcome, warning)),
        Err(error) => Err(with_durability_error(error, warning)),
    }
}

/// That a stop failed after an earlier failure: nobody knows what still runs.
pub open spec fn also_unstopped(first: ErrorView, link: Seq<char>, second: ErrorView) -> ErrorView {
    ErrorView::StopUnconfirmed(first.text() + link + second.text())
}

/// That a stop failed after an earlier failure: nobody knows what still runs.
pub(crate) fn unstopped(first: &Error, link: &str, second: &Error) -> (res: Error)
    ensures
        res is StopUnconfirmed,
        res@ == also_unstopped(first@, link@, second@),
{
    let first: String = first.message();
    let second: String = second.message();
    Error::StopUnconfirmed(text::concat3(first.as_str(), link, second.as_str()))
}

/// What an instance reports is published as what it is: each of its states under
/// the variant of the same name, with the reporting epoch and with its process,
/// its attempt or its reason.
pub proof fn each_instance_state_is_published_as_itself(epoch: u64, state: InstanceState)
    ensures
        ({
            let shown = core_state(epoch, state);
            &&& shown is Stopped <==> state is Stopped
            &&& shown is Stopping <==> state is Stopping
            &&& shown is Starting <==> state is Starting
            &&& shown is Running <==> state is Running
            &&& shown is Restarting <==> state is Restarting
            &&& state matches InstanceState::Stopped(reason) ==> shown->reason == Some(reason@)
            &&& shown is Stopping ==> shown->Stopping_epoch == epoch
            &&& shown is Starting ==> shown->Starting_epoch == epoch
            &&& state matches InstanceState::Running { pid } ==> shown->Running_epoch == epoch
                && shown->pid == pid
            &&& state matches InstanceState::Restarting { attempt } ==> shown->Restarting_epoch
                == epoch && shown->attempt == attempt
        }),
{
}

/// Once the epoch that is shown has reported, its report is what is shown; a
/// report of any other epoch changes nothing. The moment of the change stays
/// unless the state is another one.
pub proof fn the_shown_epoch_is_the_reporting_one(
    status: CoreStatusView,
    epoch: u64,
    instance: InstanceStatus,
    now: i64,
)
    ensures
        ({
            let shown = epoch_status(status, epoch, instance, now);
            let own = status.revision is Some && status.revision->0.epoch == epoch;
            &&& !own ==> shown == status && !epoch_status_applies(status, epoch, instance)
            &&& !epoch_status_applies(status, epoch, instance) ==> shown == status
            &&& own ==> {
                &&& shown.state is Stopped <==> instance.state is Stopped
                &&& shown.state is Stopping <==> instance.state is Stopping
                &&& shown.state is Starting <==> instance.state is Starting
                &&& shown.state is Running <==> instance.state is Running
                &&& shown.state is Restarting <==> instance.state is Restarting
                &&& instance.state matches InstanceState::Stopped(reason) ==> shown.state->reason
                    == Some(reason@)
                &&& instance.state is Stopping ==> shown.state->Stopping_epoch == epoch
                &&& instance.state is Starting ==> shown.state->Starting_epoch == epoch
                &&& instance.state matches InstanceState::Running { pid }
                    ==> shown.state->Running_epoch == epoch && shown.state->pid == pid
                &&& instance.state matches InstanceState::Restarting { attempt }
                    ==> shown.state->Restarting_epoch == epoch && shown.state->attempt == attempt
                &&& state::health_of(shown.health) == state::health_of(instance.health)
            }
            &&& shown.state == status.state ==> shown.changed_at == status.changed_at
            &&& shown.state != status.state ==> shown.changed_at == now
            &&& shown.revision == status.revision && shown.spec == status.spec && shown.controller
                == status.controller
        }),
{
}

/// A report is worth showing exactly if it makes a difference: once shown, the
/// same report makes none.
pub proof fn a_report_is_shown_once(
    status: CoreStatusView,
    epoch: u64,
    instance: InstanceStatus,
    now: i64,
    later: i64,
)
    ensures
        !epoch_status_applies(epoch_status(status, epoch, instance, now), epoch, instance),
        epoch_status(epoch_status(status, epoch, instance, now), epoch, instance, later)
            == epoch_status(status, epoch, instance, now),
{
}

/// A core that runs is healthy until a probe tells otherwise, one that comes up
/// is starting, and one that stops or has stopped has no health. A health that
/// fits already stays as it is.
pub proof fn health_follows_the_state(
    previous: Option<HealthStatus>,
    state: CoreStateView,
    now: i64,
)
    ensures
        ({
            let health = default_health(previous, state, now);
            &&& health is None <==> state is Stopping || state is Stopped
            &&& health is Some ==> {
                &&& health->0.state == HealthState::Healthy <==> state is Running
                &&& health->0.state == HealthState::Starting <==> !(state is Running)
                &&& previous is Some && previous->0.state == health->0.state ==> health == previous
                &&& !(previous is Some && previous->0.state == health->0.state)
                    ==> health->0.changed_at == now && health->0.consecutive_failures == 0
                    && health->0.last_error is None && health->0.last_success_at is None
            }
        }),
{
}

/// What is published is what is shown then, and nothing else of the manager
/// changes but the count of publications. The moment of the change stays unless
/// the state is another one.
pub proof fn a_publication_is_what_is_shown(
    m: ManagerView,
    state: CoreStateView,
    spec: Option<SpecSummary>,
    controller: Option<Host>,
    revision: Option<ConfigRevision>,
    now: i64,
)
    ensures
        ({
            let end = m.published(state, spec, controller, revision, now);
            &&& end.status.state == state
            &&& end.status.spec == spec && end.status.controller == controller
                && end.status.revision == revision
            &&& end.status.health is Some <==> !(state is Stopping || state is Stopped)
            &&& state == m.status.state ==> end.status.changed_at == m.status.changed_at
            &&& state != m.status.state ==> end.status.changed_at == now
            &&& end.publications != m.publications
            &&& m.publications < u64::MAX ==> end.publications == m.publications + 1
            &&& end.current == m.current && end.last_spec == m.last_spec && end.quarantine
                == m.quarantine && end.epoch == m.epoch && end.options == m.options
        }),
{
}

/// A failure is shown as a stop with its text, of no revision; one that leaves
/// the death of a process uncertain refuses every request from then on.
pub proof fn a_failure_is_shown(m: ManagerView, epoch: u64, error: ErrorView, now: i64)
    ensures
        ({
            let failed = m.failed(error, now);
            let latched = m.latched(epoch, error, now);
            &&& failed.status.state == (CoreStateView::Stopped {
                reason: Some(StopReasonView::Error(error.text())),
            })
            &&& failed.status.revision is None && failed.status.health is None
                && failed.status.controller is None && failed.status.spec is None
            &&& failed.quarantine == m.quarantine && failed.current == m.current
            &&& quarantine::holds(latched.quarantine, epoch)
            &&& latched.refusal() is Some
            &&& latched.status.state is Stopped && latched.status.revision is None
            &&& latched.status.state->reason == Some(
                StopReasonView::Error(latched.refusal()->0.text()),
            )
            &&& latched.current == m.current
        }),
{
    quarantine::recording_only_adds_its_epoch(m.quarantine, epoch, error.text());
}

/// What is installed is current and runs, with the process and the health that
/// its readiness told. What is shown again of the current launch is what its
/// instance shows.
pub proof fn an_installed_launch_runs(
    m: ManagerView,
    launch: Launch,
    ready: Readiness,
    seen: Observed,
    now: i64,
)
    ensures
        ({
            let end = m.installed(launch, ready, now);
            &&& end.current == Some(launch) && end.last_spec == Some(launch.source_spec)
            &&& end.status.state is Running && end.status.state->Running_epoch
                == launch.revision.epoch
            &&& ready.pid matches Some(pid) ==> end.status.state->pid == pid
            &&& ready.pid is None ==> end.status.state->pid == 0
            &&& end.status.health == ready.health && end.status.revision == Some(launch.revision)
            &&& end.status.controller == Some(launch.controller.host)
            &&& end.status.spec is Some && end.status.spec->0.kind == launch.source_spec.core.kind
                && end.status.spec->0.config_path == launch.source_spec.config_path
            &&& end.quarantine == m.quarantine && end.epoch == m.epoch
            &&& m.current is None ==> m.republished(seen) == m
            &&& m.current == Some(launch) ==> m.republished(seen).status.revision == Some(
                launch.revision,
            ) && m.republished(seen).status.health == seen.current.health && (
            seen.current.state is Running <==> m.republished(seen).status.state is Running) && (
            seen.current.state is Stopped <==> m.republished(seen).status.state is Stopped)
                && m.republished(seen).current == m.current
        }),
{
}

/// A stop that fails after a failure leaves the end unconfirmed, and both are
/// told, the first one first. A warning never replaces what it goes along with.
pub proof fn two_failures_are_both_told(
    first: ErrorView,
    link: Seq<char>,
    second: ErrorView,
    warning: Option<String>,
)
    ensures
        ({
            let both = also_unstopped(first, link, second);
            &&& both is StopUnconfirmed
            &&& both->StopUnconfirmed_0.take(first.text().len() as int) == first.text()
            &&& both->StopUnconfirmed_0.skip(
                both->StopUnconfirmed_0.len() - second.text().len(),
            ) == second.text()
        }),
        warning is None ==> uncertain(first, warning) == first,
        warning matches Some(told) ==> uncertain(first, warning) is DurabilityUncertain && *uncertain(
            first,
            warning,
        )->source == first && uncertain(first, warning)->DurabilityUncertain_warning == told@,
{
    let detail = also_unstopped(first, link, second)->StopUnconfirmed_0;
    assert(detail.take(first.text().len() as int) =~= first.text());
    assert(detail.skip(detail.len() - second.text().len()) =~= second.text());
}

} // verus!
