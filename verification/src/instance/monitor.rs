//! The state machine that watches one instance.
//!
//! Whoever drives it passes in supervisor events, probe observations and the
//! expiry of deadlines, and carries out the [`Reaction`] to each.

use super::{ProbePhase, ProbeResult};
use crate::state::{
    copy_health, HealthState, HealthStatus, InstanceState, InstanceStatus, StopReason,
    StopReasonView,
};
use crate::text;
use vstd::prelude::*;
use vstd::string::*;

verus! {

/// How many lines of the core's error output are kept.
pub const STDERR_TAIL_LINES: usize = 32;

/// How a process ended: its exit code, and how the supervisor describes it.
#[derive(Debug, PartialEq, Eq)]
pub struct Exit {
    pub code: Option<i32>,
    pub description: String,
}

/// What the supervisor reports.
#[derive(Debug, PartialEq, Eq)]
pub enum SupervisorEvent {
    Started { pid: u32 },
    Restarting { attempt: u32 },
    Exited(Exit),
    GaveUp,
    Stopped,
    /// Anything else, which only concerns the supervisor's restart budget.
    Other,
    /// There will be no more events.
    Closed,
}

/// What one probe run found, and of which process.
#[derive(Debug, PartialEq, Eq)]
pub struct ProbeObservation {
    pub run_id: u64,
    pub pid: u32,
    pub phase: ProbePhase,
    /// The instant at which the probe completed, in nanoseconds.
    pub completed_at: u64,
    /// The same in Unix milliseconds.
    pub completed_at_ms: i64,
    pub result: ProbeResult,
}

/// What the health tracker makes of an observation.
#[derive(Debug, PartialEq, Eq)]
pub struct TrackerUpdate {
    pub state: HealthState,
    pub consecutive_failures: u32,
    pub last_error: Option<String>,
}

/// One run of the core process.
#[derive(Debug, Clone, Copy, PartialEq, Eq, Structural)]
pub struct RunState {
    pub run_id: u64,
    pub pid: u32,
    pub ack_attempted: bool,
    pub ready: bool,
}

/// What the driver has to do after a call, in this order.
#[derive(Debug, Clone, Copy, PartialEq, Eq, Structural)]
pub struct Reaction {
    /// Stop the probe driver, if one runs.
    pub stop_driver: bool,
    /// Show watchers the status.
    pub publish: bool,
    /// Start a probe driver for this run.
    pub start_driver: Option<RunState>,
    /// Cancel the probes and the process.
    pub cancel: bool,
    /// Stop monitoring.
    pub finished: bool,
}

/// The monitor of one instance. Instants are in nanoseconds.
#[derive(Debug)]
pub struct Monitor {
    pub status: InstanceStatus,
    pub user_stop: bool,
    pub probe_timeout: bool,
    pub tail: Vec<String>,
    pub ever_ready: bool,
    pub timeout_fired: bool,
    pub probes_cancelled: bool,
    pub next_run_id: u64,
    pub current: Option<RunState>,
    pub respawn_deadline: Option<u64>,
    pub last_exit: Option<Exit>,
    pub initial_deadline: u64,
    pub startup_timeout: u64,
}

/// The content of an [`InstanceState`].
pub enum InstanceStateView {
    Starting,
    Running { pid: u32 },
    Restarting { attempt: u32 },
    Stopping,
    Stopped(StopReasonView),
}

/// The content of an instance state.
pub open spec fn state_content(state: InstanceState) -> InstanceStateView {
    match state {
        InstanceState::Starting => InstanceStateView::Starting,
        InstanceState::Running { pid } => InstanceStateView::Running { pid },
        InstanceState::Restarting { attempt } => InstanceStateView::Restarting { attempt },
        InstanceState::Stopping => InstanceStateView::Stopping,
        InstanceState::Stopped(reason) => InstanceStateView::Stopped(reason@),
    }
}

/// The content of a [`Monitor`].
#[verifier::ext_equal]
pub struct MonitorView {
    pub state: InstanceStateView,
    pub health: Option<HealthStatus>,
    pub user_stop: bool,
    pub probe_timeout: bool,
    pub tail: Seq<Seq<char>>,
    pub ever_ready: bool,
    pub timeout_fired: bool,
    pub probes_cancelled: bool,
    pub next_run_id: u64,
    pub current: Option<RunState>,
    pub respawn_deadline: Option<u64>,
    pub last_exit: Option<Exit>,
    pub initial_deadline: u64,
    pub startup_timeout: u64,
}

impl View for Monitor {
    type V = MonitorView;

    open spec fn view(&self) -> MonitorView {
        MonitorView {
            state: state_content(self.status.state),
            health: self.status.health,
            user_stop: self.user_stop,
            probe_timeout: self.probe_timeout,
            tail: text::texts(self.tail@),
            ever_ready: self.ever_ready,
            timeout_fired: self.timeout_fired,
            probes_cancelled: self.probes_cancelled,
            next_run_id: self.next_run_id,
            current: self.current,
            respawn_deadline: self.respawn_deadline,
            last_exit: self.last_exit,
            initial_deadline: self.initial_deadline,
            startup_timeout: self.startup_timeout,
        }
    }
}

/// The monitor of an instance that has just been spawned, at time `now`.
pub open spec fn fresh(initial_deadline: u64, startup_timeout: u64, now: i64) -> MonitorView {
    MonitorView {
        state: InstanceStateView::Starting,
        health: Some(
            HealthStatus {
                state: HealthState::Starting,
                changed_at: now,
                consecutive_failures: 0,
                last_error: None,
                last_success_at: None,
            },
        ),
        user_stop: false,
        probe_timeout: false,
        tail: Seq::empty(),
        ever_ready: false,
        timeout_fired: false,
        probes_cancelled: false,
        next_run_id: 0,
        current: None,
        respawn_deadline: None,
        last_exit: None,
        initial_deadline,
        startup_timeout,
    }
}

/// Nothing to be done.
pub open spec fn nothing() -> Reaction {
    Reaction {
        stop_driver: false,
        publish: false,
        start_driver: None,
        cancel: false,
        finished: false,
    }
}

fn no_reaction() -> (res: Reaction)
    ensures
        res == nothing(),
{
    Reaction {
        stop_driver: false,
        publish: false,
        start_driver: None,
        cancel: false,
        finished: false,
    }
}

/// The health of a core that starts over, at time `now`.
pub open spec fn restarted_health(previous: Option<HealthStatus>, now: i64) -> HealthStatus {
    HealthStatus {
        state: HealthState::Starting,
        changed_at: if previous is Some && previous->0.state == HealthState::Starting {
            previous->0.changed_at
        } else {
            now
        },
        consecutive_failures: 0,
        last_error: None,
        last_success_at: None,
    }
}

/// The health of a core that starts over, at time `now`.
pub fn reset_starting_health(previous: &Option<HealthStatus>, now: i64) -> (res: HealthStatus)
    ensures
        res == restarted_health(*previous, now),
{
    let changed_at: i64 = match previous {
        Some(previous) => if previous.state == HealthState::Starting {
            previous.changed_at
        } else {
            now
        },
        None => now,
    };
    HealthStatus {
        state: HealthState::Starting,
        changed_at,
        consecutive_failures: 0,
        last_error: None,
        last_success_at: None,
    }
}

/// The health after an observation.
pub open spec fn observed_health(
    previous: Option<HealthStatus>,
    update: TrackerUpdate,
    observation: ProbeObservation,
) -> HealthStatus {
    HealthStatus {
        state: update.state,
        changed_at: if previous is Some && previous->0.state == update.state {
            previous->0.changed_at
        } else {
            observation.completed_at_ms
        },
        consecutive_failures: update.consecutive_failures,
        last_error: update.last_error,
        last_success_at: if observation.result is Healthy {
            Some(observation.completed_at_ms)
        } else {
            match previous {
                Some(health) => health.last_success_at,
                None => None,
            }
        },
    }
}

/// The health after an observation.
pub fn health_status(
    previous: &Option<HealthStatus>,
    update: &TrackerUpdate,
    observation: &ProbeObservation,
) -> (res: HealthStatus)
    ensures
        res == observed_health(*previous, *update, *observation),
        res.state == update.state,
{
    let changed_at: i64 = match previous {
        Some(health) => if health.state == update.state {
            health.changed_at
        } else {
            observation.completed_at_ms
        },
        None => observation.completed_at_ms,
    };
    let last_success_at: Option<i64> = if observation.result.is_healthy() {
        Some(observation.completed_at_ms)
    } else {
        match previous {
            Some(health) => health.last_success_at,
            None => None,
        }
    };
    HealthStatus {
        state: update.state,
        changed_at,
        consecutive_failures: update.consecutive_failures,
        last_error: crate::share::copy_text(&update.last_error),
        last_success_at,
    }
}

/// Whether an observation is of the process that runs now.
pub open spec fn applies(observation: ProbeObservation, run: RunState) -> bool {
    observation.run_id == run.run_id && observation.pid == run.pid
}

/// Whether an observation is of the process that runs now.
pub fn observation_applies(observation: &ProbeObservation, run: &RunState) -> (res: bool)
    ensures
        res == applies(*observation, *run),
{
    observation.run_id == run.run_id && observation.pid == run.pid
}

/// What an optional exit reads like in a message.
pub open spec fn exit_text(exit: Option<Exit>) -> Seq<char> {
    match exit {
        Some(exit) => "Some("@ + exit.description@ + ")"@,
        None => "None"@,
    }
}

impl MonitorView {
    /// The kept error output as one text.
    pub open spec fn tail_text(self) -> Seq<char> {
        text::joined(self.tail, "\n"@)
    }

    /// Why the instance ended: the user's stop comes before a probe timeout,
    /// which comes before a clean exit; anything else is an error.
    pub open spec fn end_reason(self) -> StopReasonView {
        if self.user_stop {
            StopReasonView::User
        } else if self.probe_timeout {
            StopReasonView::Error("health probe timed out\n"@ + self.tail_text())
        } else if self.last_exit is Some && self.last_exit->0.code == Some(0i32) {
            StopReasonView::Finished
        } else {
            StopReasonView::Error(
                "core exited unexpectedly ("@ + exit_text(self.last_exit) + ")\n"@
                    + self.tail_text(),
            )
        }
    }

    /// The monitor after the instance ended for `reason`.
    pub open spec fn ended(self, reason: StopReasonView) -> MonitorView {
        MonitorView { state: InstanceStateView::Stopped(reason), health: None, ..self }
    }

    /// The monitor with no process to probe.
    pub open spec fn idle(self) -> MonitorView {
        MonitorView { current: None, respawn_deadline: None, ..self }
    }

    /// The monitor after its probes were cancelled from outside.
    pub open spec fn probes_stopped(self) -> MonitorView {
        MonitorView { probes_cancelled: true, ..self.idle() }
    }

    /// The run that a start of `pid` begins.
    pub open spec fn fresh_run(self, pid: u32) -> RunState {
        RunState {
            run_id: if self.next_run_id == u64::MAX {
                u64::MAX
            } else {
                (self.next_run_id + 1) as u64
            },
            pid,
            ack_attempted: false,
            ready: false,
        }
    }

    /// What a supervisor event leads to, at the instant `instant` and the time
    /// `now`.
    pub open spec fn after_event(self, event: SupervisorEvent, instant: u64, now: i64) -> (
        MonitorView,
        Reaction,
    ) {
        match event {
            SupervisorEvent::Started { pid } => {
                let run = self.fresh_run(pid);
                (
                    MonitorView {
                        health: Some(restarted_health(self.health, now)),
                        next_run_id: run.run_id,
                        current: Some(run),
                        respawn_deadline: if self.ever_ready {
                            Some((instant + self.startup_timeout) as u64)
                        } else {
                            None
                        },
                        ..self
                    },
                    Reaction {
                        stop_driver: true,
                        publish: true,
                        start_driver: if self.probes_cancelled {
                            None
                        } else {
                            Some(run)
                        },
                        ..nothing()
                    },
                )
            },
            SupervisorEvent::Restarting { attempt } => (
                MonitorView {
                    state: InstanceStateView::Restarting { attempt },
                    health: Some(restarted_health(self.health, now)),
                    ..self.idle()
                },
                Reaction { stop_driver: true, publish: true, ..nothing() },
            ),
            SupervisorEvent::Exited(exit) => (
                MonitorView { last_exit: Some(exit), ..self.idle() },
                Reaction { stop_driver: true, ..nothing() },
            ),
            SupervisorEvent::GaveUp => (
                self.ended(
                    StopReasonView::Error(
                        "core kept crashing; restart budget exhausted\n"@ + self.tail_text(),
                    ),
                ),
                Reaction { stop_driver: true, publish: true, finished: true, ..nothing() },
            ),
            SupervisorEvent::Stopped => (
                self.ended(self.end_reason()),
                Reaction { stop_driver: true, publish: true, finished: true, ..nothing() },
            ),
            SupervisorEvent::Other => (self, nothing()),
            SupervisorEvent::Closed => (
                self.ended(self.end_reason()),
                Reaction { publish: true, finished: true, ..nothing() },
            ),
        }
    }

    /// Whether an observation counts: it is of the current run, and it was made
    /// before the deadlines that are still open.
    pub open spec fn accepts(self, observation: ProbeObservation) -> bool {
        self.current is Some && applies(observation, self.current->0) && (self.ever_ready
            || observation.completed_at <= self.initial_deadline) && (self.respawn_deadline is Some
            ==> observation.completed_at <= self.respawn_deadline->0)
    }

    /// What an observation that counts leads to: the supervisor is asked to
    /// acknowledge the first healthy one of a run, others are published.
    pub open spec fn after_observation(
        self,
        observation: ProbeObservation,
        update: TrackerUpdate,
    ) -> (MonitorView, ObservationStep) {
        let run = self.current->0;
        if !run.ack_attempted && update.state == HealthState::Healthy {
            (
                MonitorView { current: Some(RunState { ack_attempted: true, ..run }), ..self },
                ObservationStep::Acknowledge { pid: run.pid },
            )
        } else {
            (
                MonitorView {
                    health: Some(observed_health(self.health, update, observation)),
                    ..self
                },
                ObservationStep::Publish,
            )
        }
    }

    /// What the supervisor's answer leads to: an acknowledged core runs.
    pub open spec fn after_acknowledgement(
        self,
        observation: ProbeObservation,
        update: TrackerUpdate,
        acknowledged: bool,
    ) -> MonitorView {
        if acknowledged {
            MonitorView {
                state: InstanceStateView::Running { pid: observation.pid },
                health: Some(observed_health(self.health, update, observation)),
                ever_ready: true,
                respawn_deadline: None,
                current: match self.current {
                    Some(run) => Some(RunState { ready: true, ..run }),
                    None => None,
                },
                ..self
            }
        } else {
            self
        }
    }

    /// The monitor after a deadline passed without readiness.
    pub open spec fn timed_out(self) -> (MonitorView, Reaction) {
        (
            MonitorView { probe_timeout: true, ..self.idle() },
            Reaction { stop_driver: true, cancel: true, ..nothing() },
        )
    }

    /// What the passing of the deadline for the initial start leads to, once
    /// the queued observations were taken in.
    pub open spec fn after_initial_deadline(self, became_ready: bool) -> (MonitorView, Reaction) {
        if !became_ready && !self.ever_ready {
            ((MonitorView { timeout_fired: true, ..self.timed_out().0 }), self.timed_out().1)
        } else {
            (self, nothing())
        }
    }

    /// What the passing of the deadline for a respawn leads to, once the queued
    /// observations were taken in.
    pub open spec fn after_respawn_deadline(self, became_ready: bool) -> (MonitorView, Reaction) {
        if !became_ready && self.respawn_deadline is Some {
            self.timed_out()
        } else {
            (self, nothing())
        }
    }

    /// The kept error output with one more line.
    pub open spec fn with_line(self, line: Seq<char>) -> MonitorView {
        MonitorView {
            tail: if self.tail.len() == STDERR_TAIL_LINES {
                self.tail.skip(1).push(line)
            } else {
                self.tail.push(line)
            },
            ..self
        }
    }
}

/// What an observation asks for.
#[derive(Debug, Clone, Copy, PartialEq, Eq, Structural)]
pub enum ObservationStep {
    /// Ask the supervisor to acknowledge that the process is ready.
    Acknowledge { pid: u32 },
    /// Show watchers the status.
    Publish,
}

/// What a direct probe request meets.
#[derive(Debug, PartialEq, Eq)]
pub enum RequestStep {
    /// The probe driver answers.
    Reconcile,
    Answer(ProbeResult),
}

impl Monitor {
    /// The monitor of an instance that has just been spawned, at time `now`.
    pub fn new(initial_deadline: u64, startup_timeout: u64, now: i64) -> (res: Self)
        ensures
            res@ == fresh(initial_deadline, startup_timeout, now),
    {
        let res: Monitor = Monitor {
            status: InstanceStatus {
                state: InstanceState::Starting,
                health: Some(HealthStatus::starting(now)),
            },
            user_stop: false,
            probe_timeout: false,
            tail: Vec::new(),
            ever_ready: false,
            timeout_fired: false,
            probes_cancelled: false,
            next_run_id: 0,
            current: None,
            respawn_deadline: None,
            last_exit: None,
            initial_deadline,
            startup_timeout,
        };
        assert(res@.tail =~= Seq::<Seq<char>>::empty());
        res
    }

    /// The kept error output as one text.
    pub fn tail_text(&self) -> (res: String)
        ensures
            res@ == self@.tail_text(),
    {
        text::join(&self.tail, "\n")
    }

    /// Keeps one more line of error output, and no more than
    /// [`STDERR_TAIL_LINES`].
    pub fn stderr_line(&mut self, line: String)
        ensures
            final(self)@ == old(self)@.with_line(line@),
    {
        let ghost before = self@.tail;
        if self.tail.len() == STDERR_TAIL_LINES {
            let _dropped: String = self.tail.remove(0);
            assert(text::texts(self.tail@) =~= before.skip(1));
        }
        let ghost middle = text::texts(self.tail@);
        self.tail.push(line);
        assert(text::texts(self.tail@) =~= middle.push(line@));
    }

    fn end(&mut self, reason: StopReason)
        ensures
            final(self)@ == old(self)@.ended(reason@),
    {
        self.status = InstanceStatus { state: InstanceState::Stopped(reason), health: None };
    }

    /// Ends the instance for the reason that comes first.
    fn publish_terminal(&mut self)
        ensures
            final(self)@ == old(self)@.ended(old(self)@.end_reason()),
    {
        let clean: bool = match &self.last_exit {
            Some(exit) => match exit.code {
                Some(code) => code == 0,
                None => false,
            },
            None => false,
        };
        let reason: StopReason = if self.user_stop {
            StopReason::User
        } else if self.probe_timeout {
            let tail: String = self.tail_text();
            StopReason::Error(text::concat("health probe timed out\n", tail.as_str()))
        } else if clean {
            StopReason::Finished
        } else {
            let tail: String = self.tail_text();
            let exit: String = match &self.last_exit {
                Some(exit) => text::concat3("Some(", exit.description.as_str(), ")"),
                None => "None".to_owned(),
            };
            StopReason::Error(
                text::concat4(
                    "core exited unexpectedly (",
                    exit.as_str(),
                    ")\n",
                    tail.as_str(),
                ),
            )
        };
        self.end(reason);
    }

    /// Publishes a state; nothing that stops or has stopped has a health.
    pub fn publish(&mut self, state: InstanceState)
        ensures
            final(self)@ == (MonitorView {
                state: state_content(state),
                health: if state is Stopping || state is Stopped {
                    None
                } else {
                    old(self)@.health
                },
                ..old(self)@
            }),
    {
        match &state {
            InstanceState::Stopping => {
                self.status.health = None;
            },
            InstanceState::Stopped(_) => {
                self.status.health = None;
            },
            _ => {},
        }
        self.status.state = state;
    }

    /// The probes were cancelled from outside.
    pub fn probes_cancelled(&mut self) -> (res: Reaction)
        ensures
            final(self)@ == old(self)@.probes_stopped(),
            res == (Reaction { stop_driver: true, ..nothing() }),
    {
        self.probes_cancelled = true;
        self.current = None;
        self.respawn_deadline = None;
        Reaction { stop_driver: true, ..no_reaction() }
    }

    /// Takes an event of the supervisor.
    pub fn supervisor_event(&mut self, event: SupervisorEvent, instant: u64, now: i64) -> (res:
        Reaction)
        requires
            instant + old(self).startup_timeout <= u64::MAX,
        ensures
            (final(self)@, res) == old(self)@.after_event(event, instant, now),
    {
        match event {
            SupervisorEvent::Started { pid } => {
                let run_id: u64 = if self.next_run_id == u64::MAX {
                    u64::MAX
                } else {
                    self.next_run_id + 1
                };
                let run: RunState = RunState { run_id, pid, ack_attempted: false, ready: false };
                self.next_run_id = run_id;
                self.status.health = Some(reset_starting_health(&self.status.health, now));
                self.current = Some(run);
                self.respawn_deadline = if self.ever_ready {
                    Some(instant + self.startup_timeout)
                } else {
                    None
                };
                Reaction {
                    stop_driver: true,
                    publish: true,
                    start_driver: if self.probes_cancelled {
                        None
                    } else {
                        Some(run)
                    },
                    ..no_reaction()
                }
            },
            SupervisorEvent::Restarting { attempt } => {
                self.current = None;
                self.respawn_deadline = None;
                let health: HealthStatus = reset_starting_health(&self.status.health, now);
                self.status = InstanceStatus {
                    state: InstanceState::Restarting { attempt },
                    health: Some(health),
                };
                Reaction { stop_driver: true, publish: true, ..no_reaction() }
            },
            SupervisorEvent::Exited(exit) => {
                self.current = None;
                self.respawn_deadline = None;
                self.last_exit = Some(exit);
                Reaction { stop_driver: true, ..no_reaction() }
            },
            SupervisorEvent::GaveUp => {
                let tail: String = self.tail_text();
                let message: String = text::concat(
                    "core kept crashing; restart budget exhausted\n",
                    tail.as_str(),
                );
                self.end(StopReason::Error(message));
                Reaction { stop_driver: true, publish: true, finished: true, ..no_reaction() }
            },
            SupervisorEvent::Stopped => {
                self.publish_terminal();
                Reaction { stop_driver: true, publish: true, finished: true, ..no_reaction() }
            },
            SupervisorEvent::Other => no_reaction(),
            SupervisorEvent::Closed => {
                self.publish_terminal();
                Reaction { publish: true, finished: true, ..no_reaction() }
            },
        }
    }

    /// Whether an observation counts.
    pub fn accepts(&self, observation: &ProbeObservation) -> (res: bool)
        ensures
            res == self@.accepts(*observation),
    {
        let run: RunState = match self.current {
            Some(run) => run,
            None => {
                return false;
            },
        };
        if !observation_applies(observation, &run) {
            return false;
        }
        let beyond_initial: bool = !self.ever_ready && observation.completed_at
            > self.initial_deadline;
        let beyond_respawn: bool = match self.respawn_deadline {
            Some(deadline) => observation.completed_at > deadline,
            None => false,
        };
        !(beyond_initial || beyond_respawn)
    }

    /// Takes an observation that counts.
    pub fn apply_probe_observation(
        &mut self,
        observation: &ProbeObservation,
        update: &TrackerUpdate,
    ) -> (res: ObservationStep)
        requires
            old(self)@.accepts(*observation),
        ensures
            (final(self)@, res) == old(self)@.after_observation(*observation, *update),
            res is Publish ==> final(self).status.health is Some
                && final(self).status.health->0.state == update.state,
            res is Acknowledge ==> update.state == HealthState::Healthy,
            update.state != HealthState::Healthy ==> res is Publish,
    {
        let run: RunState = self.current.unwrap();
        if !run.ack_attempted && update.state == HealthState::Healthy {
            self.current = Some(RunState { ack_attempted: true, ..run });
            return ObservationStep::Acknowledge { pid: run.pid };
        }
        let health: HealthStatus = health_status(&self.status.health, update, observation);
        self.status.health = Some(health);
        ObservationStep::Publish
    }

    /// Takes the supervisor's answer to an observation. Tells whether the core
    /// has become ready, in which case the status is to be shown to watchers
    /// and the driver goes over to liveness.
    pub fn acknowledge(
        &mut self,
        observation: &ProbeObservation,
        update: &TrackerUpdate,
        acknowledged: bool,
    ) -> (res: bool)
        ensures
            final(self)@ == old(self)@.after_acknowledgement(*observation, *update, acknowledged),
            res == acknowledged,
            res ==> final(self).status.health is Some && final(self).status.health->0.state
                == update.state,
            res ==> final(self)@.state is Running,
            !res ==> final(self)@ == old(self)@,
    {
        if acknowledged {
            self.ever_ready = true;
            self.respawn_deadline = None;
            self.current = match self.current {
                Some(run) => Some(RunState { ready: true, ..run }),
                None => None,
            };
            let health: HealthStatus = health_status(&self.status.health, update, observation);
            self.status = InstanceStatus {
                state: InstanceState::Running { pid: observation.pid },
                health: Some(health),
            };
        }
        acknowledged
    }

    /// Whether the deadline for the initial start is still open.
    pub fn awaits_initial_deadline(&self) -> (res: bool)
        ensures
            res == (!self.ever_ready && !self.timeout_fired),
    {
        !self.ever_ready && !self.timeout_fired
    }

    /// The deadline for the initial start passed and the queued observations
    /// were taken in.
    pub fn initial_deadline_passed(&mut self, became_ready: bool) -> (res: Reaction)
        ensures
            (final(self)@, res) == old(self)@.after_initial_deadline(became_ready),
    {
        if !became_ready && !self.ever_ready {
            self.timeout_fired = true;
            self.current = None;
            self.respawn_deadline = None;
            self.probe_timeout = true;
            return Reaction { stop_driver: true, cancel: true, ..no_reaction() };
        }
        no_reaction()
    }

    /// The deadline for a respawn passed and the queued observations were taken
    /// in.
    pub fn respawn_deadline_passed(&mut self, became_ready: bool) -> (res: Reaction)
        ensures
            (final(self)@, res) == old(self)@.after_respawn_deadline(became_ready),
    {
        if !became_ready && self.respawn_deadline.is_some() {
            self.current = None;
            self.respawn_deadline = None;
            self.probe_timeout = true;
            return Reaction { stop_driver: true, cancel: true, ..no_reaction() };
        }
        no_reaction()
    }

    /// Takes a direct probe request: only a ready process is probed, by the
    /// driver if one runs.
    pub fn probe_request(&self, has_driver: bool) -> (res: RequestStep)
        ensures
            ({
                let ready = self@.current is Some && self@.current->0.ready;
                match res {
                    RequestStep::Reconcile => ready && has_driver,
                    RequestStep::Answer(result) => !(ready && has_driver) && result.blames(
                        if ready {
                            "instance probe driver is not running"@
                        } else {
                            "instance is not running"@
                        },
                    ),
                }
            }),
    {
        let ready: bool = match self.current {
            Some(run) => run.ready,
            None => false,
        };
        if ready {
            if has_driver {
                RequestStep::Reconcile
            } else {
                RequestStep::Answer(
                    ProbeResult::Unhealthy {
                        detail: Some("instance probe driver is not running".to_owned()),
                    },
                )
            }
        } else {
            RequestStep::Answer(
                ProbeResult::Unhealthy { detail: Some("instance is not running".to_owned()) },
            )
        }
    }
}

/// No more than the last [`STDERR_TAIL_LINES`] lines are kept, and the newest is
/// always among them.
pub proof fn the_tail_is_bounded(monitor: MonitorView, line: Seq<char>)
    requires
        monitor.tail.len() <= STDERR_TAIL_LINES,
    ensures
        monitor.with_line(line).tail.len() <= STDERR_TAIL_LINES,
        monitor.with_line(line).tail.last() == line,
{
}

/// An instance shows as running only after the supervisor acknowledged the run
/// that is current: no event and no passing of a deadline makes it so.
pub proof fn only_an_acknowledgement_makes_it_run(
    monitor: MonitorView,
    event: SupervisorEvent,
    instant: u64,
    now: i64,
    observation: ProbeObservation,
    update: TrackerUpdate,
    became_ready: bool,
)
    requires
        !(monitor.state is Running),
    ensures
        !(monitor.after_event(event, instant, now).0.state is Running),
        !(monitor.probes_stopped().state is Running),
        !(monitor.after_observation(observation, update).0.state is Running),
        !(monitor.after_initial_deadline(became_ready).0.state is Running),
        !(monitor.after_respawn_deadline(became_ready).0.state is Running),
        !(monitor.after_acknowledgement(observation, update, false).state is Running),
        monitor.after_acknowledgement(observation, update, true).state
            == (InstanceStateView::Running { pid: observation.pid }),
{
}

/// Each run is asked to be acknowledged at most once: after the first healthy
/// observation every other one of the run is only published.
pub proof fn a_run_is_acknowledged_once(
    monitor: MonitorView,
    first: ProbeObservation,
    first_update: TrackerUpdate,
    acknowledged: bool,
    second: ProbeObservation,
    second_update: TrackerUpdate,
)
    requires
        monitor.accepts(first),
        monitor.after_observation(first, first_update).1 is Acknowledge,
    ensures
        ({
            let next = monitor.after_observation(first, first_update).0.after_acknowledgement(
                first,
                first_update,
                acknowledged,
            );
            next.after_observation(second, second_update).1 == ObservationStep::Publish
        }),
{
}

/// An observation of an earlier run, or of another process, does not count.
pub proof fn observations_of_other_runs_do_not_count(
    monitor: MonitorView,
    pid: u32,
    instant: u64,
    now: i64,
    observation: ProbeObservation,
)
    requires
        monitor.next_run_id < u64::MAX,
        observation.run_id <= monitor.next_run_id || observation.pid != pid,
    ensures
        !monitor.after_event(SupervisorEvent::Started { pid }, instant, now).0.accepts(observation),
{
}

/// An observation that was made at the deadline counts; one made after it does
/// not.
pub proof fn the_deadline_itself_is_in_time(monitor: MonitorView, observation: ProbeObservation)
    requires
        monitor.current is Some,
        applies(observation, monitor.current->0),
        !monitor.ever_ready,
        monitor.respawn_deadline is None,
    ensures
        monitor.accepts(observation) <==> observation.completed_at <= monitor.initial_deadline,
{
}

/// A deadline that passes without readiness leaves no process to probe, and the
/// instance then ends as timed out unless the user stopped it.
pub proof fn a_missed_deadline_ends_in_a_timeout(
    monitor: MonitorView,
    event: SupervisorEvent,
    instant: u64,
    now: i64,
)
    requires
        !monitor.ever_ready,
        event is Stopped || event is Closed,
    ensures
        ({
            let (late, reaction) = monitor.after_initial_deadline(false);
            &&& reaction.cancel && reaction.stop_driver
            &&& late.current is None
            &&& late.after_event(event, instant, now).0.state == InstanceStateView::Stopped(
                if monitor.user_stop {
                    StopReasonView::User
                } else {
                    StopReasonView::Error("health probe timed out\n"@ + monitor.tail_text())
                },
            )
        }),
{
}

/// The health that is shown is the one that the tracker found: its state, its
/// count of failures and its last error are the tracker's, whatever was shown
/// before. The moment of the change stays while the state does, and the last
/// success is the latest healthy observation.
pub proof fn the_shown_health_is_the_tracked_one(
    previous: Option<HealthStatus>,
    update: TrackerUpdate,
    observation: ProbeObservation,
)
    ensures
        ({
            let health = observed_health(previous, update, observation);
            &&& health.state == update.state
            &&& health.consecutive_failures == update.consecutive_failures
            &&& health.last_error == update.last_error
            &&& previous is Some && previous->0.state == health.state ==> health.changed_at
                == previous->0.changed_at
            &&& previous is None || previous->0.state != health.state ==> health.changed_at
                == observation.completed_at_ms
            &&& observation.result is Healthy ==> health.last_success_at == Some(
                observation.completed_at_ms,
            )
            &&& !(observation.result is Healthy) && previous is Some ==> health.last_success_at
                == previous->0.last_success_at
            &&& !(observation.result is Healthy) && previous is None
                ==> health.last_success_at is None
        }),
{
}

/// Every observation ends in the tracker's health, at once or with the
/// acknowledgement: what is shown is healthy only if the tracker says so. The
/// first healthy observation of a run asks for the acknowledgement of its
/// process, and only it makes the instance run.
pub proof fn an_observation_shows_the_tracked_health(
    m: MonitorView,
    observation: ProbeObservation,
    update: TrackerUpdate,
    acknowledged: bool,
)
    requires
        m.accepts(observation),
    ensures
        ({
            let (seen, step) = m.after_observation(observation, update);
            let end = seen.after_acknowledgement(observation, update, acknowledged);
            &&& step is Acknowledge <==> update.state == HealthState::Healthy
                && !m.current->0.ack_attempted
            &&& step is Publish ==> seen.health is Some && seen.health->0.state == update.state
                && seen.state == m.state && seen.ever_ready == m.ever_ready && seen.current
                == m.current
            &&& step matches ObservationStep::Acknowledge { pid } ==> {
                &&& pid == observation.pid
                &&& seen.health == m.health && seen.state == m.state
                &&& seen.current is Some && seen.current->0.ack_attempted
                &&& seen.after_observation(observation, update).1 is Publish
                &&& acknowledged ==> end.state == (InstanceStateView::Running {
                    pid: observation.pid,
                }) && end.ever_ready && end.respawn_deadline is None && end.health is Some
                    && end.health->0.state == HealthState::Healthy && end.current->0.ready
                &&& !acknowledged ==> end == seen
            }
        }),
{
}

/// Only observations of the process that runs now count, and only those of it
/// that came before its deadlines.
pub proof fn only_timely_observations_of_the_run_count(
    m: MonitorView,
    observation: ProbeObservation,
)
    ensures
        m.accepts(observation) ==> m.current is Some && m.current->0.pid == observation.pid
            && m.current->0.run_id == observation.run_id,
        m.accepts(observation) && !m.ever_ready ==> observation.completed_at <= m.initial_deadline,
        m.accepts(observation) && m.respawn_deadline is Some ==> observation.completed_at
            <= m.respawn_deadline->0,
        m.current is Some && m.current->0.pid == observation.pid && m.current->0.run_id
            == observation.run_id && m.ever_ready && m.respawn_deadline is None ==> m.accepts(
            observation,
        ),
{
}

/// An instance ends with the last event of its supervisor and with no other, and
/// then has no health. The reason is the user's stop before all else, then a
/// probe that timed out, then how the process exited: only an exit with zero is
/// a regular end.
pub proof fn an_instance_ends_for_its_reason(
    m: MonitorView,
    event: SupervisorEvent,
    instant: u64,
    now: i64,
)
    ensures
        ({
            let (end, reaction) = m.after_event(event, instant, now);
            let last = event is GaveUp || event is Stopped || event is Closed;
            let zero = m.last_exit is Some && m.last_exit->0.code == Some(0i32);
            &&& reaction.finished <==> last
            &&& last ==> end.state is Stopped && end.health is None && reaction.publish
            &&& !last ==> (end.state is Stopped ==> m.state is Stopped)
            &&& event is GaveUp ==> end.state->Stopped_0 is Error
            &&& event is Stopped || event is Closed ==> {
                &&& end.state->Stopped_0 is User <==> m.user_stop
                &&& end.state->Stopped_0 is Finished <==> !m.user_stop && !m.probe_timeout && zero
                &&& end.state->Stopped_0 is Error <==> !m.user_stop && (m.probe_timeout || !zero)
            }
            &&& !reaction.cancel
            &&& end.user_stop == m.user_stop && end.probe_timeout == m.probe_timeout && end.tail
                == m.tail && end.ever_ready == m.ever_ready && end.probes_cancelled
                == m.probes_cancelled
        }),
{
}

/// A process that was started is a run of its own, which nothing observed of an
/// earlier one counts for; unless probes were cancelled, it is probed. After a
/// first readiness it has to become ready again in time.
pub proof fn a_started_process_is_a_new_run(m: MonitorView, pid: u32, instant: u64, now: i64)
    requires
        instant + m.startup_timeout <= u64::MAX,
    ensures
        ({
            let (end, reaction) = m.after_event(SupervisorEvent::Started { pid }, instant, now);
            &&& end.current is Some && end.current->0.pid == pid && !end.current->0.ready
                && !end.current->0.ack_attempted
            &&& end.next_run_id == end.current->0.run_id
            &&& m.next_run_id < u64::MAX ==> end.current->0.run_id > m.next_run_id
            &&& end.health is Some && end.health->0.state == HealthState::Starting
                && end.health->0.consecutive_failures == 0
            &&& end.state == m.state
            &&& end.respawn_deadline is Some <==> m.ever_ready
            &&& m.ever_ready ==> end.respawn_deadline->0 == instant + m.startup_timeout
            &&& reaction.stop_driver && reaction.publish
            &&& reaction.start_driver is Some <==> !m.probes_cancelled
            &&& reaction.start_driver is Some ==> reaction.start_driver == end.current
        }),
{
}

/// A process that exits is remembered, and nothing shows of it yet; one that
/// will be restarted shows its attempt, as starting. Neither is probed any more.
pub proof fn an_exit_waits_for_its_restart(
    m: MonitorView,
    exit: Exit,
    attempt: u32,
    instant: u64,
    now: i64,
)
    ensures
        ({
            let (exited, silent) = m.after_event(SupervisorEvent::Exited(exit), instant, now);
            let (end, reaction) = m.after_event(
                SupervisorEvent::Restarting { attempt },
                instant,
                now,
            );
            &&& exited.last_exit == Some(exit) && exited.state == m.state && exited.health
                == m.health
            &&& !silent.publish && silent.stop_driver && silent.start_driver is None
            &&& exited.current is None && end.current is None
            &&& exited.respawn_deadline is None && end.respawn_deadline is None
            &&& end.state == (InstanceStateView::Restarting { attempt })
            &&& end.health is Some && end.health->0.state == HealthState::Starting
            &&& m.health is Some && m.health->0.state == HealthState::Starting
                ==> end.health->0.changed_at == m.health->0.changed_at
            &&& m.health is None || m.health->0.state != HealthState::Starting
                ==> end.health->0.changed_at == now
            &&& reaction.publish && reaction.stop_driver && reaction.start_driver is None
            &&& end.last_exit == m.last_exit
        }),
{
}

/// An instance that is not ready in time is cancelled, and one that is never is.
/// Whatever its process then exits with, it has ended in an error, unless the
/// user stopped it.
pub proof fn a_missed_deadline_ends_in_an_error(
    m: MonitorView,
    became_ready: bool,
    exit: Exit,
    instant: u64,
    now: i64,
)
    ensures
        ({
            let (first, cancel) = m.after_initial_deadline(became_ready);
            let (again, abort) = m.after_respawn_deadline(became_ready);
            let gone = first.after_event(SupervisorEvent::Exited(exit), instant, now).0;
            let end = gone.after_event(SupervisorEvent::Stopped, instant, now).0;
            &&& cancel.cancel <==> !became_ready && !m.ever_ready
            &&& abort.cancel <==> !became_ready && m.respawn_deadline is Some
            &&& !cancel.cancel ==> first == m && cancel == nothing()
            &&& !abort.cancel ==> again == m && abort == nothing()
            &&& cancel.cancel ==> first.probe_timeout && first.timeout_fired && first.current is None
                && cancel.stop_driver
            &&& abort.cancel ==> again.probe_timeout && again.current is None
                && again.respawn_deadline is None && abort.stop_driver
            &&& cancel.cancel && !m.user_stop ==> end.state is Stopped && end.state->Stopped_0
                is Error
            &&& cancel.cancel && m.user_stop ==> end.state is Stopped && end.state->Stopped_0
                is User
        }),
{
}

/// The latest lines of error output are kept, in their order, and no more than a
/// fixed number of them.
pub proof fn the_latest_lines_are_kept(m: MonitorView, line: Seq<char>)
    requires
        m.tail.len() <= STDERR_TAIL_LINES,
    ensures
        ({
            let end = m.with_line(line);
            &&& end.tail.len() <= STDERR_TAIL_LINES
            &&& end.tail.len() > 0 && end.tail.last() == line
            &&& m.tail.len() < STDERR_TAIL_LINES ==> end.tail.drop_last() == m.tail
            &&& m.tail.len() == STDERR_TAIL_LINES ==> end.tail.drop_last() == m.tail.skip(1)
        }),
{
    assert(m.tail.push(line).drop_last() =~= m.tail);
    assert(m.tail.skip(1).push(line).drop_last() =~= m.tail.skip(1));
}

/// An error that an instance ends in ends with the latest lines of its error
/// output.
pub proof fn an_error_ends_with_the_latest_lines(
    m: MonitorView,
    event: SupervisorEvent,
    instant: u64,
    now: i64,
)
    requires
        event is GaveUp || event is Stopped || event is Closed,
    ensures
        m.after_event(event, instant, now).0.state matches InstanceStateView::Stopped(
            StopReasonView::Error(message),
        ) ==> message.len() >= m.tail_text().len() && message.skip(
            message.len() - m.tail_text().len(),
        ) == m.tail_text(),
{
    if let InstanceStateView::Stopped(StopReasonView::Error(message)) = m.after_event(
        event,
        instant,
        now,
    ).0.state {
        assert(message.skip(message.len() - m.tail_text().len()) =~= m.tail_text());
    }
}

/// The state of an instance reads as what it is.
pub proof fn an_instance_state_reads_as_itself(state: InstanceState)
    ensures
        ({
            let content = state_content(state);
            &&& content is Starting <==> state is Starting
            &&& content is Running <==> state is Running
            &&& content is Restarting <==> state is Restarting
            &&& content is Stopping <==> state is Stopping
            &&& content is Stopped <==> state is Stopped
            &&& state matches InstanceState::Running { pid } ==> content->pid == pid
            &&& state matches InstanceState::Restarting { attempt } ==> content->attempt == attempt
            &&& state matches InstanceState::Stopped(reason) ==> content->Stopped_0 == reason@
        }),
{
}

/// A new instance is starting and has everything before it: no process, no
/// readiness, no end and nothing that was asked of it.
pub proof fn a_new_instance_is_starting(initial_deadline: u64, startup_timeout: u64, now: i64)
    ensures
        ({
            let m = fresh(initial_deadline, startup_timeout, now);
            &&& m.state is Starting
            &&& m.health is Some && m.health->0.state == HealthState::Starting
                && m.health->0.changed_at == now && m.health->0.consecutive_failures == 0
                && m.health->0.last_error is None && m.health->0.last_success_at is None
            &&& !m.ever_ready && !m.user_stop && !m.probe_timeout && !m.timeout_fired
                && !m.probes_cancelled
            &&& m.current is None && m.last_exit is None && m.respawn_deadline is None
                && m.tail.len() == 0
            &&& m.initial_deadline == initial_deadline && m.startup_timeout == startup_timeout
            &&& m.after_initial_deadline(false).1.cancel
        }),
{
}

} // verus!
