//! Instance and manager states and the published status snapshot.

use crate::host::Host;
use crate::kind::CoreKind;
use crate::share::copy_text;
use crate::text;
use vstd::prelude::*;
use vstd::string::*;

verus! {

/// Why a core is not running any more.
#[derive(Debug, PartialEq, Eq)]
pub enum StopReason {
    /// The process exited cleanly; the supervisor does not restart it.
    Finished,
    User,
    Error(String),
}

/// The content of a [`StopReason`].
pub enum StopReasonView {
    Finished,
    User,
    Error(Seq<char>),
}

impl View for StopReason {
    type V = StopReasonView;

    open spec fn view(&self) -> StopReasonView {
        match self {
            StopReason::Finished => StopReasonView::Finished,
            StopReason::User => StopReasonView::User,
            StopReason::Error(message) => StopReasonView::Error(message@),
        }
    }
}

impl Clone for StopReason {
    fn clone(&self) -> (res: Self)
        ensures
            res == *self,
    {
        match self {
            StopReason::Finished => StopReason::Finished,
            StopReason::User => StopReason::User,
            StopReason::Error(message) => StopReason::Error(message.clone()),
        }
    }
}

impl StopReasonView {
    /// How a reason reads in a message.
    pub open spec fn text(self) -> Seq<char> {
        match self {
            StopReasonView::Finished => "core exited"@,
            StopReasonView::User => "stopped by user"@,
            StopReasonView::Error(message) => message,
        }
    }
}

impl StopReason {
    /// The reason as a message.
    pub fn message(&self) -> (res: String)
        ensures
            res@ == self@.text(),
    {
        match self {
            StopReason::Finished => "core exited".to_owned(),
            StopReason::User => "stopped by user".to_owned(),
            StopReason::Error(message) => message.clone(),
        }
    }

    /// Whether two reasons are the same.
    pub fn same(&self, other: &StopReason) -> (res: bool)
        ensures
            res == (self@ == other@),
    {
        match (self, other) {
            (StopReason::Finished, StopReason::Finished) => true,
            (StopReason::User, StopReason::User) => true,
            (StopReason::Error(a), StopReason::Error(b)) => text::same_text(a.as_str(), b.as_str()),
            _ => false,
        }
    }
}

/// The state of one instance.
#[derive(Debug, PartialEq, Eq)]
pub enum InstanceState {
    /// Spawned; the version health probe has not passed yet.
    Starting,
    Running { pid: u32 },
    /// Crashed; the supervisor is backing off, respawning, or re-probing.
    Restarting { attempt: u32 },
    Stopping,
    Stopped(StopReason),
}

impl Clone for InstanceState {
    fn clone(&self) -> (res: Self)
        ensures
            res == *self,
    {
        match self {
            InstanceState::Starting => InstanceState::Starting,
            InstanceState::Running { pid } => InstanceState::Running { pid: *pid },
            InstanceState::Restarting { attempt } => InstanceState::Restarting { attempt: *attempt },
            InstanceState::Stopping => InstanceState::Stopping,
            InstanceState::Stopped(reason) => InstanceState::Stopped(reason.clone()),
        }
    }
}

impl InstanceState {
    /// Whether the instance has ended for good.
    pub fn is_terminal(&self) -> (res: bool)
        ensures
            res == (self is Stopped),
    {
        match self {
            InstanceState::Stopped(_) => true,
            _ => false,
        }
    }
}

/// What the health probe found.
#[derive(Debug, Clone, Copy, PartialEq, Eq, Structural)]
pub enum HealthState {
    Starting,
    Healthy,
    Unhealthy,
}

/// The health of an instance, with its history. Times are Unix milliseconds.
#[derive(Debug, PartialEq, Eq)]
pub struct HealthStatus {
    pub state: HealthState,
    pub changed_at: i64,
    pub consecutive_failures: u32,
    pub last_error: Option<String>,
    pub last_success_at: Option<i64>,
}

/// The content of a [`HealthStatus`].
pub struct HealthStatusView {
    pub state: HealthState,
    pub changed_at: i64,
    pub consecutive_failures: u32,
    pub last_error: Option<Seq<char>>,
    pub last_success_at: Option<i64>,
}

/// The content of an optional string.
pub open spec fn text_of(value: Option<String>) -> Option<Seq<char>> {
    match value {
        Some(text) => Some(text@),
        None => None,
    }
}

impl View for HealthStatus {
    type V = HealthStatusView;

    open spec fn view(&self) -> HealthStatusView {
        HealthStatusView {
            state: self.state,
            changed_at: self.changed_at,
            consecutive_failures: self.consecutive_failures,
            last_error: text_of(self.last_error),
            last_success_at: self.last_success_at,
        }
    }
}

/// The content of an optional health status.
pub open spec fn health_of(value: Option<HealthStatus>) -> Option<HealthStatusView> {
    match value {
        Some(health) => Some(health@),
        None => None,
    }
}

impl Clone for HealthStatus {
    fn clone(&self) -> (res: Self)
        ensures
            res == *self,
    {
        HealthStatus {
            state: self.state,
            changed_at: self.changed_at,
            consecutive_failures: self.consecutive_failures,
            last_error: copy_text(&self.last_error),
            last_success_at: self.last_success_at,
        }
    }
}

impl HealthStatus {
    /// The health of a core that has just been started, at time `now`.
    pub fn starting(now: i64) -> (res: Self)
        ensures
            res == (HealthStatus {
                state: HealthState::Starting,
                changed_at: now,
                consecutive_failures: 0,
                last_error: None,
                last_success_at: None,
            }),
    {
        HealthStatus {
            state: HealthState::Starting,
            changed_at: now,
            consecutive_failures: 0,
            last_error: None,
            last_success_at: None,
        }
    }
}

fn same_optional_text(a: &Option<String>, b: &Option<String>) -> (res: bool)
    ensures
        res == (text_of(*a) == text_of(*b)),
{
    match (a, b) {
        (Some(x), Some(y)) => text::same_text(x.as_str(), y.as_str()),
        (None, None) => true,
        _ => false,
    }
}

/// A copy of an optional health status.
pub fn copy_health(value: &Option<HealthStatus>) -> (res: Option<HealthStatus>)
    ensures
        res == *value,
{
    match value {
        Some(health) => Some(health.clone()),
        None => None,
    }
}

/// Whether two health reports say the same.
pub fn same_health(a: &Option<HealthStatus>, b: &Option<HealthStatus>) -> (res: bool)
    ensures
        res == (health_of(*a) == health_of(*b)),
{
    match (a, b) {
        (Some(x), Some(y)) => {
            let same_success: bool = match (x.last_success_at, y.last_success_at) {
                (Some(p), Some(q)) => p == q,
                (None, None) => true,
                _ => false,
            };
            x.state == y.state && x.changed_at == y.changed_at && x.consecutive_failures
                == y.consecutive_failures && same_optional_text(&x.last_error, &y.last_error)
                && same_success
        },
        (None, None) => true,
        _ => false,
    }
}

/// What an instance publishes about itself.
#[derive(Debug, PartialEq, Eq)]
pub struct InstanceStatus {
    pub state: InstanceState,
    pub health: Option<HealthStatus>,
}

impl Clone for InstanceStatus {
    fn clone(&self) -> (res: Self)
        ensures
            res == *self,
    {
        InstanceStatus { state: self.state.clone(), health: copy_health(&self.health) }
    }
}

/// The state of the core as a whole.
#[derive(Debug, PartialEq, Eq)]
pub enum CoreState {
    Stopped { reason: Option<StopReason> },
    Starting { epoch: u64 },
    Running { epoch: u64, pid: u32 },
    Restarting { epoch: u64, attempt: u32 },
    /// A hard or graceful switch is in flight.
    Switching { from: Option<u64>, to: u64 },
    Stopping { epoch: u64 },
}

/// The content of a [`CoreState`].
pub enum CoreStateView {
    Stopped { reason: Option<StopReasonView> },
    Starting { epoch: u64 },
    Running { epoch: u64, pid: u32 },
    Restarting { epoch: u64, attempt: u32 },
    Switching { from: Option<u64>, to: u64 },
    Stopping { epoch: u64 },
}

impl View for CoreState {
    type V = CoreStateView;

    open spec fn view(&self) -> CoreStateView {
        match self {
            CoreState::Stopped { reason: Some(reason) } => CoreStateView::Stopped {
                reason: Some(reason@),
            },
            CoreState::Stopped { reason: None } => CoreStateView::Stopped { reason: None },
            CoreState::Starting { epoch } => CoreStateView::Starting { epoch: *epoch },
            CoreState::Running { epoch, pid } => CoreStateView::Running { epoch: *epoch, pid: *pid },
            CoreState::Restarting { epoch, attempt } => CoreStateView::Restarting {
                epoch: *epoch,
                attempt: *attempt,
            },
            CoreState::Switching { from, to } => CoreStateView::Switching { from: *from, to: *to },
            CoreState::Stopping { epoch } => CoreStateView::Stopping { epoch: *epoch },
        }
    }
}

impl Clone for CoreState {
    fn clone(&self) -> (res: Self)
        ensures
            res == *self,
    {
        match self {
            CoreState::Stopped { reason: Some(reason) } => CoreState::Stopped {
                reason: Some(reason.clone()),
            },
            CoreState::Stopped { reason: None } => CoreState::Stopped { reason: None },
            CoreState::Starting { epoch } => CoreState::Starting { epoch: *epoch },
            CoreState::Running { epoch, pid } => CoreState::Running { epoch: *epoch, pid: *pid },
            CoreState::Restarting { epoch, attempt } => CoreState::Restarting {
                epoch: *epoch,
                attempt: *attempt,
            },
            CoreState::Switching { from, to } => CoreState::Switching { from: *from, to: *to },
            CoreState::Stopping { epoch } => CoreState::Stopping { epoch: *epoch },
        }
    }
}

impl CoreState {
    /// Whether two states are the same.
    pub fn same(&self, other: &CoreState) -> (res: bool)
        ensures
            res == (self@ == other@),
    {
        match (self, other) {
            (CoreState::Stopped { reason: Some(a) }, CoreState::Stopped { reason: Some(b) }) => a.same(
                b,
            ),
            (CoreState::Stopped { reason: None }, CoreState::Stopped { reason: None }) => true,
            (CoreState::Starting { epoch: a }, CoreState::Starting { epoch: b }) => *a == *b,
            (
                CoreState::Running { epoch: a, pid: p },
                CoreState::Running { epoch: b, pid: q },
            ) => *a == *b && *p == *q,
            (
                CoreState::Restarting { epoch: a, attempt: m },
                CoreState::Restarting { epoch: b, attempt: n },
            ) => *a == *b && *m == *n,
            (
                CoreState::Switching { from: f, to: a },
                CoreState::Switching { from: g, to: b },
            ) => {
                let same_from: bool = match (f, g) {
                    (Some(x), Some(y)) => *x == *y,
                    (None, None) => true,
                    _ => false,
                };
                same_from && *a == *b
            },
            (CoreState::Stopping { epoch: a }, CoreState::Stopping { epoch: b }) => *a == *b,
            _ => false,
        }
    }
}

/// What the status tells about the spec in use.
#[derive(Debug, PartialEq, Eq)]
pub struct SpecSummary {
    pub kind: CoreKind,
    pub config_path: String,
}

impl Clone for SpecSummary {
    fn clone(&self) -> (res: Self)
        ensures
            res == *self,
    {
        SpecSummary { kind: self.kind, config_path: self.config_path.clone() }
    }
}

/// One version of the config that an epoch runs with.
#[derive(Debug, PartialEq, Eq)]
pub struct ConfigRevision {
    pub epoch: u64,
    pub generation: u64,
    pub source_hash: String,
    pub effective_hash: String,
    pub runtime_path: String,
}

impl Clone for ConfigRevision {
    fn clone(&self) -> (res: Self)
        ensures
            res == *self,
    {
        ConfigRevision {
            epoch: self.epoch,
            generation: self.generation,
            source_hash: self.source_hash.clone(),
            effective_hash: self.effective_hash.clone(),
            runtime_path: self.runtime_path.clone(),
        }
    }
}

/// What identifies a revision towards callers.
#[derive(Debug, PartialEq, Eq)]
pub struct RevisionId {
    pub epoch: u64,
    pub generation: u64,
    pub effective_hash: String,
}

/// The content of a [`RevisionId`].
pub struct RevisionIdView {
    pub epoch: u64,
    pub generation: u64,
    pub effective_hash: Seq<char>,
}

impl View for RevisionId {
    type V = RevisionIdView;

    open spec fn view(&self) -> RevisionIdView {
        RevisionIdView {
            epoch: self.epoch,
            generation: self.generation,
            effective_hash: self.effective_hash@,
        }
    }
}

impl Clone for RevisionId {
    fn clone(&self) -> (res: Self)
        ensures
            res == *self,
    {
        RevisionId {
            epoch: self.epoch,
            generation: self.generation,
            effective_hash: self.effective_hash.clone(),
        }
    }
}

impl ConfigRevision {
    /// The identity of this revision.
    pub open spec fn spec_id(self) -> RevisionId {
        RevisionId {
            epoch: self.epoch,
            generation: self.generation,
            effective_hash: self.effective_hash,
        }
    }

    /// The identity of this revision.
    pub fn id(&self) -> (res: RevisionId)
        ensures
            res == self.spec_id(),
    {
        RevisionId {
            epoch: self.epoch,
            generation: self.generation,
            effective_hash: self.effective_hash.clone(),
        }
    }
}

impl RevisionIdView {
    /// How a revision identity reads in a message.
    pub open spec fn text(self) -> Seq<char> {
        "epoch "@ + text::decimal(self.epoch as nat) + " generation "@ + text::decimal(
            self.generation as nat,
        ) + " ("@ + self.effective_hash + ")"@
    }
}

impl RevisionId {
    /// The identity as a message shows it.
    pub fn message(&self) -> (res: String)
        ensures
            res@ == self@.text(),
    {
        let epoch: String = text::decimal_text(self.epoch);
        let generation: String = text::decimal_text(self.generation);
        let mut res: String = text::concat4(
            "epoch ",
            epoch.as_str(),
            " generation ",
            generation.as_str(),
        );
        res.append(" (");
        res.append(self.effective_hash.as_str());
        res.append(")");
        res
    }

    /// Whether two identities are the same.
    pub fn same(&self, other: &RevisionId) -> (res: bool)
        ensures
            res == (self@ == other@),
    {
        self.epoch == other.epoch && self.generation == other.generation && text::same_text(
            self.effective_hash.as_str(),
            other.effective_hash.as_str(),
        )
    }
}

/// Snapshot published to the manager's watchers.
#[derive(Debug, PartialEq, Eq)]
pub struct CoreStatus {
    pub state: CoreState,
    /// Unix milliseconds of the last state transition.
    pub changed_at: i64,
    pub health: Option<HealthStatus>,
    pub spec: Option<SpecSummary>,
    /// The controller endpoint owned by the active epoch.
    pub controller: Option<Host>,
    pub revision: Option<ConfigRevision>,
}

/// The content of a [`CoreStatus`].
pub struct CoreStatusView {
    pub state: CoreStateView,
    pub changed_at: i64,
    pub health: Option<HealthStatus>,
    pub spec: Option<SpecSummary>,
    pub controller: Option<Host>,
    pub revision: Option<ConfigRevision>,
}

impl View for CoreStatus {
    type V = CoreStatusView;

    open spec fn view(&self) -> CoreStatusView {
        CoreStatusView {
            state: self.state@,
            changed_at: self.changed_at,
            health: self.health,
            spec: self.spec,
            controller: self.controller,
            revision: self.revision,
        }
    }
}

impl CoreStatus {
    /// The status of a manager that has started nothing yet, at time `now`.
    pub fn initial(now: i64) -> (res: Self)
        ensures
            res@ == (CoreStatusView {
                state: CoreStateView::Stopped { reason: None },
                changed_at: now,
                health: None,
                spec: None,
                controller: None,
                revision: None,
            }),
    {
        CoreStatus {
            state: CoreState::Stopped { reason: None },
            changed_at: now,
            health: None,
            spec: None,
            controller: None,
            revision: None,
        }
    }
}

impl Clone for CoreStatus {
    fn clone(&self) -> (res: Self)
        ensures
            res == *self,
    {
        CoreStatus {
            state: self.state.clone(),
            changed_at: self.changed_at,
            health: copy_health(&self.health),
            spec: match &self.spec {
                Some(spec) => Some(spec.clone()),
                None => None,
            },
            controller: match &self.controller {
                Some(host) => Some(host.clone()),
                None => None,
            },
            revision: match &self.revision {
                Some(revision) => Some(revision.clone()),
                None => None,
            },
        }
    }
}

/// A state reads as what it is: its content has the same variant, with the same
/// numbers and the same reason.
pub proof fn a_state_reads_as_itself(state: CoreState)
    ensures
        state@ is Stopped <==> state is Stopped,
        state@ is Starting <==> state is Starting,
        state@ is Running <==> state is Running,
        state@ is Restarting <==> state is Restarting,
        state@ is Switching <==> state is Switching,
        state@ is Stopping <==> state is Stopping,
        state matches CoreState::Stopped { reason } ==> (state@->reason is Some <==> reason is Some)
            && (reason is Some ==> state@->reason->0 == reason->0@),
        state matches CoreState::Starting { epoch } ==> state@->Starting_epoch == epoch,
        state matches CoreState::Running { epoch, pid } ==> state@->Running_epoch == epoch
            && state@->pid == pid,
        state matches CoreState::Restarting { epoch, attempt } ==> state@->Restarting_epoch == epoch
            && state@->attempt == attempt,
        state matches CoreState::Switching { from, to } ==> state@->from == from && state@->to
            == to,
        state matches CoreState::Stopping { epoch } ==> state@->Stopping_epoch == epoch,
{
}

/// Two healths of one content differ in nothing, and so do two revisions of one
/// identity in what identifies them.
pub proof fn one_content_is_one_value(
    a: Option<HealthStatus>,
    b: Option<HealthStatus>,
    r: ConfigRevision,
    s: ConfigRevision,
)
    ensures
        health_of(a) == health_of(b) ==> (a is Some <==> b is Some),
        health_of(a) == health_of(b) && a is Some ==> a->0.state == b->0.state && a->0.changed_at
            == b->0.changed_at && a->0.consecutive_failures == b->0.consecutive_failures
            && a->0.last_success_at == b->0.last_success_at && (a->0.last_error is Some
            <==> b->0.last_error is Some) && (a->0.last_error is Some ==> a->0.last_error->0@
            == b->0.last_error->0@),
        r.spec_id()@ == s.spec_id()@ <==> r.epoch == s.epoch && r.generation == s.generation
            && r.effective_hash@ == s.effective_hash@,
{
    assert(health_of(a) is Some ==> a is Some);
    if health_of(a) == health_of(b) && a is Some {
        assert(text_of(a->0.last_error) == text_of(b->0.last_error));
    }
}

/// An error is told in its own words, and the other reasons never in those of
/// each other.
pub proof fn a_reason_is_told_apart(message: Seq<char>)
    ensures
        StopReasonView::Error(message).text() == message,
        StopReasonView::User.text() != StopReasonView::Finished.text(),
{
    reveal_strlit("core exited");
    reveal_strlit("stopped by user");
    assert("core exited"@.len() == 11);
    assert("stopped by user"@.len() == 15);
}

} // verus!
