//! What whole operations of the manager ask for, and what they end in.

use super::apply::{ApplyStep, Replace};
use super::quarantine;
use super::switching::{GracefulStep, HardStep};
use super::{
    ApplyOutcomeView, ConfigChange, DegradeReason, Launch, ManagerView, Observed, OutcomeView,
    OverlapBlock, Pending, ProgressView, Readiness, Report, SwitchOutcomeView, Work,
};
use crate::error::{Error, ErrorView};
use crate::kind::CoreKind;
use crate::spec::InstanceSpec;
use crate::state::{CoreStateView, RevisionId, StopReasonView};
use std::sync::Arc;
use vstd::prelude::*;

verus! {

/// Where an operation stands after the reports, of which each comes at the
/// moment of the same number.
pub open spec fn after(
    begun: (ManagerView, ProgressView),
    reports: Seq<Report>,
    at: Seq<Observed>,
) -> (ManagerView, ProgressView)
    decreases reports.len(),
{
    if reports.len() == 0 {
        begun
    } else {
        match begun.1 {
            ProgressView::Continue(pending) => after(
                begun.0.advanced(pending, reports[0], at[0]),
                reports.skip(1),
                at.skip(1),
            ),
            ProgressView::Finished(_) => begun,
        }
    }
}

/// What an operation asks for while the reports come in, until it ends or the
/// reports do.
pub open spec fn asked(
    begun: (ManagerView, ProgressView),
    reports: Seq<Report>,
    at: Seq<Observed>,
) -> Seq<Work>
    decreases reports.len(),
{
    match begun.1 {
        ProgressView::Continue(pending) => if reports.len() == 0 {
            seq![pending.awaited()]
        } else {
            seq![pending.awaited()] + asked(
                begun.0.advanced(pending, reports[0], at[0]),
                reports.skip(1),
                at.skip(1),
            )
        },
        ProgressView::Finished(_) => Seq::empty(),
    }
}

/// The spawn of the instance of a launch, from its effective spec and under its
/// own epoch.
pub open spec fn spawn_of(launch: Launch) -> Work {
    Work::Spawn {
        spec: launch.effective_spec,
        epoch: launch.revision.epoch,
        controller: launch.controller,
    }
}

/// Whether an operation ended well with `launch` as the current one: it is what
/// watchers are shown to run.
pub open spec fn runs(m: ManagerView, launch: Launch, ready: Readiness) -> bool {
    &&& m.current == Some(launch)
    &&& m.last_spec == Some(launch.source_spec)
    &&& m.status.state is Running
    &&& m.status.state->Running_epoch == launch.revision.epoch
    &&& ready.pid is Some ==> m.status.state->Running_pid == ready.pid->0
    &&& m.status.health == ready.health
    &&& m.status.revision == Some(launch.revision)
    &&& m.status.controller == Some(launch.controller.host)
    &&& m.status.spec is Some
    &&& m.status.spec->0.kind == launch.source_spec.core.kind
    &&& m.status.spec->0.config_path == launch.source_spec.config_path
}

/// Whether nothing runs any more, for the reason that watchers are shown.
pub open spec fn down(m: ManagerView, reason: StopReasonView) -> bool {
    &&& m.current is None
    &&& m.status.state is Stopped
    &&& m.status.state->Stopped_reason == Some(reason)
    &&& m.status.health is None
    &&& m.status.revision is None
    &&& m.status.controller is None
    &&& m.status.spec is None
}

/// The states that an operation goes through, each by one report from the one
/// before.
spec fn chained(
    states: Seq<(ManagerView, ProgressView)>,
    reports: Seq<Report>,
    at: Seq<Observed>,
) -> bool {
    &&& states.len() == reports.len() + 1
    &&& forall|i: int|
        0 <= i < reports.len() ==> (#[trigger] states[i]).1 is Continue && states[i + 1]
            == states[i].0.advanced(states[i].1->Continue_0, reports[i], at[i])
}

/// An operation ends in the last of its states, and asks for what they wait for.
proof fn lemma_chain(
    states: Seq<(ManagerView, ProgressView)>,
    reports: Seq<Report>,
    at: Seq<Observed>,
)
    requires
        chained(states, reports, at),
        reports.len() <= at.len(),
    ensures
        after(states[0], reports, at) == states.last(),
        asked(states[0], reports, at) == Seq::new(
            if states.last().1 is Finished {
                reports.len()
            } else {
                states.len()
            },
            |i: int| states[i].1->Continue_0.awaited(),
        ),
    decreases reports.len(),
{
    if reports.len() == 0 {
        assert(asked(states[0], reports, at) =~= Seq::new(
            if states.last().1 is Finished {
                reports.len()
            } else {
                states.len()
            },
            |i: int| states[i].1->Continue_0.awaited(),
        ));
    } else {
        let rest = states.skip(1);
        assert forall|i: int| 0 <= i < reports.skip(1).len() implies (#[trigger] rest[i]).1
            is Continue && rest[i + 1] == rest[i].0.advanced(
            rest[i].1->Continue_0,
            reports.skip(1)[i],
            at.skip(1)[i],
        ) by {
            assert(states[i + 1].1 is Continue);
            assert(states[i + 1 + 1] == rest[i + 1]);
            assert(reports.skip(1)[i] == reports[i + 1]);
            assert(at.skip(1)[i] == at[i + 1]);
        }
        assert(states[0].1 is Continue);
        lemma_chain(rest, reports.skip(1), at.skip(1));
        assert(rest[0] == states[1]);
        assert(rest.last() == states.last());
        assert(asked(states[0], reports, at) =~= Seq::new(
            if states.last().1 is Finished {
                reports.len()
            } else {
                states.len()
            },
            |i: int| states[i].1->Continue_0.awaited(),
        ));
    }
}

/// Whether `reason` is why a switch of a running core cannot be graceful.
pub open spec fn fits(
    reason: DegradeReason,
    m: ManagerView,
    spec: InstanceSpec,
    block: Option<OverlapBlock>,
) -> bool {
    let managed = m.options.controller_mode is Managed;
    let mihomo = spec.core.kind == CoreKind::Mihomo;
    &&& reason == DegradeReason::PassthroughMode <==> !managed
    &&& reason == DegradeReason::UnsupportedKind <==> managed && !mihomo
    &&& reason == DegradeReason::DnsListen <==> managed && mihomo && block == Some(
        OverlapBlock::DnsListen,
    )
    &&& reason == DegradeReason::InboundConflict <==> managed && mihomo && block == Some(
        OverlapBlock::InboundSurface,
    )
}

/// Whether the old core is as current as it was: only what is published of it may
/// have changed.
pub open spec fn kept(m: ManagerView, end: ManagerView) -> bool {
    &&& end.current == m.current
    &&& end.last_spec == m.last_spec
    &&& end.quarantine == m.quarantine
    &&& end.status.revision == Some(m.current->0.revision)
    &&& end.status.controller == Some(m.current->0.controller.host)
}

/// Whether an operation ended as a switch with this outcome, and with the warning
/// if there is one.
pub open spec fn switched_as(
    outcome: OutcomeView,
    expected: SwitchOutcomeView,
    warning: Option<String>,
) -> bool {
    match (outcome, warning) {
        (OutcomeView::Switched(told), None) => told == expected,
        (
            OutcomeView::Switched(SwitchOutcomeView::DurabilityUncertain { outcome,
                warning: told }),
            Some(warning),
        ) => *outcome == expected && told == warning@,
        _ => false,
    }
}

/// Whether an operation ended as an apply with this outcome, and with the warning
/// if there is one.
pub open spec fn applied_as(
    outcome: OutcomeView,
    expected: ApplyOutcomeView,
    warning: Option<String>,
) -> bool {
    match (outcome, warning) {
        (OutcomeView::Applied(told), None) => told == expected,
        (
            OutcomeView::Applied(ApplyOutcomeView::DurabilityUncertain { outcome, warning: told }),
            Some(warning),
        ) => *outcome == expected && told == warning@,
        _ => false,
    }
}

/// Starting a core loads its config, prepares the next epoch, spawns it and waits
/// until it is ready; then it runs. What is spawned is what was prepared.
#[verifier::rlimit(30)]
#[verifier::spinoff_prover]
pub proof fn a_start_runs_what_was_prepared(
    m: ManagerView,
    spec: Arc<InstanceSpec>,
    seen: Observed,
    block: Option<OverlapBlock>,
    launch: Launch,
    ready: Readiness,
    at: Seq<Observed>,
)
    requires
        m.quarantine.len() == 0,
        m.current is None,
        m.epoch < u64::MAX,
        at.len() >= 4,
    ensures
        ({
            let begun = m.begin_start(spec, seen);
            let reports = seq![
                Report::Loaded(Ok(block)),
                Report::Prepared(Ok(launch)),
                Report::Spawned(Ok(())),
                Report::Ready(Ok(ready)),
            ];
            let (end, progress) = after(begun, reports, at);
            &&& asked(begun, reports, at) == seq![
                Work::Load { spec },
                Work::Prepare { spec, epoch: (m.epoch + 1) as u64 },
                spawn_of(launch),
                Work::AwaitReady { epoch: launch.revision.epoch },
            ]
            &&& progress == ProgressView::Finished(Ok(OutcomeView::Started))
            &&& runs(end, launch, ready)
        }),
{
    let begun = m.begin_start(spec, seen);
    let reports = seq![
        Report::Loaded(Ok(block)),
        Report::Prepared(Ok(launch)),
        Report::Spawned(Ok(())),
        Report::Ready(Ok(ready)),
    ];
    let s0 = begun;
    let s1 = s0.0.advanced(s0.1->Continue_0, Report::Loaded(Ok(block)), at[0]);
    assert(s1.1 is Continue
        && s1.1->Continue_0.awaited() == Work::Prepare { spec, epoch: (m.epoch + 1) as u64 });
    let s2 = s1.0.advanced(s1.1->Continue_0, Report::Prepared(Ok(launch)), at[1]);
    assert(s2.1 is Continue && s2.1->Continue_0.awaited() == spawn_of(launch));
    let s3 = s2.0.advanced(s2.1->Continue_0, Report::Spawned(Ok(())), at[2]);
    assert(s3.1 is Continue
        && s3.1->Continue_0.awaited() == Work::AwaitReady { epoch: launch.revision.epoch });
    let s4 = s3.0.advanced(s3.1->Continue_0, Report::Ready(Ok(ready)), at[3]);
    let states = seq![s0, s1, s2, s3, s4];
    lemma_chain(states, reports, at);
    assert(asked(begun, reports, at) =~= seq![
        Work::Load { spec },
        Work::Prepare { spec, epoch: (m.epoch + 1) as u64 },
        spawn_of(launch),
        Work::AwaitReady { epoch: launch.revision.epoch },
    ]);
}

/// A start whose config cannot be read ends there, with that error.
#[verifier::rlimit(30)]
#[verifier::spinoff_prover]
pub proof fn a_start_without_a_config_fails(
    m: ManagerView,
    spec: Arc<InstanceSpec>,
    seen: Observed,
    error: Error,
    at: Seq<Observed>,
)
    requires
        m.quarantine.len() == 0,
        m.current is None,
        m.epoch < u64::MAX,
        at.len() >= 1,
    ensures
        ({
            let begun = m.begin_start(spec, seen);
            let reports = seq![
                Report::Loaded(Err(error)),
            ];
            let (end, progress) = after(begun, reports, at);
            &&& asked(begun, reports, at) == seq![
                Work::Load { spec },
            ]
            &&& progress == ProgressView::Finished(Err(error@))
            &&& down(end, StopReasonView::Error(error@.text()))
            &&& end.quarantine == m.quarantine
        }),
{
    let begun = m.begin_start(spec, seen);
    let reports = seq![
        Report::Loaded(Err(error)),
    ];
    let s0 = begun;
    let s1 = s0.0.advanced(s0.1->Continue_0, Report::Loaded(Err(error)), at[0]);
    let states = seq![s0, s1];
    lemma_chain(states, reports, at);
    assert(asked(begun, reports, at) =~= seq![
        Work::Load { spec },
    ]);
}

/// A start whose preparation fails spawns nothing: the artifacts of the epoch are
/// removed, and the start ends with that error.
#[verifier::rlimit(30)]
#[verifier::spinoff_prover]
pub proof fn a_start_without_a_preparation_fails(
    m: ManagerView,
    spec: Arc<InstanceSpec>,
    seen: Observed,
    block: Option<OverlapBlock>,
    error: Error,
    cleaned: Result<(), Error>,
    at: Seq<Observed>,
)
    requires
        m.quarantine.len() == 0,
        m.current is None,
        m.epoch < u64::MAX,
        at.len() >= 3,
    ensures
        ({
            let begun = m.begin_start(spec, seen);
            let reports = seq![
                Report::Loaded(Ok(block)),
                Report::Prepared(Err(error)),
                Report::Cleaned(cleaned),
            ];
            let (end, progress) = after(begun, reports, at);
            &&& asked(begun, reports, at) == seq![
                Work::Load { spec },
                Work::Prepare { spec, epoch: (m.epoch + 1) as u64 },
                Work::Cleanup { epoch: (m.epoch + 1) as u64 },
            ]
            &&& progress == ProgressView::Finished(Err(error@))
            &&& down(end, StopReasonView::Error(error@.text()))
            &&& end.quarantine == m.quarantine
        }),
{
    let begun = m.begin_start(spec, seen);
    let reports = seq![
        Report::Loaded(Ok(block)),
        Report::Prepared(Err(error)),
        Report::Cleaned(cleaned),
    ];
    let s0 = begun;
    let s1 = s0.0.advanced(s0.1->Continue_0, Report::Loaded(Ok(block)), at[0]);
    assert(s1.1 is Continue
        && s1.1->Continue_0.awaited() == Work::Prepare { spec, epoch: (m.epoch + 1) as u64 });
    let s2 = s1.0.advanced(s1.1->Continue_0, Report::Prepared(Err(error)), at[1]);
    assert(s2.1 is Continue
        && s2.1->Continue_0.awaited() == Work::Cleanup { epoch: (m.epoch + 1) as u64 });
    let s3 = s2.0.advanced(s2.1->Continue_0, Report::Cleaned(cleaned), at[2]);
    let states = seq![s0, s1, s2, s3];
    lemma_chain(states, reports, at);
    assert(asked(begun, reports, at) =~= seq![
        Work::Load { spec },
        Work::Prepare { spec, epoch: (m.epoch + 1) as u64 },
        Work::Cleanup { epoch: (m.epoch + 1) as u64 },
    ]);
}

/// A start whose instance cannot be spawned removes its artifacts and ends with
/// that error.
#[verifier::rlimit(30)]
#[verifier::spinoff_prover]
pub proof fn a_start_that_cannot_spawn_fails(
    m: ManagerView,
    spec: Arc<InstanceSpec>,
    seen: Observed,
    block: Option<OverlapBlock>,
    launch: Launch,
    error: Error,
    cleaned: Result<(), Error>,
    at: Seq<Observed>,
)
    requires
        m.quarantine.len() == 0,
        m.current is None,
        m.epoch < u64::MAX,
        at.len() >= 4,
    ensures
        ({
            let begun = m.begin_start(spec, seen);
            let reports = seq![
                Report::Loaded(Ok(block)),
                Report::Prepared(Ok(launch)),
                Report::Spawned(Err(error)),
                Report::Cleaned(cleaned),
            ];
            let (end, progress) = after(begun, reports, at);
            &&& asked(begun, reports, at) == seq![
                Work::Load { spec },
                Work::Prepare { spec, epoch: (m.epoch + 1) as u64 },
                spawn_of(launch),
                Work::Cleanup { epoch: launch.revision.epoch },
            ]
            &&& progress == ProgressView::Finished(Err(error@))
            &&& down(end, StopReasonView::Error(error@.text()))
            &&& end.quarantine == m.quarantine
        }),
{
    let begun = m.begin_start(spec, seen);
    let reports = seq![
        Report::Loaded(Ok(block)),
        Report::Prepared(Ok(launch)),
        Report::Spawned(Err(error)),
        Report::Cleaned(cleaned),
    ];
    let s0 = begun;
    let s1 = s0.0.advanced(s0.1->Continue_0, Report::Loaded(Ok(block)), at[0]);
    assert(s1.1 is Continue
        && s1.1->Continue_0.awaited() == Work::Prepare { spec, epoch: (m.epoch + 1) as u64 });
    let s2 = s1.0.advanced(s1.1->Continue_0, Report::Prepared(Ok(launch)), at[1]);
    assert(s2.1 is Continue && s2.1->Continue_0.awaited() == spawn_of(launch));
    let s3 = s2.0.advanced(s2.1->Continue_0, Report::Spawned(Err(error)), at[2]);
    assert(s3.1 is Continue
        && s3.1->Continue_0.awaited() == Work::Cleanup { epoch: launch.revision.epoch });
    let s4 = s3.0.advanced(s3.1->Continue_0, Report::Cleaned(cleaned), at[3]);
    let states = seq![s0, s1, s2, s3, s4];
    lemma_chain(states, reports, at);
    assert(asked(begun, reports, at) =~= seq![
        Work::Load { spec },
        Work::Prepare { spec, epoch: (m.epoch + 1) as u64 },
        spawn_of(launch),
        Work::Cleanup { epoch: launch.revision.epoch },
    ]);
}

/// Stopping a core that runs stops its instance and removes its artifacts.
/// Meanwhile it shows as stopping, and then as stopped by the user.
#[verifier::rlimit(30)]
#[verifier::spinoff_prover]
pub proof fn a_stop_stops_the_current_epoch(
    m: ManagerView,
    seen: Observed,
    at: Seq<Observed>,
)
    requires
        m.current is Some,
        !(seen.current.state is Stopped),
        at.len() >= 2,
    ensures
        ({
            let begun = m.begin_stop(seen);
            let reports = seq![
                Report::Stopped(Ok(())),
                Report::Cleaned(Ok(())),
            ];
            let (end, progress) = after(begun, reports, at);
            &&& asked(begun, reports, at) == seq![
                Work::Stop { epoch: m.current->0.revision.epoch },
                Work::Cleanup { epoch: m.current->0.revision.epoch },
            ]
            &&& begun.0.status.state is Stopping
            &&& begun.0.status.state->Stopping_epoch == m.current->0.revision.epoch
            &&& begun.0.status.revision == Some(m.current->0.revision)
            &&& progress == ProgressView::Finished(Ok(OutcomeView::Stopped))
            &&& down(end, StopReasonView::User)
            &&& end.quarantine == m.quarantine
            &&& end.last_spec == m.last_spec
        }),
{
    let begun = m.begin_stop(seen);
    let reports = seq![
        Report::Stopped(Ok(())),
        Report::Cleaned(Ok(())),
    ];
    let s0 = begun;
    let s1 = s0.0.advanced(s0.1->Continue_0, Report::Stopped(Ok(())), at[0]);
    assert(s1.1 is Continue
        && s1.1->Continue_0.awaited() == Work::Cleanup { epoch: m.current->0.revision.epoch });
    let s2 = s1.0.advanced(s1.1->Continue_0, Report::Cleaned(Ok(())), at[1]);
    let states = seq![s0, s1, s2];
    lemma_chain(states, reports, at);
    assert(asked(begun, reports, at) =~= seq![
        Work::Stop { epoch: m.current->0.revision.epoch },
        Work::Cleanup { epoch: m.current->0.revision.epoch },
    ]);
}

/// Stopping a core that has ended already clears it away, and tells that nothing
/// was running.
#[verifier::rlimit(30)]
#[verifier::spinoff_prover]
pub proof fn a_stop_of_what_has_ended_is_no_success(
    m: ManagerView,
    seen: Observed,
    at: Seq<Observed>,
)
    requires
        m.current is Some,
        seen.current.state is Stopped,
        at.len() >= 2,
    ensures
        ({
            let begun = m.begin_stop(seen);
            let reports = seq![
                Report::Stopped(Ok(())),
                Report::Cleaned(Ok(())),
            ];
            let (end, progress) = after(begun, reports, at);
            &&& asked(begun, reports, at) == seq![
                Work::Stop { epoch: m.current->0.revision.epoch },
                Work::Cleanup { epoch: m.current->0.revision.epoch },
            ]
            &&& progress == ProgressView::Finished(Err(ErrorView::NotStarted))
            &&& end.current is None
            &&& end.status.state is Stopped
            &&& end.quarantine == m.quarantine
        }),
{
    let begun = m.begin_stop(seen);
    let reports = seq![
        Report::Stopped(Ok(())),
        Report::Cleaned(Ok(())),
    ];
    let s0 = begun;
    let s1 = s0.0.advanced(s0.1->Continue_0, Report::Stopped(Ok(())), at[0]);
    assert(s1.1 is Continue
        && s1.1->Continue_0.awaited() == Work::Cleanup { epoch: m.current->0.revision.epoch });
    let s2 = s1.0.advanced(s1.1->Continue_0, Report::Cleaned(Ok(())), at[1]);
    let states = seq![s0, s1, s2];
    lemma_chain(states, reports, at);
    assert(asked(begun, reports, at) =~= seq![
        Work::Stop { epoch: m.current->0.revision.epoch },
        Work::Cleanup { epoch: m.current->0.revision.epoch },
    ]);
}

/// Stopping a core that runs fails where its instance cannot be stopped. Where its
/// death is uncertain, its epoch is quarantined.
#[verifier::rlimit(30)]
#[verifier::spinoff_prover]
pub proof fn a_stop_that_fails_says_so(
    m: ManagerView,
    seen: Observed,
    error: Error,
    at: Seq<Observed>,
)
    requires
        m.current is Some,
        !(seen.current.state is Stopped),
        at.len() >= 1,
    ensures
        ({
            let begun = m.begin_stop(seen);
            let reports = seq![
                Report::Stopped(Err(error)),
            ];
            let (end, progress) = after(begun, reports, at);
            &&& asked(begun, reports, at) == seq![
                Work::Stop { epoch: m.current->0.revision.epoch },
            ]
            &&& progress == ProgressView::Finished(Err(error@))
            &&& end.current is None
            &&& end.status.state is Stopped
            &&& error is StopUnconfirmed
                ==> quarantine::holds(end.quarantine, m.current->0.revision.epoch)
                && end.refusal() is Some
            &&& !(error is StopUnconfirmed)
                ==> end.quarantine == m.quarantine
                && down(end, StopReasonView::Error(error@.text()))
        }),
{
    let begun = m.begin_stop(seen);
    let reports = seq![
        Report::Stopped(Err(error)),
    ];
    quarantine::recording_only_adds_its_epoch(m.quarantine, m.current->0.revision.epoch,
        error@.text());
    let s0 = begun;
    let s1 = s0.0.advanced(s0.1->Continue_0, Report::Stopped(Err(error)), at[0]);
    let states = seq![s0, s1];
    lemma_chain(states, reports, at);
    assert(asked(begun, reports, at) =~= seq![
        Work::Stop { epoch: m.current->0.revision.epoch },
    ]);
}

/// Stopping a core fails where its artifacts cannot be removed, though nothing
/// runs any more.
#[verifier::rlimit(30)]
#[verifier::spinoff_prover]
pub proof fn an_uncleaned_stop_says_so(
    m: ManagerView,
    seen: Observed,
    error: Error,
    at: Seq<Observed>,
)
    requires
        m.current is Some,
        !(seen.current.state is Stopped),
        at.len() >= 2,
    ensures
        ({
            let begun = m.begin_stop(seen);
            let reports = seq![
                Report::Stopped(Ok(())),
                Report::Cleaned(Err(error)),
            ];
            let (end, progress) = after(begun, reports, at);
            &&& asked(begun, reports, at) == seq![
                Work::Stop { epoch: m.current->0.revision.epoch },
                Work::Cleanup { epoch: m.current->0.revision.epoch },
            ]
            &&& progress == ProgressView::Finished(Err(error@))
            &&& down(end, StopReasonView::Error(error@.text()))
            &&& end.quarantine == m.quarantine
        }),
{
    let begun = m.begin_stop(seen);
    let reports = seq![
        Report::Stopped(Ok(())),
        Report::Cleaned(Err(error)),
    ];
    let s0 = begun;
    let s1 = s0.0.advanced(s0.1->Continue_0, Report::Stopped(Ok(())), at[0]);
    assert(s1.1 is Continue
        && s1.1->Continue_0.awaited() == Work::Cleanup { epoch: m.current->0.revision.epoch });
    let s2 = s1.0.advanced(s1.1->Continue_0, Report::Cleaned(Err(error)), at[1]);
    let states = seq![s0, s1, s2];
    lemma_chain(states, reports, at);
    assert(asked(begun, reports, at) =~= seq![
        Work::Stop { epoch: m.current->0.revision.epoch },
        Work::Cleanup { epoch: m.current->0.revision.epoch },
    ]);
}

/// A shutdown stops the instance, whatever state it shows, and removes its
/// artifacts.
#[verifier::rlimit(30)]
#[verifier::spinoff_prover]
pub proof fn a_shutdown_stops_the_current_epoch(
    m: ManagerView,
    seen: Observed,
    at: Seq<Observed>,
)
    requires
        m.current is Some,
        at.len() >= 2,
    ensures
        ({
            let begun = m.begin_shutdown(seen);
            let reports = seq![
                Report::Stopped(Ok(())),
                Report::Cleaned(Ok(())),
            ];
            let (end, progress) = after(begun, reports, at);
            &&& asked(begun, reports, at) == seq![
                Work::Stop { epoch: m.current->0.revision.epoch },
                Work::Cleanup { epoch: m.current->0.revision.epoch },
            ]
            &&& progress == ProgressView::Finished(Ok(OutcomeView::Stopped))
            &&& down(end, StopReasonView::User)
        }),
{
    let begun = m.begin_shutdown(seen);
    let reports = seq![
        Report::Stopped(Ok(())),
        Report::Cleaned(Ok(())),
    ];
    let s0 = begun;
    let s1 = s0.0.advanced(s0.1->Continue_0, Report::Stopped(Ok(())), at[0]);
    assert(s1.1 is Continue
        && s1.1->Continue_0.awaited() == Work::Cleanup { epoch: m.current->0.revision.epoch });
    let s2 = s1.0.advanced(s1.1->Continue_0, Report::Cleaned(Ok(())), at[1]);
    let states = seq![s0, s1, s2];
    lemma_chain(states, reports, at);
    assert(asked(begun, reports, at) =~= seq![
        Work::Stop { epoch: m.current->0.revision.epoch },
        Work::Cleanup { epoch: m.current->0.revision.epoch },
    ]);
}

/// A switch that cannot be graceful stops the old instance and removes its
/// artifacts before it spawns the new one: nothing is spawned before the stop of
/// the old epoch was confirmed. It tells why it was hard.
#[verifier::rlimit(30)]
#[verifier::spinoff_prover]
pub proof fn a_hard_switch_stops_before_it_spawns(
    m: ManagerView,
    spec: Arc<InstanceSpec>,
    seen: Observed,
    block: Option<OverlapBlock>,
    launch: Launch,
    ready: Readiness,
    at: Seq<Observed>,
)
    requires
        m.quarantine.len() == 0,
        m.current is Some,
        !(seen.current.state is Stopped),
        m.epoch < u64::MAX,
        block is Some || !(
            m.options.controller_mode is Managed) || spec.core.kind != CoreKind::Mihomo,
        at.len() >= 6,
    ensures
        ({
            let begun = m.begin_switch(spec, seen);
            let reports = seq![
                Report::Loaded(Ok(block)),
                Report::Prepared(Ok(launch)),
                Report::Stopped(Ok(())),
                Report::Cleaned(Ok(())),
                Report::Spawned(Ok(())),
                Report::Ready(Ok(ready)),
            ];
            let (end, progress) = after(begun, reports, at);
            &&& asked(begun, reports, at) == seq![
                Work::Load { spec },
                Work::Prepare { spec, epoch: (m.epoch + 1) as u64 },
                Work::Stop { epoch: m.current->0.revision.epoch },
                Work::Cleanup { epoch: m.current->0.revision.epoch },
                spawn_of(launch),
                Work::AwaitReady { epoch: launch.revision.epoch },
            ]
            &&& progress is Finished && progress->Finished_0 is Ok
            &&& progress->Finished_0->Ok_0 is Switched
            &&& progress->Finished_0->Ok_0->Switched_0 matches SwitchOutcomeView::Hard { reason } && fits(reason, m, *spec, block)
            &&& runs(end, launch, ready)
            &&& end.quarantine == m.quarantine
        }),
{
    let begun = m.begin_switch(spec, seen);
    let reports = seq![
        Report::Loaded(Ok(block)),
        Report::Prepared(Ok(launch)),
        Report::Stopped(Ok(())),
        Report::Cleaned(Ok(())),
        Report::Spawned(Ok(())),
        Report::Ready(Ok(ready)),
    ];
    let s0 = begun;
    let s1 = s0.0.advanced(s0.1->Continue_0, Report::Loaded(Ok(block)), at[0]);
    assert(s1.1 is Continue
        && s1.1->Continue_0.awaited() == Work::Prepare { spec, epoch: (m.epoch + 1) as u64 });
    let s2 = s1.0.advanced(s1.1->Continue_0, Report::Prepared(Ok(launch)), at[1]);
    assert(s2.1 is Continue
        && s2.1->Continue_0.awaited() == Work::Stop { epoch: m.current->0.revision.epoch });
    let s3 = s2.0.advanced(s2.1->Continue_0, Report::Stopped(Ok(())), at[2]);
    assert(s3.1 is Continue
        && s3.1->Continue_0.awaited() == Work::Cleanup { epoch: m.current->0.revision.epoch });
    let s4 = s3.0.advanced(s3.1->Continue_0, Report::Cleaned(Ok(())), at[3]);
    assert(s4.1 is Continue && s4.1->Continue_0.awaited() == spawn_of(launch));
    let s5 = s4.0.advanced(s4.1->Continue_0, Report::Spawned(Ok(())), at[4]);
    assert(s5.1 is Continue
        && s5.1->Continue_0.awaited() == Work::AwaitReady { epoch: launch.revision.epoch });
    let s6 = s5.0.advanced(s5.1->Continue_0, Report::Ready(Ok(ready)), at[5]);
    let states = seq![s0, s1, s2, s3, s4, s5, s6];
    lemma_chain(states, reports, at);
    assert(asked(begun, reports, at) =~= seq![
        Work::Load { spec },
        Work::Prepare { spec, epoch: (m.epoch + 1) as u64 },
        Work::Stop { epoch: m.current->0.revision.epoch },
        Work::Cleanup { epoch: m.current->0.revision.epoch },
        spawn_of(launch),
        Work::AwaitReady { epoch: launch.revision.epoch },
    ]);
}

/// A switch while nothing runs is a start that tells so.
#[verifier::rlimit(30)]
#[verifier::spinoff_prover]
pub proof fn a_switch_of_nothing_is_a_start(
    m: ManagerView,
    spec: Arc<InstanceSpec>,
    seen: Observed,
    block: Option<OverlapBlock>,
    launch: Launch,
    ready: Readiness,
    at: Seq<Observed>,
)
    requires
        m.quarantine.len() == 0,
        m.current is None,
        m.epoch < u64::MAX,
        at.len() >= 4,
    ensures
        ({
            let begun = m.begin_switch(spec, seen);
            let reports = seq![
                Report::Loaded(Ok(block)),
                Report::Prepared(Ok(launch)),
                Report::Spawned(Ok(())),
                Report::Ready(Ok(ready)),
            ];
            let (end, progress) = after(begun, reports, at);
            &&& asked(begun, reports, at) == seq![
                Work::Load { spec },
                Work::Prepare { spec, epoch: (m.epoch + 1) as u64 },
                spawn_of(launch),
                Work::AwaitReady { epoch: launch.revision.epoch },
            ]
            &&& progress
                == ProgressView::Finished(Ok(OutcomeView::Switched(
                SwitchOutcomeView::Hard { reason: DegradeReason::NotRunning })))
            &&& runs(end, launch, ready)
        }),
{
    let begun = m.begin_switch(spec, seen);
    let reports = seq![
        Report::Loaded(Ok(block)),
        Report::Prepared(Ok(launch)),
        Report::Spawned(Ok(())),
        Report::Ready(Ok(ready)),
    ];
    let s0 = begun;
    let s1 = s0.0.advanced(s0.1->Continue_0, Report::Loaded(Ok(block)), at[0]);
    assert(s1.1 is Continue
        && s1.1->Continue_0.awaited() == Work::Prepare { spec, epoch: (m.epoch + 1) as u64 });
    let s2 = s1.0.advanced(s1.1->Continue_0, Report::Prepared(Ok(launch)), at[1]);
    assert(s2.1 is Continue && s2.1->Continue_0.awaited() == spawn_of(launch));
    let s3 = s2.0.advanced(s2.1->Continue_0, Report::Spawned(Ok(())), at[2]);
    assert(s3.1 is Continue
        && s3.1->Continue_0.awaited() == Work::AwaitReady { epoch: launch.revision.epoch });
    let s4 = s3.0.advanced(s3.1->Continue_0, Report::Ready(Ok(ready)), at[3]);
    let states = seq![s0, s1, s2, s3, s4];
    lemma_chain(states, reports, at);
    assert(asked(begun, reports, at) =~= seq![
        Work::Load { spec },
        Work::Prepare { spec, epoch: (m.epoch + 1) as u64 },
        spawn_of(launch),
        Work::AwaitReady { epoch: launch.revision.epoch },
    ]);
}

/// A hard switch whose preparation fails leaves the old core as it was: only the
/// artifacts of the new epoch are removed.
#[verifier::rlimit(30)]
#[verifier::spinoff_prover]
pub proof fn an_unprepared_switch_keeps_the_old_core(
    m: ManagerView,
    spec: Arc<InstanceSpec>,
    seen: Observed,
    block: Option<OverlapBlock>,
    error: Error,
    cleaned: Result<(), Error>,
    at: Seq<Observed>,
)
    requires
        m.quarantine.len() == 0,
        m.current is Some,
        !(seen.current.state is Stopped),
        m.epoch < u64::MAX,
        block is Some || !(
            m.options.controller_mode is Managed) || spec.core.kind != CoreKind::Mihomo,
        at.len() >= 3,
    ensures
        ({
            let begun = m.begin_switch(spec, seen);
            let reports = seq![
                Report::Loaded(Ok(block)),
                Report::Prepared(Err(error)),
                Report::Cleaned(cleaned),
            ];
            let (end, progress) = after(begun, reports, at);
            &&& asked(begun, reports, at) == seq![
                Work::Load { spec },
                Work::Prepare { spec, epoch: (m.epoch + 1) as u64 },
                Work::Cleanup { epoch: (m.epoch + 1) as u64 },
            ]
            &&& progress == ProgressView::Finished(Err(error@))
            &&& kept(m, end)
        }),
{
    let begun = m.begin_switch(spec, seen);
    let reports = seq![
        Report::Loaded(Ok(block)),
        Report::Prepared(Err(error)),
        Report::Cleaned(cleaned),
    ];
    let s0 = begun;
    let s1 = s0.0.advanced(s0.1->Continue_0, Report::Loaded(Ok(block)), at[0]);
    assert(s1.1 is Continue
        && s1.1->Continue_0.awaited() == Work::Prepare { spec, epoch: (m.epoch + 1) as u64 });
    let s2 = s1.0.advanced(s1.1->Continue_0, Report::Prepared(Err(error)), at[1]);
    assert(s2.1 is Continue
        && s2.1->Continue_0.awaited() == Work::Cleanup { epoch: (m.epoch + 1) as u64 });
    let s3 = s2.0.advanced(s2.1->Continue_0, Report::Cleaned(cleaned), at[2]);
    let states = seq![s0, s1, s2, s3];
    lemma_chain(states, reports, at);
    assert(asked(begun, reports, at) =~= seq![
        Work::Load { spec },
        Work::Prepare { spec, epoch: (m.epoch + 1) as u64 },
        Work::Cleanup { epoch: (m.epoch + 1) as u64 },
    ]);
}

/// Applying a change that the core can take while it runs backs the runtime config
/// up, replaces it and has the core take it. At the end the desired revision is
/// the current one, of the instance that ran before, and the outcome tells how the
/// core took it.
#[verifier::rlimit(30)]
#[verifier::spinoff_prover]
pub proof fn an_apply_brings_the_desired_config(
    m: ManagerView,
    spec: Arc<InstanceSpec>,
    seen: Observed,
    block: Option<OverlapBlock>,
    desired: Launch,
    change: ConfigChange,
    warning: Option<String>,
    ready: Readiness,
    cleaned: Result<(), Error>,
    at: Seq<Observed>,
)
    requires
        m.quarantine.len() == 0,
        m.current is Some,
        !(seen.current.state is Stopped),
        m.epoch < u64::MAX,
        change == ConfigChange::Patch || change == ConfigChange::Reload,
        at.len() >= 6,
    ensures
        ({
            let begun = m.begin_apply(spec, None, seen);
            let reports = seq![
                Report::Loaded(Ok(block)),
                Report::ApplyPrepared(Ok((desired, change))),
                Report::BackedUp(Ok(())),
                Report::Committed(Ok(warning)),
                Report::Reconciled(Some(ready)),
                Report::BackupRemoved(cleaned),
            ];
            let (end, progress) = after(begun, reports, at);
            &&& asked(begun, reports, at) == seq![
                Work::Load { spec },
                Work::PrepareApply { spec },
                Work::Backup { epoch: m.current->0.revision.epoch,
                    generation: desired.revision.generation },
                Work::CommitReplace { epoch: desired.revision.epoch },
                Work::Reconcile { epoch: desired.revision.epoch, change },
                Work::RemoveBackup { epoch: desired.revision.epoch },
            ]
            &&& progress is Finished && progress->Finished_0 is Ok
            &&& change == ConfigChange::Patch
                ==> applied_as(progress->Finished_0->Ok_0,
                ApplyOutcomeView::Patched { revision: desired.revision }, warning)
            &&& change == ConfigChange::Reload
                ==> applied_as(progress->Finished_0->Ok_0,
                ApplyOutcomeView::Reloaded { revision: desired.revision }, warning)
            &&& end.current is Some
            &&& end.current->0.revision == desired.revision
            &&& end.current->0.source_spec == desired.source_spec
            &&& end.current->0.effective_document == desired.effective_document
            &&& end.current->0.effective_spec == m.current->0.effective_spec
            &&& end.current->0.controller == m.current->0.controller
            &&& runs(end, end.current->0, ready)
            &&& end.quarantine == m.quarantine
            &&& end.epoch == m.epoch
        }),
{
    let begun = m.begin_apply(spec, None, seen);
    let reports = seq![
        Report::Loaded(Ok(block)),
        Report::ApplyPrepared(Ok((desired, change))),
        Report::BackedUp(Ok(())),
        Report::Committed(Ok(warning)),
        Report::Reconciled(Some(ready)),
        Report::BackupRemoved(cleaned),
    ];
    let s0 = begun;
    let s1 = s0.0.advanced(s0.1->Continue_0, Report::Loaded(Ok(block)), at[0]);
    assert(s1.1 is Continue && s1.1->Continue_0.awaited() == Work::PrepareApply { spec });
    let s2 = s1.0.advanced(s1.1->Continue_0, Report::ApplyPrepared(Ok((desired, change))), at[1]);
    assert(s2.1 is Continue
        && s2.1->Continue_0.awaited()
        == Work::Backup { epoch: m.current->0.revision.epoch,
        generation: desired.revision.generation });
    let s3 = s2.0.advanced(s2.1->Continue_0, Report::BackedUp(Ok(())), at[2]);
    assert(s3.1 is Continue
        && s3.1->Continue_0.awaited() == Work::CommitReplace { epoch: desired.revision.epoch });
    let s4 = s3.0.advanced(s3.1->Continue_0, Report::Committed(Ok(warning)), at[3]);
    assert(s4.1 is Continue
        && s4.1->Continue_0.awaited() == Work::Reconcile { epoch: desired.revision.epoch, change });
    let s5 = s4.0.advanced(s4.1->Continue_0, Report::Reconciled(Some(ready)), at[4]);
    assert(s5.1 is Continue
        && s5.1->Continue_0.awaited() == Work::RemoveBackup { epoch: desired.revision.epoch });
    let s6 = s5.0.advanced(s5.1->Continue_0, Report::BackupRemoved(cleaned), at[5]);
    let states = seq![s0, s1, s2, s3, s4, s5, s6];
    lemma_chain(states, reports, at);
    assert(asked(begun, reports, at) =~= seq![
        Work::Load { spec },
        Work::PrepareApply { spec },
        Work::Backup { epoch: m.current->0.revision.epoch,
            generation: desired.revision.generation },
        Work::CommitReplace { epoch: desired.revision.epoch },
        Work::Reconcile { epoch: desired.revision.epoch, change },
        Work::RemoveBackup { epoch: desired.revision.epoch },
    ]);
}

/// Applying a config that changes nothing asks for nothing more, and tells the
/// revision that stays.
#[verifier::rlimit(30)]
#[verifier::spinoff_prover]
pub proof fn an_apply_without_a_change_does_nothing(
    m: ManagerView,
    spec: Arc<InstanceSpec>,
    seen: Observed,
    block: Option<OverlapBlock>,
    desired: Launch,
    at: Seq<Observed>,
)
    requires
        m.quarantine.len() == 0,
        m.current is Some,
        !(seen.current.state is Stopped),
        m.epoch < u64::MAX,
        at.len() >= 2,
    ensures
        ({
            let begun = m.begin_apply(spec, None, seen);
            let reports = seq![
                Report::Loaded(Ok(block)),
                Report::ApplyPrepared(Ok((desired, ConfigChange::Noop))),
            ];
            let (end, progress) = after(begun, reports, at);
            &&& asked(begun, reports, at) == seq![
                Work::Load { spec },
                Work::PrepareApply { spec },
            ]
            &&& progress
                == ProgressView::Finished(Ok(OutcomeView::Applied(
                ApplyOutcomeView::Noop { revision: m.current->0.revision })))
            &&& end == m
        }),
{
    let begun = m.begin_apply(spec, None, seen);
    let reports = seq![
        Report::Loaded(Ok(block)),
        Report::ApplyPrepared(Ok((desired, ConfigChange::Noop))),
    ];
    let s0 = begun;
    let s1 = s0.0.advanced(s0.1->Continue_0, Report::Loaded(Ok(block)), at[0]);
    assert(s1.1 is Continue && s1.1->Continue_0.awaited() == Work::PrepareApply { spec });
    let s2 = s1.0.advanced(s1.1->Continue_0, Report::ApplyPrepared(Ok((desired,
        ConfigChange::Noop))), at[1]);
    let states = seq![s0, s1, s2];
    lemma_chain(states, reports, at);
    assert(asked(begun, reports, at) =~= seq![
        Work::Load { spec },
        Work::PrepareApply { spec },
    ]);
}

/// Applying a change whose runtime config cannot be replaced ends with that error:
/// the backup is removed, and the core keeps what it had.
#[verifier::rlimit(30)]
#[verifier::spinoff_prover]
pub proof fn an_apply_that_cannot_commit_changes_nothing(
    m: ManagerView,
    spec: Arc<InstanceSpec>,
    seen: Observed,
    block: Option<OverlapBlock>,
    desired: Launch,
    change: ConfigChange,
    error: Error,
    cleaned: Result<(), Error>,
    at: Seq<Observed>,
)
    requires
        m.quarantine.len() == 0,
        m.current is Some,
        !(seen.current.state is Stopped),
        m.epoch < u64::MAX,
        change == ConfigChange::Patch || change == ConfigChange::Reload,
        at.len() >= 5,
    ensures
        ({
            let begun = m.begin_apply(spec, None, seen);
            let reports = seq![
                Report::Loaded(Ok(block)),
                Report::ApplyPrepared(Ok((desired, change))),
                Report::BackedUp(Ok(())),
                Report::Committed(Err(error)),
                Report::BackupRemoved(cleaned),
            ];
            let (end, progress) = after(begun, reports, at);
            &&& asked(begun, reports, at) == seq![
                Work::Load { spec },
                Work::PrepareApply { spec },
                Work::Backup { epoch: m.current->0.revision.epoch,
                    generation: desired.revision.generation },
                Work::CommitReplace { epoch: desired.revision.epoch },
                Work::RemoveBackup { epoch: desired.revision.epoch },
            ]
            &&& progress == ProgressView::Finished(Err(error@))
            &&& end == m
        }),
{
    let begun = m.begin_apply(spec, None, seen);
    let reports = seq![
        Report::Loaded(Ok(block)),
        Report::ApplyPrepared(Ok((desired, change))),
        Report::BackedUp(Ok(())),
        Report::Committed(Err(error)),
        Report::BackupRemoved(cleaned),
    ];
    let s0 = begun;
    let s1 = s0.0.advanced(s0.1->Continue_0, Report::Loaded(Ok(block)), at[0]);
    assert(s1.1 is Continue && s1.1->Continue_0.awaited() == Work::PrepareApply { spec });
    let s2 = s1.0.advanced(s1.1->Continue_0, Report::ApplyPrepared(Ok((desired, change))), at[1]);
    assert(s2.1 is Continue
        && s2.1->Continue_0.awaited()
        == Work::Backup { epoch: m.current->0.revision.epoch,
        generation: desired.revision.generation });
    let s3 = s2.0.advanced(s2.1->Continue_0, Report::BackedUp(Ok(())), at[2]);
    assert(s3.1 is Continue
        && s3.1->Continue_0.awaited() == Work::CommitReplace { epoch: desired.revision.epoch });
    let s4 = s3.0.advanced(s3.1->Continue_0, Report::Committed(Err(error)), at[3]);
    assert(s4.1 is Continue
        && s4.1->Continue_0.awaited() == Work::RemoveBackup { epoch: desired.revision.epoch });
    let s5 = s4.0.advanced(s4.1->Continue_0, Report::BackupRemoved(cleaned), at[4]);
    let states = seq![s0, s1, s2, s3, s4, s5];
    lemma_chain(states, reports, at);
    assert(asked(begun, reports, at) =~= seq![
        Work::Load { spec },
        Work::PrepareApply { spec },
        Work::Backup { epoch: m.current->0.revision.epoch,
            generation: desired.revision.generation },
        Work::CommitReplace { epoch: desired.revision.epoch },
        Work::RemoveBackup { epoch: desired.revision.epoch },
    ]);
}

/// Applying a change whose runtime config cannot be backed up replaces nothing.
#[verifier::rlimit(30)]
#[verifier::spinoff_prover]
pub proof fn an_apply_without_a_backup_changes_nothing(
    m: ManagerView,
    spec: Arc<InstanceSpec>,
    seen: Observed,
    block: Option<OverlapBlock>,
    desired: Launch,
    change: ConfigChange,
    error: Error,
    at: Seq<Observed>,
)
    requires
        m.quarantine.len() == 0,
        m.current is Some,
        !(seen.current.state is Stopped),
        m.epoch < u64::MAX,
        change == ConfigChange::Patch || change == ConfigChange::Reload,
        at.len() >= 3,
    ensures
        ({
            let begun = m.begin_apply(spec, None, seen);
            let reports = seq![
                Report::Loaded(Ok(block)),
                Report::ApplyPrepared(Ok((desired, change))),
                Report::BackedUp(Err(error)),
            ];
            let (end, progress) = after(begun, reports, at);
            &&& asked(begun, reports, at) == seq![
                Work::Load { spec },
                Work::PrepareApply { spec },
                Work::Backup { epoch: m.current->0.revision.epoch,
                    generation: desired.revision.generation },
            ]
            &&& progress == ProgressView::Finished(Err(error@))
            &&& end == m
        }),
{
    let begun = m.begin_apply(spec, None, seen);
    let reports = seq![
        Report::Loaded(Ok(block)),
        Report::ApplyPrepared(Ok((desired, change))),
        Report::BackedUp(Err(error)),
    ];
    let s0 = begun;
    let s1 = s0.0.advanced(s0.1->Continue_0, Report::Loaded(Ok(block)), at[0]);
    assert(s1.1 is Continue && s1.1->Continue_0.awaited() == Work::PrepareApply { spec });
    let s2 = s1.0.advanced(s1.1->Continue_0, Report::ApplyPrepared(Ok((desired, change))), at[1]);
    assert(s2.1 is Continue
        && s2.1->Continue_0.awaited()
        == Work::Backup { epoch: m.current->0.revision.epoch,
        generation: desired.revision.generation });
    let s3 = s2.0.advanced(s2.1->Continue_0, Report::BackedUp(Err(error)), at[2]);
    let states = seq![s0, s1, s2, s3];
    lemma_chain(states, reports, at);
    assert(asked(begun, reports, at) =~= seq![
        Work::Load { spec },
        Work::PrepareApply { spec },
        Work::Backup { epoch: m.current->0.revision.epoch,
            generation: desired.revision.generation },
    ]);
}

/// A start over an instance that has ended stops it for good and removes its
/// artifacts before it loads anything.
#[verifier::rlimit(30)]
#[verifier::spinoff_prover]
pub proof fn an_ended_core_is_cleared_before_a_start(
    m: ManagerView,
    spec: Arc<InstanceSpec>,
    seen: Observed,
    at: Seq<Observed>,
)
    requires
        m.quarantine.len() == 0,
        m.current is Some,
        seen.current.state is Stopped,
        at.len() >= 2,
    ensures
        ({
            let begun = m.begin_start(spec, seen);
            let reports = seq![
                Report::Stopped(Ok(())),
                Report::Cleaned(Ok(())),
            ];
            let (end, progress) = after(begun, reports, at);
            &&& asked(begun, reports, at) == seq![
                Work::Stop { epoch: m.current->0.revision.epoch },
                Work::Cleanup { epoch: m.current->0.revision.epoch },
                Work::Load { spec },
            ]
            &&& progress is Continue
            &&& end.current is None
            &&& end.quarantine == m.quarantine
        }),
{
    let begun = m.begin_start(spec, seen);
    let reports = seq![
        Report::Stopped(Ok(())),
        Report::Cleaned(Ok(())),
    ];
    let s0 = begun;
    let s1 = s0.0.advanced(s0.1->Continue_0, Report::Stopped(Ok(())), at[0]);
    assert(s1.1 is Continue
        && s1.1->Continue_0.awaited() == Work::Cleanup { epoch: m.current->0.revision.epoch });
    let s2 = s1.0.advanced(s1.1->Continue_0, Report::Cleaned(Ok(())), at[1]);
    assert(s2.1 is Continue && s2.1->Continue_0.awaited() == Work::Load { spec });
    let states = seq![s0, s1, s2];
    lemma_chain(states, reports, at);
    assert(asked(begun, reports, at) =~= seq![
        Work::Stop { epoch: m.current->0.revision.epoch },
        Work::Cleanup { epoch: m.current->0.revision.epoch },
        Work::Load { spec },
    ]);
}

/// A graceful switch spawns the new instance beside the old one, and stops the old
/// one only after the new one is ready. Meanwhile it shows as switching.
#[verifier::rlimit(30)]
#[verifier::spinoff_prover]
pub proof fn a_graceful_switch_brings_the_new_core_up_first(
    m: ManagerView,
    spec: Arc<InstanceSpec>,
    seen: Observed,
    launch: Launch,
    first: Readiness,
    at: Seq<Observed>,
)
    requires
        m.quarantine.len() == 0,
        m.current is Some,
        !(seen.current.state is Stopped),
        m.epoch < u64::MAX,
        m.options.controller_mode is Managed,
        spec.core.kind == CoreKind::Mihomo,
        at.len() >= 4,
    ensures
        ({
            let begun = m.begin_switch(spec, seen);
            let reports = seq![
                Report::Loaded(Ok(None)),
                Report::Prepared(Ok(launch)),
                Report::Spawned(Ok(())),
                Report::Ready(Ok(first)),
            ];
            let (end, progress) = after(begun, reports, at);
            &&& asked(begun, reports, at) == seq![
                Work::Load { spec },
                Work::PrepareGraceful { spec, epoch: (m.epoch + 1) as u64 },
                spawn_of(launch),
                Work::AwaitReady { epoch: launch.revision.epoch },
                Work::Stop { epoch: m.current->0.revision.epoch },
            ]
            &&& progress
                == ProgressView::Continue(Pending::Graceful(GracefulStep::StopOld { launch,
                old_epoch: m.current->0.revision.epoch }))
            &&& end.current is None
            &&& end.quarantine == m.quarantine
            &&& end.status.state
                == (CoreStateView::Switching { from: Some(m.current->0.revision.epoch),
                to: launch.revision.epoch })
        }),
{
    let begun = m.begin_switch(spec, seen);
    let reports = seq![
        Report::Loaded(Ok(None)),
        Report::Prepared(Ok(launch)),
        Report::Spawned(Ok(())),
        Report::Ready(Ok(first)),
    ];
    let s0 = begun;
    let s1 = s0.0.advanced(s0.1->Continue_0, Report::Loaded(Ok(None)), at[0]);
    assert(s1.1 is Continue
        && s1.1->Continue_0.awaited()
        == Work::PrepareGraceful { spec, epoch: (m.epoch + 1) as u64 });
    let s2 = s1.0.advanced(s1.1->Continue_0, Report::Prepared(Ok(launch)), at[1]);
    assert(s2.1 is Continue && s2.1->Continue_0.awaited() == spawn_of(launch));
    let s3 = s2.0.advanced(s2.1->Continue_0, Report::Spawned(Ok(())), at[2]);
    assert(s3.1 is Continue
        && s3.1->Continue_0.awaited() == Work::AwaitReady { epoch: launch.revision.epoch });
    let s4 = s3.0.advanced(s3.1->Continue_0, Report::Ready(Ok(first)), at[3]);
    assert(s4.1 is Continue
        && s4.1->Continue_0.awaited() == Work::Stop { epoch: m.current->0.revision.epoch });
    let states = seq![s0, s1, s2, s3, s4];
    lemma_chain(states, reports, at);
    assert(asked(begun, reports, at) =~= seq![
        Work::Load { spec },
        Work::PrepareGraceful { spec, epoch: (m.epoch + 1) as u64 },
        spawn_of(launch),
        Work::AwaitReady { epoch: launch.revision.epoch },
        Work::Stop { epoch: m.current->0.revision.epoch },
    ]);
}

/// Once the old instance of a graceful switch was stopped, the full config is put
/// in place and brought to the new instance, and the old artifacts are removed.
#[verifier::rlimit(30)]
#[verifier::spinoff_prover]
pub proof fn a_graceful_switch_brings_the_full_config(
    m: ManagerView,
    launch: Launch,
    old_epoch: u64,
    warning: Option<String>,
    ready: Readiness,
    at: Seq<Observed>,
)
    requires
        m.current is None,
        at.len() >= 4,
    ensures
        ({
            let begun = (m,
                ProgressView::Continue(Pending::Graceful(GracefulStep::StopOld { launch,
                old_epoch })));
            let reports = seq![
                Report::Stopped(Ok(())),
                Report::Committed(Ok(warning)),
                Report::Reconciled(Some(ready)),
                Report::Cleaned(Ok(())),
            ];
            let (end, progress) = after(begun, reports, at);
            &&& asked(begun, reports, at) == seq![
                Work::Stop { epoch: old_epoch },
                Work::CommitReplace { epoch: launch.revision.epoch },
                Work::Reconcile { epoch: launch.revision.epoch, change: ConfigChange::Patch },
                Work::Cleanup { epoch: old_epoch },
            ]
            &&& progress is Finished && progress->Finished_0 is Ok
            &&& switched_as(progress->Finished_0->Ok_0, SwitchOutcomeView::Graceful, warning)
            &&& runs(end, launch, ready)
            &&& end.quarantine == m.quarantine
        }),
{
    let begun = (m, ProgressView::Continue(Pending::Graceful(GracefulStep::StopOld { launch,
        old_epoch })));
    let reports = seq![
        Report::Stopped(Ok(())),
        Report::Committed(Ok(warning)),
        Report::Reconciled(Some(ready)),
        Report::Cleaned(Ok(())),
    ];
    let s0 = begun;
    let s1 = s0.0.advanced(s0.1->Continue_0, Report::Stopped(Ok(())), at[0]);
    assert(s1.1 is Continue
        && s1.1->Continue_0.awaited() == Work::CommitReplace { epoch: launch.revision.epoch });
    let s2 = s1.0.advanced(s1.1->Continue_0, Report::Committed(Ok(warning)), at[1]);
    assert(s2.1 is Continue
        && s2.1->Continue_0.awaited()
        == Work::Reconcile { epoch: launch.revision.epoch, change: ConfigChange::Patch });
    let s3 = s2.0.advanced(s2.1->Continue_0, Report::Reconciled(Some(ready)), at[2]);
    assert(s3.1 is Continue && s3.1->Continue_0.awaited() == Work::Cleanup { epoch: old_epoch });
    let s4 = s3.0.advanced(s3.1->Continue_0, Report::Cleaned(Ok(())), at[3]);
    let states = seq![s0, s1, s2, s3, s4];
    lemma_chain(states, reports, at);
    assert(asked(begun, reports, at) =~= seq![
        Work::Stop { epoch: old_epoch },
        Work::CommitReplace { epoch: launch.revision.epoch },
        Work::Reconcile { epoch: launch.revision.epoch, change: ConfigChange::Patch },
        Work::Cleanup { epoch: old_epoch },
    ]);
}

/// A new instance that does not take the full config is stopped and spawned again
/// from that config. The switch then counts as a hard one.
#[verifier::rlimit(30)]
#[verifier::spinoff_prover]
pub proof fn a_graceful_switch_may_end_in_a_respawn(
    m: ManagerView,
    launch: Launch,
    old_epoch: u64,
    warning: Option<String>,
    ready: Readiness,
    at: Seq<Observed>,
)
    requires
        m.current is None,
        at.len() >= 5,
    ensures
        ({
            let begun = (m,
                ProgressView::Continue(Pending::Graceful(GracefulStep::Reconcile { launch,
                old_epoch, warning })));
            let reports = seq![
                Report::Reconciled(None),
                Report::Stopped(Ok(())),
                Report::Spawned(Ok(())),
                Report::Ready(Ok(ready)),
                Report::Cleaned(Ok(())),
            ];
            let (end, progress) = after(begun, reports, at);
            &&& asked(begun, reports, at) == seq![
                Work::Reconcile { epoch: launch.revision.epoch, change: ConfigChange::Patch },
                Work::Stop { epoch: launch.revision.epoch },
                spawn_of(launch),
                Work::AwaitReady { epoch: launch.revision.epoch },
                Work::Cleanup { epoch: old_epoch },
            ]
            &&& progress is Finished && progress->Finished_0 is Ok
            &&& switched_as(progress->Finished_0->Ok_0,
                SwitchOutcomeView::Hard { reason: DegradeReason::PatchFailed }, warning)
            &&& runs(end, launch, ready)
            &&& end.quarantine == m.quarantine
        }),
{
    let begun = (m, ProgressView::Continue(Pending::Graceful(GracefulStep::Reconcile { launch,
        old_epoch, warning })));
    let reports = seq![
        Report::Reconciled(None),
        Report::Stopped(Ok(())),
        Report::Spawned(Ok(())),
        Report::Ready(Ok(ready)),
        Report::Cleaned(Ok(())),
    ];
    let s0 = begun;
    let s1 = s0.0.advanced(s0.1->Continue_0, Report::Reconciled(None), at[0]);
    assert(s1.1 is Continue
        && s1.1->Continue_0.awaited() == Work::Stop { epoch: launch.revision.epoch });
    let s2 = s1.0.advanced(s1.1->Continue_0, Report::Stopped(Ok(())), at[1]);
    assert(s2.1 is Continue && s2.1->Continue_0.awaited() == spawn_of(launch));
    let s3 = s2.0.advanced(s2.1->Continue_0, Report::Spawned(Ok(())), at[2]);
    assert(s3.1 is Continue
        && s3.1->Continue_0.awaited() == Work::AwaitReady { epoch: launch.revision.epoch });
    let s4 = s3.0.advanced(s3.1->Continue_0, Report::Ready(Ok(ready)), at[3]);
    assert(s4.1 is Continue && s4.1->Continue_0.awaited() == Work::Cleanup { epoch: old_epoch });
    let s5 = s4.0.advanced(s4.1->Continue_0, Report::Cleaned(Ok(())), at[4]);
    let states = seq![s0, s1, s2, s3, s4, s5];
    lemma_chain(states, reports, at);
    assert(asked(begun, reports, at) =~= seq![
        Work::Reconcile { epoch: launch.revision.epoch, change: ConfigChange::Patch },
        Work::Stop { epoch: launch.revision.epoch },
        spawn_of(launch),
        Work::AwaitReady { epoch: launch.revision.epoch },
        Work::Cleanup { epoch: old_epoch },
    ]);
}

/// A new instance of a graceful switch that does not become ready is given up, and
/// the old core stays as it was.
#[verifier::rlimit(30)]
#[verifier::spinoff_prover]
pub proof fn a_rejected_core_leaves_the_old_one(
    m: ManagerView,
    launch: Launch,
    error: Error,
    cleaned: Result<(), Error>,
    at: Seq<Observed>,
)
    requires
        m.current is Some,
        at.len() >= 3,
    ensures
        ({
            let begun = (m,
                ProgressView::Continue(Pending::Graceful(GracefulStep::AwaitReady { launch })));
            let reports = seq![
                Report::Ready(Err(error)),
                Report::Stopped(Ok(())),
                Report::Cleaned(cleaned),
            ];
            let (end, progress) = after(begun, reports, at);
            &&& asked(begun, reports, at) == seq![
                Work::AwaitReady { epoch: launch.revision.epoch },
                Work::Stop { epoch: launch.revision.epoch },
                Work::Cleanup { epoch: launch.revision.epoch },
            ]
            &&& progress == ProgressView::Finished(Err(error@))
            &&& kept(m, end)
        }),
{
    let begun = (m, ProgressView::Continue(Pending::Graceful(GracefulStep::AwaitReady { launch })));
    let reports = seq![
        Report::Ready(Err(error)),
        Report::Stopped(Ok(())),
        Report::Cleaned(cleaned),
    ];
    let s0 = begun;
    let s1 = s0.0.advanced(s0.1->Continue_0, Report::Ready(Err(error)), at[0]);
    assert(s1.1 is Continue
        && s1.1->Continue_0.awaited() == Work::Stop { epoch: launch.revision.epoch });
    let s2 = s1.0.advanced(s1.1->Continue_0, Report::Stopped(Ok(())), at[1]);
    assert(s2.1 is Continue
        && s2.1->Continue_0.awaited() == Work::Cleanup { epoch: launch.revision.epoch });
    let s3 = s2.0.advanced(s2.1->Continue_0, Report::Cleaned(cleaned), at[2]);
    let states = seq![s0, s1, s2, s3];
    lemma_chain(states, reports, at);
    assert(asked(begun, reports, at) =~= seq![
        Work::AwaitReady { epoch: launch.revision.epoch },
        Work::Stop { epoch: launch.revision.epoch },
        Work::Cleanup { epoch: launch.revision.epoch },
    ]);
}

/// A change that the core does not take while it runs stops the core and spawns it
/// from the new config.
#[verifier::rlimit(30)]
#[verifier::spinoff_prover]
pub proof fn a_change_that_is_not_taken_restarts_the_core(
    m: ManagerView,
    desired: Launch,
    change: ConfigChange,
    warning: Option<String>,
    ready: Readiness,
    cleaned: Result<(), Error>,
    at: Seq<Observed>,
)
    requires
        m.current is Some,
        at.len() >= 5,
    ensures
        ({
            let begun = (m,
                ProgressView::Continue(Pending::Apply(ApplyStep::Reconcile { desired, change,
                warning })));
            let reports = seq![
                Report::Reconciled(None),
                Report::Stopped(Ok(())),
                Report::Spawned(Ok(())),
                Report::Ready(Ok(ready)),
                Report::BackupRemoved(cleaned),
            ];
            let (end, progress) = after(begun, reports, at);
            &&& asked(begun, reports, at) == seq![
                Work::Reconcile { epoch: desired.revision.epoch, change },
                Work::Stop { epoch: m.current->0.revision.epoch },
                spawn_of(desired),
                Work::AwaitReady { epoch: desired.revision.epoch },
                Work::RemoveBackup { epoch: desired.revision.epoch },
            ]
            &&& progress is Finished && progress->Finished_0 is Ok
            &&& applied_as(progress->Finished_0->Ok_0,
                ApplyOutcomeView::Restarted { revision: desired.revision }, warning)
            &&& runs(end, desired, ready)
            &&& end.quarantine == m.quarantine
        }),
{
    let begun = (m, ProgressView::Continue(Pending::Apply(ApplyStep::Reconcile { desired,
        change, warning })));
    let reports = seq![
        Report::Reconciled(None),
        Report::Stopped(Ok(())),
        Report::Spawned(Ok(())),
        Report::Ready(Ok(ready)),
        Report::BackupRemoved(cleaned),
    ];
    let s0 = begun;
    let s1 = s0.0.advanced(s0.1->Continue_0, Report::Reconciled(None), at[0]);
    assert(s1.1 is Continue
        && s1.1->Continue_0.awaited() == Work::Stop { epoch: m.current->0.revision.epoch });
    let s2 = s1.0.advanced(s1.1->Continue_0, Report::Stopped(Ok(())), at[1]);
    assert(s2.1 is Continue && s2.1->Continue_0.awaited() == spawn_of(desired));
    let s3 = s2.0.advanced(s2.1->Continue_0, Report::Spawned(Ok(())), at[2]);
    assert(s3.1 is Continue
        && s3.1->Continue_0.awaited() == Work::AwaitReady { epoch: desired.revision.epoch });
    let s4 = s3.0.advanced(s3.1->Continue_0, Report::Ready(Ok(ready)), at[3]);
    assert(s4.1 is Continue
        && s4.1->Continue_0.awaited() == Work::RemoveBackup { epoch: desired.revision.epoch });
    let s5 = s4.0.advanced(s4.1->Continue_0, Report::BackupRemoved(cleaned), at[4]);
    let states = seq![s0, s1, s2, s3, s4, s5];
    lemma_chain(states, reports, at);
    assert(asked(begun, reports, at) =~= seq![
        Work::Reconcile { epoch: desired.revision.epoch, change },
        Work::Stop { epoch: m.current->0.revision.epoch },
        spawn_of(desired),
        Work::AwaitReady { epoch: desired.revision.epoch },
        Work::RemoveBackup { epoch: desired.revision.epoch },
    ]);
}

/// A restart for a new config that cannot be spawned puts the old config back and
/// spawns the old instance again. The outcome tells what went wrong.
#[verifier::rlimit(30)]
#[verifier::spinoff_prover]
pub proof fn a_restart_that_fails_is_rolled_back(
    m: ManagerView,
    desired: Launch,
    former: Launch,
    error: Error,
    ready: Readiness,
    cleaned: Result<(), Error>,
    at: Seq<Observed>,
)
    requires
        m.current is None,
        !(error is StopUnconfirmed),
        at.len() >= 5,
    ensures
        ({
            let begun = (m,
                ProgressView::Continue(Pending::Apply(ApplyStep::SpawnDesired { desired, former,
                how: Replace::Restart, warning: None })));
            let reports = seq![
                Report::Spawned(Err(error)),
                Report::Restored(Ok(None)),
                Report::Spawned(Ok(())),
                Report::Ready(Ok(ready)),
                Report::BackupRemoved(cleaned),
            ];
            let (end, progress) = after(begun, reports, at);
            &&& asked(begun, reports, at) == seq![
                spawn_of(desired),
                Work::Restore { epoch: former.revision.epoch },
                spawn_of(former),
                Work::AwaitReady { epoch: former.revision.epoch },
                Work::RemoveBackup { epoch: former.revision.epoch },
            ]
            &&& progress
                == ProgressView::Finished(Ok(OutcomeView::Applied(
                ApplyOutcomeView::RolledBack { revision: former.revision,
                failed_apply: error@.text() })))
            &&& runs(end, former, ready)
            &&& end.quarantine == m.quarantine
        }),
{
    let begun = (m, ProgressView::Continue(Pending::Apply(ApplyStep::SpawnDesired { desired,
        former, how: Replace::Restart, warning: None })));
    let reports = seq![
        Report::Spawned(Err(error)),
        Report::Restored(Ok(None)),
        Report::Spawned(Ok(())),
        Report::Ready(Ok(ready)),
        Report::BackupRemoved(cleaned),
    ];
    let s0 = begun;
    let s1 = s0.0.advanced(s0.1->Continue_0, Report::Spawned(Err(error)), at[0]);
    assert(s1.1 is Continue
        && s1.1->Continue_0.awaited() == Work::Restore { epoch: former.revision.epoch });
    let s2 = s1.0.advanced(s1.1->Continue_0, Report::Restored(Ok(None)), at[1]);
    assert(s2.1 is Continue && s2.1->Continue_0.awaited() == spawn_of(former));
    let s3 = s2.0.advanced(s2.1->Continue_0, Report::Spawned(Ok(())), at[2]);
    assert(s3.1 is Continue
        && s3.1->Continue_0.awaited() == Work::AwaitReady { epoch: former.revision.epoch });
    let s4 = s3.0.advanced(s3.1->Continue_0, Report::Ready(Ok(ready)), at[3]);
    assert(s4.1 is Continue
        && s4.1->Continue_0.awaited() == Work::RemoveBackup { epoch: former.revision.epoch });
    let s5 = s4.0.advanced(s4.1->Continue_0, Report::BackupRemoved(cleaned), at[4]);
    let states = seq![s0, s1, s2, s3, s4, s5];
    lemma_chain(states, reports, at);
    assert(asked(begun, reports, at) =~= seq![
        spawn_of(desired),
        Work::Restore { epoch: former.revision.epoch },
        spawn_of(former),
        Work::AwaitReady { epoch: former.revision.epoch },
        Work::RemoveBackup { epoch: former.revision.epoch },
    ]);
}

/// A change that needs a new epoch prepares it, stops the old instance, spawns the
/// new one and removes the artifacts of the old.
#[verifier::rlimit(30)]
#[verifier::spinoff_prover]
pub proof fn a_new_epoch_replaces_the_old_one(
    m: ManagerView,
    spec: Arc<InstanceSpec>,
    epoch: u64,
    launch: Launch,
    ready: Readiness,
    cleaned: Result<(), Error>,
    at: Seq<Observed>,
)
    requires
        m.current is Some,
        at.len() >= 5,
    ensures
        ({
            let begun = (m,
                ProgressView::Continue(Pending::Apply(ApplyStep::SwitchPrepare { epoch, spec })));
            let reports = seq![
                Report::Prepared(Ok(launch)),
                Report::Stopped(Ok(())),
                Report::Spawned(Ok(())),
                Report::Ready(Ok(ready)),
                Report::Cleaned(cleaned),
            ];
            let (end, progress) = after(begun, reports, at);
            &&& asked(begun, reports, at) == seq![
                Work::Prepare { spec, epoch },
                Work::Stop { epoch: m.current->0.revision.epoch },
                spawn_of(launch),
                Work::AwaitReady { epoch: launch.revision.epoch },
                Work::Cleanup { epoch: m.current->0.revision.epoch },
            ]
            &&& progress
                == ProgressView::Finished(Ok(OutcomeView::Applied(
                ApplyOutcomeView::Restarted { revision: launch.revision })))
            &&& runs(end, launch, ready)
            &&& end.quarantine == m.quarantine
        }),
{
    let begun = (m, ProgressView::Continue(Pending::Apply(ApplyStep::SwitchPrepare { epoch,
        spec })));
    let reports = seq![
        Report::Prepared(Ok(launch)),
        Report::Stopped(Ok(())),
        Report::Spawned(Ok(())),
        Report::Ready(Ok(ready)),
        Report::Cleaned(cleaned),
    ];
    let s0 = begun;
    let s1 = s0.0.advanced(s0.1->Continue_0, Report::Prepared(Ok(launch)), at[0]);
    assert(s1.1 is Continue
        && s1.1->Continue_0.awaited() == Work::Stop { epoch: m.current->0.revision.epoch });
    let s2 = s1.0.advanced(s1.1->Continue_0, Report::Stopped(Ok(())), at[1]);
    assert(s2.1 is Continue && s2.1->Continue_0.awaited() == spawn_of(launch));
    let s3 = s2.0.advanced(s2.1->Continue_0, Report::Spawned(Ok(())), at[2]);
    assert(s3.1 is Continue
        && s3.1->Continue_0.awaited() == Work::AwaitReady { epoch: launch.revision.epoch });
    let s4 = s3.0.advanced(s3.1->Continue_0, Report::Ready(Ok(ready)), at[3]);
    assert(s4.1 is Continue
        && s4.1->Continue_0.awaited() == Work::Cleanup { epoch: m.current->0.revision.epoch });
    let s5 = s4.0.advanced(s4.1->Continue_0, Report::Cleaned(cleaned), at[4]);
    let states = seq![s0, s1, s2, s3, s4, s5];
    lemma_chain(states, reports, at);
    assert(asked(begun, reports, at) =~= seq![
        Work::Prepare { spec, epoch },
        Work::Stop { epoch: m.current->0.revision.epoch },
        spawn_of(launch),
        Work::AwaitReady { epoch: launch.revision.epoch },
        Work::Cleanup { epoch: m.current->0.revision.epoch },
    ]);
}

/// A new epoch that does not become ready is stopped and cleared, and the old
/// instance is spawned again.
#[verifier::rlimit(30)]
#[verifier::spinoff_prover]
pub proof fn a_failed_epoch_is_rolled_back(
    m: ManagerView,
    desired: Launch,
    former: Launch,
    error: Error,
    ready: Readiness,
    cleaned: Result<(), Error>,
    at: Seq<Observed>,
)
    requires
        m.current is None,
        !(error is StopUnconfirmed),
        at.len() >= 5,
    ensures
        ({
            let begun = (m,
                ProgressView::Continue(Pending::Apply(ApplyStep::AwaitDesired { desired, former,
                how: Replace::Switch, warning: None })));
            let reports = seq![
                Report::Ready(Err(error)),
                Report::Stopped(Ok(())),
                Report::Cleaned(cleaned),
                Report::Spawned(Ok(())),
                Report::Ready(Ok(ready)),
            ];
            let (end, progress) = after(begun, reports, at);
            &&& asked(begun, reports, at) == seq![
                Work::AwaitReady { epoch: desired.revision.epoch },
                Work::Stop { epoch: desired.revision.epoch },
                Work::Cleanup { epoch: desired.revision.epoch },
                spawn_of(former),
                Work::AwaitReady { epoch: former.revision.epoch },
            ]
            &&& progress
                == ProgressView::Finished(Ok(OutcomeView::Applied(
                ApplyOutcomeView::RolledBack { revision: former.revision,
                failed_apply: error@.text() })))
            &&& runs(end, former, ready)
            &&& end.quarantine == m.quarantine
        }),
{
    let begun = (m, ProgressView::Continue(Pending::Apply(ApplyStep::AwaitDesired { desired,
        former, how: Replace::Switch, warning: None })));
    let reports = seq![
        Report::Ready(Err(error)),
        Report::Stopped(Ok(())),
        Report::Cleaned(cleaned),
        Report::Spawned(Ok(())),
        Report::Ready(Ok(ready)),
    ];
    let s0 = begun;
    let s1 = s0.0.advanced(s0.1->Continue_0, Report::Ready(Err(error)), at[0]);
    assert(s1.1 is Continue
        && s1.1->Continue_0.awaited() == Work::Stop { epoch: desired.revision.epoch });
    let s2 = s1.0.advanced(s1.1->Continue_0, Report::Stopped(Ok(())), at[1]);
    assert(s2.1 is Continue
        && s2.1->Continue_0.awaited() == Work::Cleanup { epoch: desired.revision.epoch });
    let s3 = s2.0.advanced(s2.1->Continue_0, Report::Cleaned(cleaned), at[2]);
    assert(s3.1 is Continue && s3.1->Continue_0.awaited() == spawn_of(former));
    let s4 = s3.0.advanced(s3.1->Continue_0, Report::Spawned(Ok(())), at[3]);
    assert(s4.1 is Continue
        && s4.1->Continue_0.awaited() == Work::AwaitReady { epoch: former.revision.epoch });
    let s5 = s4.0.advanced(s4.1->Continue_0, Report::Ready(Ok(ready)), at[4]);
    let states = seq![s0, s1, s2, s3, s4, s5];
    lemma_chain(states, reports, at);
    assert(asked(begun, reports, at) =~= seq![
        Work::AwaitReady { epoch: desired.revision.epoch },
        Work::Stop { epoch: desired.revision.epoch },
        Work::Cleanup { epoch: desired.revision.epoch },
        spawn_of(former),
        Work::AwaitReady { epoch: former.revision.epoch },
    ]);
}

/// An old instance that cannot be spawned again leaves nothing running, and both
/// errors are told.
#[verifier::rlimit(30)]
#[verifier::spinoff_prover]
pub proof fn a_rollback_that_cannot_spawn_tells_both_errors(
    m: ManagerView,
    former: Launch,
    first: Error,
    how: Replace,
    error: Error,
    at: Seq<Observed>,
)
    requires
        m.current is None,
        !(error is StopUnconfirmed),
        at.len() >= 1,
    ensures
        ({
            let begun = (m,
                ProgressView::Continue(Pending::Apply(ApplyStep::SpawnRollback { former,
                apply_error: first, how, warning: None, restore_warning: None })));
            let reports = seq![
                Report::Spawned(Err(error)),
            ];
            let (end, progress) = after(begun, reports, at);
            &&& asked(begun, reports, at) == seq![
                spawn_of(former),
            ]
            &&& progress
                == ProgressView::Finished(Err(
                ErrorView::ApplyRollbackFailed { apply: first@.text(), rollback: error@.text() }))
            &&& end.current is None
            &&& end.status.state is Stopped
            &&& end.quarantine == m.quarantine
        }),
{
    let begun = (m, ProgressView::Continue(Pending::Apply(ApplyStep::SpawnRollback { former,
        apply_error: first, how, warning: None, restore_warning: None })));
    let reports = seq![
        Report::Spawned(Err(error)),
    ];
    let s0 = begun;
    let s1 = s0.0.advanced(s0.1->Continue_0, Report::Spawned(Err(error)), at[0]);
    let states = seq![s0, s1];
    lemma_chain(states, reports, at);
    assert(asked(begun, reports, at) =~= seq![
        spawn_of(former),
    ]);
}

/// An old instance that does not become ready again is stopped, and both errors are
/// told.
#[verifier::rlimit(30)]
#[verifier::spinoff_prover]
pub proof fn a_rollback_that_is_not_ready_tells_both_errors(
    m: ManagerView,
    former: Launch,
    first: Error,
    how: Replace,
    error: Error,
    at: Seq<Observed>,
)
    requires
        m.current is None,
        !(error is StopUnconfirmed),
        at.len() >= 2,
    ensures
        ({
            let begun = (m,
                ProgressView::Continue(Pending::Apply(ApplyStep::AwaitRollback { former,
                apply_error: first, how, warning: None, restore_warning: None })));
            let reports = seq![
                Report::Ready(Err(error)),
                Report::Stopped(Ok(())),
            ];
            let (end, progress) = after(begun, reports, at);
            &&& asked(begun, reports, at) == seq![
                Work::AwaitReady { epoch: former.revision.epoch },
                Work::Stop { epoch: former.revision.epoch },
            ]
            &&& progress
                == ProgressView::Finished(Err(
                ErrorView::ApplyRollbackFailed { apply: first@.text(), rollback: error@.text() }))
            &&& end.current is None
            &&& end.status.state is Stopped
            &&& end.quarantine == m.quarantine
        }),
{
    let begun = (m, ProgressView::Continue(Pending::Apply(ApplyStep::AwaitRollback { former,
        apply_error: first, how, warning: None, restore_warning: None })));
    let reports = seq![
        Report::Ready(Err(error)),
        Report::Stopped(Ok(())),
    ];
    let s0 = begun;
    let s1 = s0.0.advanced(s0.1->Continue_0, Report::Ready(Err(error)), at[0]);
    assert(s1.1 is Continue
        && s1.1->Continue_0.awaited() == Work::Stop { epoch: former.revision.epoch });
    let s2 = s1.0.advanced(s1.1->Continue_0, Report::Stopped(Ok(())), at[1]);
    let states = seq![s0, s1, s2];
    lemma_chain(states, reports, at);
    assert(asked(begun, reports, at) =~= seq![
        Work::AwaitReady { epoch: former.revision.epoch },
        Work::Stop { epoch: former.revision.epoch },
    ]);
}

/// An old config that cannot be put back ends the rollback, and nothing is spawned.
#[verifier::rlimit(30)]
#[verifier::spinoff_prover]
pub proof fn a_rollback_without_its_config_spawns_nothing(
    m: ManagerView,
    former: Launch,
    first: Error,
    error: Error,
    at: Seq<Observed>,
)
    requires
        m.current is None,
        at.len() >= 1,
    ensures
        ({
            let begun = (m, ProgressView::Continue(Pending::Apply(ApplyStep::Restore { former,
                apply_error: first, warning: None })));
            let reports = seq![
                Report::Restored(Err(error)),
            ];
            let (end, progress) = after(begun, reports, at);
            &&& asked(begun, reports, at) == seq![
                Work::Restore { epoch: former.revision.epoch },
            ]
            &&& progress is Finished && progress->Finished_0 is Err
            &&& progress->Finished_0->Err_0 is ApplyRollbackFailed
            &&& progress->Finished_0->Err_0->apply == first@.text()
            &&& end.current is None
            &&& end.status.state is Stopped
            &&& end.quarantine == m.quarantine
        }),
{
    let begun = (m, ProgressView::Continue(Pending::Apply(ApplyStep::Restore { former,
        apply_error: first, warning: None })));
    let reports = seq![
        Report::Restored(Err(error)),
    ];
    let s0 = begun;
    let s1 = s0.0.advanced(s0.1->Continue_0, Report::Restored(Err(error)), at[0]);
    let states = seq![s0, s1];
    lemma_chain(states, reports, at);
    assert(asked(begun, reports, at) =~= seq![
        Work::Restore { epoch: former.revision.epoch },
    ]);
}

/// A hard switch whose old instance cannot be stopped spawns nothing. Where the
/// death of the old one is uncertain, its epoch is quarantined.
#[verifier::rlimit(30)]
#[verifier::spinoff_prover]
pub proof fn a_hard_switch_that_cannot_stop_spawns_nothing(
    m: ManagerView,
    launch: Launch,
    old_epoch: u64,
    reason: DegradeReason,
    error: Error,
    cleaned: Result<(), Error>,
    at: Seq<Observed>,
)
    requires
        m.current is None,
        at.len() >= 2,
    ensures
        ({
            let begun = (m, ProgressView::Continue(Pending::Hard(HardStep::StopOld { launch,
                old_epoch, reason })));
            let reports = seq![
                Report::Stopped(Err(error)),
                Report::Cleaned(cleaned),
            ];
            let (end, progress) = after(begun, reports, at);
            &&& asked(begun, reports, at) == seq![
                Work::Stop { epoch: old_epoch },
                Work::Cleanup { epoch: launch.revision.epoch },
            ]
            &&& progress == ProgressView::Finished(Err(error@))
            &&& end.current is None
            &&& error is StopUnconfirmed
                ==> quarantine::holds(end.quarantine, old_epoch) && end.refusal() is Some
            &&& !(error is StopUnconfirmed)
                ==> end.quarantine == m.quarantine
                && down(end, StopReasonView::Error(error@.text()))
        }),
{
    let begun = (m, ProgressView::Continue(Pending::Hard(HardStep::StopOld { launch, old_epoch,
        reason })));
    let reports = seq![
        Report::Stopped(Err(error)),
        Report::Cleaned(cleaned),
    ];
    quarantine::recording_only_adds_its_epoch(m.quarantine, old_epoch, error@.text());
    let s0 = begun;
    let s1 = s0.0.advanced(s0.1->Continue_0, Report::Stopped(Err(error)), at[0]);
    assert(s1.1 is Continue
        && s1.1->Continue_0.awaited() == Work::Cleanup { epoch: launch.revision.epoch });
    let s2 = s1.0.advanced(s1.1->Continue_0, Report::Cleaned(cleaned), at[1]);
    let states = seq![s0, s1, s2];
    lemma_chain(states, reports, at);
    assert(asked(begun, reports, at) =~= seq![
        Work::Stop { epoch: old_epoch },
        Work::Cleanup { epoch: launch.revision.epoch },
    ]);
}

/// A graceful switch whose old instance cannot be stopped stops the new one too.
/// Where the death of the old one is uncertain, its epoch is quarantined.
#[verifier::rlimit(30)]
#[verifier::spinoff_prover]
pub proof fn a_graceful_switch_that_cannot_stop_gives_both_up(
    m: ManagerView,
    launch: Launch,
    old_epoch: u64,
    error: Error,
    cleaned: Result<(), Error>,
    at: Seq<Observed>,
)
    requires
        m.current is None,
        at.len() >= 3,
    ensures
        ({
            let begun = (m,
                ProgressView::Continue(Pending::Graceful(GracefulStep::StopOld { launch,
                old_epoch })));
            let reports = seq![
                Report::Stopped(Err(error)),
                Report::Stopped(Ok(())),
                Report::Cleaned(cleaned),
            ];
            let (end, progress) = after(begun, reports, at);
            &&& asked(begun, reports, at) == seq![
                Work::Stop { epoch: old_epoch },
                Work::Stop { epoch: launch.revision.epoch },
                Work::Cleanup { epoch: launch.revision.epoch },
            ]
            &&& progress == ProgressView::Finished(Err(error@))
            &&& end.current is None
            &&& error is StopUnconfirmed
                ==> quarantine::holds(end.quarantine, old_epoch) && end.refusal() is Some
            &&& !(error is StopUnconfirmed)
                ==> end.quarantine == m.quarantine
                && down(end, StopReasonView::Error(error@.text()))
        }),
{
    let begun = (m, ProgressView::Continue(Pending::Graceful(GracefulStep::StopOld { launch,
        old_epoch })));
    let reports = seq![
        Report::Stopped(Err(error)),
        Report::Stopped(Ok(())),
        Report::Cleaned(cleaned),
    ];
    quarantine::recording_only_adds_its_epoch(m.quarantine, old_epoch, error@.text());
    let s0 = begun;
    let s1 = s0.0.advanced(s0.1->Continue_0, Report::Stopped(Err(error)), at[0]);
    assert(s1.1 is Continue
        && s1.1->Continue_0.awaited() == Work::Stop { epoch: launch.revision.epoch });
    let s2 = s1.0.advanced(s1.1->Continue_0, Report::Stopped(Ok(())), at[1]);
    assert(s2.1 is Continue
        && s2.1->Continue_0.awaited() == Work::Cleanup { epoch: launch.revision.epoch });
    let s3 = s2.0.advanced(s2.1->Continue_0, Report::Cleaned(cleaned), at[2]);
    let states = seq![s0, s1, s2, s3];
    lemma_chain(states, reports, at);
    assert(asked(begun, reports, at) =~= seq![
        Work::Stop { epoch: old_epoch },
        Work::Stop { epoch: launch.revision.epoch },
        Work::Cleanup { epoch: launch.revision.epoch },
    ]);
}

/// A graceful switch whose full config cannot be put in place stops the new
/// instance, and nothing runs then.
#[verifier::rlimit(30)]
#[verifier::spinoff_prover]
pub proof fn a_graceful_switch_that_cannot_commit_stops(
    m: ManagerView,
    launch: Launch,
    old_epoch: u64,
    error: Error,
    cleaned: Result<(), Error>,
    at: Seq<Observed>,
)
    requires
        m.current is None,
        !(error is StopUnconfirmed),
        at.len() >= 3,
    ensures
        ({
            let begun = (m,
                ProgressView::Continue(Pending::Graceful(GracefulStep::Commit { launch,
                old_epoch })));
            let reports = seq![
                Report::Committed(Err(error)),
                Report::Stopped(Ok(())),
                Report::Cleaned(cleaned),
            ];
            let (end, progress) = after(begun, reports, at);
            &&& asked(begun, reports, at) == seq![
                Work::CommitReplace { epoch: launch.revision.epoch },
                Work::Stop { epoch: launch.revision.epoch },
                Work::Cleanup { epoch: launch.revision.epoch },
            ]
            &&& progress == ProgressView::Finished(Err(error@))
            &&& down(end, StopReasonView::Error(error@.text()))
            &&& end.quarantine == m.quarantine
        }),
{
    let begun = (m, ProgressView::Continue(Pending::Graceful(GracefulStep::Commit { launch,
        old_epoch })));
    let reports = seq![
        Report::Committed(Err(error)),
        Report::Stopped(Ok(())),
        Report::Cleaned(cleaned),
    ];
    let s0 = begun;
    let s1 = s0.0.advanced(s0.1->Continue_0, Report::Committed(Err(error)), at[0]);
    assert(s1.1 is Continue
        && s1.1->Continue_0.awaited() == Work::Stop { epoch: launch.revision.epoch });
    let s2 = s1.0.advanced(s1.1->Continue_0, Report::Stopped(Ok(())), at[1]);
    assert(s2.1 is Continue
        && s2.1->Continue_0.awaited() == Work::Cleanup { epoch: launch.revision.epoch });
    let s3 = s2.0.advanced(s2.1->Continue_0, Report::Cleaned(cleaned), at[2]);
    let states = seq![s0, s1, s2, s3];
    lemma_chain(states, reports, at);
    assert(asked(begun, reports, at) =~= seq![
        Work::CommitReplace { epoch: launch.revision.epoch },
        Work::Stop { epoch: launch.revision.epoch },
        Work::Cleanup { epoch: launch.revision.epoch },
    ]);
}

/// A config that changes nothing is the only one that ends an apply at its
/// comparison. One that the core may take while it runs has the runtime config of
/// the current epoch backed up first, and is carried on with its change; one that
/// needs a new epoch gets the next number.
pub proof fn only_a_config_without_a_change_is_no_change(
    m: ManagerView,
    spec: Arc<InstanceSpec>,
    desired: Launch,
    change: ConfigChange,
    seen: Observed,
)
    requires
        m.current is Some,
        m.epoch < u64::MAX,
    ensures
        ({
            let (end, progress) = m.advanced(
                Pending::Apply(ApplyStep::Prepare { spec }),
                Report::ApplyPrepared(Ok((desired, change))),
                seen,
            );
            &&& progress is Finished <==> change == ConfigChange::Noop
            &&& progress matches ProgressView::Finished(Ok(
                OutcomeView::Applied(ApplyOutcomeView::Noop { revision }),
            )) ==> revision == m.current->0.revision
            &&& change == ConfigChange::Noop ==> progress->Finished_0 is Ok
                && progress->Finished_0->Ok_0 is Applied
                && progress->Finished_0->Ok_0->Applied_0 is Noop
            &&& change == ConfigChange::Patch || change == ConfigChange::Reload ==> progress
                == ProgressView::Continue(
                Pending::Apply(
                    ApplyStep::Backup { epoch: m.current->0.revision.epoch, desired, change },
                ),
            )
            &&& change == ConfigChange::Switch <==> end.epoch != m.epoch
            &&& change == ConfigChange::Switch ==> progress is Continue
                && progress->Continue_0.awaited() == (Work::Prepare {
                spec,
                epoch: (m.epoch + 1) as u64,
            })
            &&& end.current == m.current && end.status == m.status && end.quarantine
                == m.quarantine
        }),
{
}

/// A switch is graceful only if nothing keeps the two epochs apart: the manager
/// has the controller, the core is of the kind that can, and the load reports no
/// overlap block at all. Else it is hard, and tells the reason.
pub proof fn a_switch_is_graceful_only_if_nothing_overlaps(
    m: ManagerView,
    spec: Arc<InstanceSpec>,
    block: Option<OverlapBlock>,
    seen: Observed,
)
    requires
        m.epoch < u64::MAX,
    ensures
        ({
            let (end, progress) = m.advanced(
                Pending::SwitchLoad { spec },
                Report::Loaded(Ok(block)),
                seen,
            );
            &&& progress is Continue
            &&& progress->Continue_0 is Graceful || progress->Continue_0 is Hard
            &&& progress->Continue_0 is Graceful <==> block is None
                && m.options.controller_mode is Managed && spec.core.kind == CoreKind::Mihomo
            &&& progress->Continue_0 matches Pending::Hard(step)
                ==> (step matches HardStep::Prepare {
                reason,
                ..
            } && fits(reason, m, *spec, block))
            &&& end.epoch == m.epoch + 1
            &&& end.current == m.current && end.status == m.status && end.quarantine
                == m.quarantine
        }),
{
}

/// A hard switch asks for the spawn of the new epoch only after the old one was
/// stopped for sure: its steps come in one order, and none is left out.
pub proof fn a_hard_switch_keeps_its_order(
    m: ManagerView,
    step: HardStep,
    report: Report,
    seen: Observed,
)
    requires
        step is Prepare ==> m.current is Some,
    ensures
        ({
            let (end, progress) = m.advanced(Pending::Hard(step), report, seen);
            &&& progress matches ProgressView::Continue(next) ==> (next.awaited() is Spawn
                ==> step is CleanOld && report is Cleaned
                && report->Cleaned_0 is Ok)
            &&& progress matches ProgressView::Continue(Pending::Hard(next)) ==> {
                &&& next is CleanOld && !(step is CleanOld) ==> step is StopOld && report
                    is Stopped && report->Stopped_0 is Ok && step->StopOld_old_epoch
                    == next->CleanOld_old_epoch
                &&& next is StopOld && !(step is StopOld) ==> step is Prepare
                    && next->StopOld_old_epoch == m.current->0.revision.epoch && end.current is None
                &&& next is Prepare ==> step is Prepare
            }
        }),
{
}

/// A graceful switch stops the old epoch only once the new one is ready, and
/// takes the new one for current only once the old one was stopped.
pub proof fn a_graceful_switch_keeps_its_order(
    m: ManagerView,
    step: GracefulStep,
    report: Report,
    seen: Observed,
)
    requires
        step is Prepare || step is AwaitReady ==> m.current is Some,
    ensures
        ({
            let (end, progress) = m.advanced(Pending::Graceful(step), report, seen);
            progress matches ProgressView::Continue(Pending::Graceful(next)) ==> {
                &&& next is StopOld && !(step is StopOld) ==> step is AwaitReady && report is Ready
                    && report->Ready_0 is Ok && next->StopOld_old_epoch
                    == m.current->0.revision.epoch
                &&& next is Commit && !(step is Commit) ==> step is StopOld && report
                    is Stopped && report->Stopped_0 is Ok
                &&& next is CleanOld && !(step is CleanOld) ==> end.current is Some && (step
                    is Reconcile || step is AwaitReplacement)
            }
        }),
{
}

/// A report on something else than the work that was asked for.
pub open spec fn beside(work: Work, report: Report) -> bool {
    match work {
        Work::Stop { .. } => !(report is Stopped),
        Work::Cleanup { .. } => !(report is Cleaned),
        Work::Load { .. } => !(report is Loaded),
        Work::Prepare { .. } => !(report is Prepared),
        Work::PrepareGraceful { .. } => !(report is Prepared),
        Work::PrepareApply { .. } => !(report is ApplyPrepared),
        Work::Spawn { .. } => !(report is Spawned),
        Work::AwaitReady { .. } => !(report is Ready),
        Work::Backup { .. } => !(report is BackedUp),
        Work::CommitReplace { .. } => !(report is Committed),
        Work::Reconcile { .. } => !(report is Reconciled),
        Work::Restore { .. } => !(report is Restored),
        Work::RemoveBackup { .. } => !(report is BackupRemoved),
    }
}

/// A report on something else changes nothing and leads nowhere.
#[verifier::rlimit(60)]
#[verifier::spinoff_prover]
pub proof fn reports_beside_the_work_change_nothing(
    m: ManagerView,
    pending: Pending,
    report: Report,
    seen: Observed,
)
    requires
        beside(pending.awaited(), report),
    ensures
        m.advanced(pending, report, seen) == (m, ProgressView::Continue(pending)),
{
}

/// Requests are answered at once where there is nothing to do for them: a start
/// of what runs, a stop, an apply or a restart of nothing. A start is accepted
/// whenever nothing runs, and an apply whenever something does and the revision
/// is the expected one.
pub proof fn requests_are_refused_only_for_cause(
    m: ManagerView,
    spec: Arc<InstanceSpec>,
    expected: Option<RevisionId>,
    seen: Observed,
)
    requires
        m.quarantine.len() == 0,
    ensures
        ({
            let running = m.current is Some && !(seen.current.state is Stopped);
            let asked = expected matches Some(id) ==> id.epoch == m.current->0.revision.epoch
                && id.generation == m.current->0.revision.generation && id.effective_hash@
                == m.current->0.revision.effective_hash@;
            let start = m.begin_start(spec, seen);
            let switch = m.begin_switch(spec, seen);
            let restart = m.begin_restart(seen);
            let apply = m.begin_apply(spec, expected, seen);
            let stop = m.begin_stop(seen);
            let shutdown = m.begin_shutdown(seen);
            &&& start.1 is Finished <==> running
            &&& running ==> start == (m, ProgressView::Finished(Err(ErrorView::AlreadyRunning)))
            &&& switch.1 is Continue
            &&& running ==> switch.1->Continue_0.awaited() == (Work::Load { spec }) && switch.0 == m
            &&& restart.1 is Finished <==> m.last_spec is None
            &&& m.last_spec is None ==> restart == (
                m,
                ProgressView::Finished(Err(ErrorView::NotStarted)),
            )
            &&& m.last_spec matches Some(last) ==> restart == m.begin_switch(last, seen)
            &&& apply.0 == m
            &&& apply.1 is Continue <==> running && asked
            &&& apply.1 is Continue ==> apply.1->Continue_0.awaited() == (Work::Load { spec })
            &&& !running ==> apply.1 == ProgressView::Finished(Err(ErrorView::NotStarted))
            &&& running && !asked ==> apply.1 is Finished && apply.1->Finished_0 is Err
                && apply.1->Finished_0->Err_0 is RevisionConflict
            &&& stop.1 is Finished <==> m.current is None
            &&& m.current is None ==> stop == (
                m,
                ProgressView::Finished(Err(ErrorView::NotStarted)),
            )
            &&& m.current is None ==> shutdown == (
                m,
                ProgressView::Finished(Ok(OutcomeView::Stopped)),
            )
            &&& m.current is Some ==> shutdown.1 is Continue
                && shutdown.1->Continue_0.awaited() == (Work::Stop {
                epoch: m.current->0.revision.epoch,
            })
        }),
{
}

/// An operation that goes on never ends well without the core that it was for:
/// success comes with the last report of one of its ways, and a step that waits
/// for a stop, a preparation, a commit or readiness fails or changes its course
/// where that fails.
#[verifier::rlimit(60)]
#[verifier::spinoff_prover]
pub proof fn failures_are_no_success(
    m: ManagerView,
    pending: Pending,
    report: Report,
    seen: Observed,
)
    requires
        match report {
            Report::Stopped(Err(_)) => true,
            Report::Loaded(Err(_)) => true,
            Report::Prepared(Err(_)) => true,
            Report::ApplyPrepared(Err(_)) => true,
            Report::Spawned(Err(_)) => true,
            Report::Ready(Err(_)) => true,
            Report::BackedUp(Err(_)) => true,
            Report::Committed(Err(_)) => true,
            Report::Restored(Err(_)) => true,
            Report::Reconciled(None) => true,
            _ => false,
        },
    ensures
        m.advanced(pending, report, seen).1 matches ProgressView::Finished(result)
            ==> result is Err,
{
}

} // verus!
