//! Making a manager: its options, and what an earlier one left behind.

use super::recovery::ReapOutcome;
use super::{CoreManager, ManagerView};
use crate::error::{Error, ErrorView};
use crate::manager::quarantine;
use crate::spec::{ControllerMode, ManagerOptions};
use crate::state::{CoreStateView, CoreStatus, CoreStatusView};
use crate::text;
use vstd::prelude::*;
use vstd::string::*;

verus! {

/// Which probes the instances of a manager are checked with. `P` stands for a
/// health probe.
#[derive(Debug)]
pub struct ProbePlan<P> {
    pub readiness: Option<P>,
    pub liveness: Option<P>,
    pub liveness_with_readiness: bool,
}

/// What a manager is made from.
#[derive(Debug)]
pub struct CoreManagerBuilder<P> {
    pub options: ManagerOptions,
    pub probes: ProbePlan<P>,
}

impl<P> CoreManagerBuilder<P> {
    /// A builder without probes of its own.
    pub fn new(options: ManagerOptions) -> (res: Self)
        ensures
            res.options == options,
            res.probes == (ProbePlan::<P> {
                readiness: None,
                liveness: None,
                liveness_with_readiness: false,
            }),
    {
        CoreManagerBuilder {
            options,
            probes: ProbePlan { readiness: None, liveness: None, liveness_with_readiness: false },
        }
    }

    /// Checks readiness with `probe`.
    pub fn readiness_probe(self, probe: P) -> (res: Self)
        ensures
            res.options == self.options,
            res.probes == (ProbePlan { readiness: Some(probe), ..self.probes }),
    {
        CoreManagerBuilder {
            options: self.options,
            probes: ProbePlan { readiness: Some(probe), ..self.probes },
        }
    }

    /// Checks liveness with `probe`.
    pub fn liveness_probe(self, probe: P) -> (res: Self)
        ensures
            res.options == self.options,
            res.probes == (ProbePlan {
                liveness: Some(probe),
                liveness_with_readiness: false,
                ..self.probes
            }),
    {
        CoreManagerBuilder {
            options: self.options,
            probes: ProbePlan {
                liveness: Some(probe),
                liveness_with_readiness: false,
                ..self.probes
            },
        }
    }

    /// Checks liveness with the readiness probe.
    pub fn liveness_with_readiness_probe(self) -> (res: Self)
        ensures
            res.options == self.options,
            res.probes == (ProbePlan {
                liveness: None,
                liveness_with_readiness: true,
                ..self.probes
            }),
    {
        CoreManagerBuilder {
            options: self.options,
            probes: ProbePlan { liveness: None, liveness_with_readiness: true, ..self.probes },
        }
    }
}

/// The directory of a manager's runtime artifacts: the one that was asked for,
/// else the one of a managed controller.
pub open spec fn artifact_dir(options: ManagerOptions) -> Option<Seq<char>> {
    match (options.runtime_dir, options.controller_mode) {
        (Some(dir), _) => Some(dir@),
        (None, ControllerMode::Managed { derived_dir, .. }) => Some(derived_dir@),
        (None, ControllerMode::Passthrough) => None,
    }
}

/// The directory of a manager's runtime artifacts.
pub fn runtime_dir(options: &ManagerOptions) -> (res: Result<String, Error>)
    ensures
        match (res, artifact_dir(*options)) {
            (Ok(dir), Some(expected)) => dir@ == expected,
            (Err(error), None) => error@ == ErrorView::InvalidManagerOptions(
                "Passthrough mode requires runtime_dir"@,
            ),
            _ => false,
        },
{
    match (&options.runtime_dir, &options.controller_mode) {
        (Some(dir), _) => Ok(dir.clone()),
        (None, ControllerMode::Managed { derived_dir, .. }) => Ok(derived_dir.clone()),
        (None, ControllerMode::Passthrough) => Err(
            Error::InvalidManagerOptions("Passthrough mode requires runtime_dir".to_owned()),
        ),
    }
}

/// The first timeout of the options that is zero, by name.
pub open spec fn zero_timeout(options: ManagerOptions) -> Option<Seq<char>> {
    if options.control_timeout_ms == 0 {
        Some("control_timeout"@)
    } else if options.reconcile_timeout_ms == 0 {
        Some("reconcile_timeout"@)
    } else if options.stop_timeout_ms == 0 {
        Some("stop_timeout"@)
    } else {
        None
    }
}

/// Accepts options whose timeouts are all greater than zero.
pub fn validate_timeouts(options: &ManagerOptions) -> (res: Result<(), Error>)
    ensures
        match (res, zero_timeout(*options)) {
            (Ok(_), None) => true,
            (Err(error), Some(name)) => error@ == ErrorView::InvalidManagerOptions(
                name + " must be greater than zero"@,
            ),
            _ => false,
        },
{
    let name: &str = if options.control_timeout_ms == 0 {
        "control_timeout"
    } else if options.reconcile_timeout_ms == 0 {
        "reconcile_timeout"
    } else if options.stop_timeout_ms == 0 {
        "stop_timeout"
    } else {
        return Ok(());
    };
    Err(Error::InvalidManagerOptions(text::concat(name, " must be greater than zero")))
}

/// What sweeping up after an earlier manager asks for next.
#[derive(Debug, Clone, Copy, PartialEq, Eq, Structural)]
pub enum SweepWork {
    /// Look whether the pid record of `epoch` exists.
    FindRecord { epoch: u64 },
    /// Find and end the process of `epoch` by its pid record.
    Reap { epoch: u64 },
    /// Remove the artifacts of `epoch`.
    Cleanup { epoch: u64 },
    /// Every epoch has been dealt with.
    Finish,
}

/// Sweeping up under way: the epochs that left artifacts, the one that has its
/// turn, and what is to be done about it.
#[derive(Debug)]
pub struct Sweep {
    pub epochs: Vec<u64>,
    pub turn: usize,
    pub work: SweepWork,
}

/// What came of a piece of [`SweepWork`].
#[derive(Debug)]
pub enum SweepReport {
    RecordFound(Result<bool, Error>),
    Reaped(Result<ReapOutcome, Error>),
    Cleaned(Result<(), Error>),
}

/// What is done first about the epoch that has its turn.
pub open spec fn turn_begins(epochs: Seq<u64>, turn: int) -> SweepWork {
    if 0 <= turn < epochs.len() {
        SweepWork::FindRecord { epoch: epochs[turn] }
    } else {
        SweepWork::Finish
    }
}

impl Sweep {
    /// Begins to sweep up after an earlier manager.
    pub fn new(epochs: Vec<u64>) -> (res: Self)
        ensures
            res.epochs == epochs,
            res.turn == 0,
            res.work == turn_begins(epochs@, 0),
    {
        let work: SweepWork = if epochs.len() > 0 {
            SweepWork::FindRecord { epoch: epochs[0] }
        } else {
            SweepWork::Finish
        };
        Sweep { epochs, turn: 0, work }
    }

    /// Goes on with a report: a record is reaped before its artifacts are
    /// removed, and any failure ends the sweep. A report of other work is
    /// ignored.
    pub fn advance(&mut self, report: SweepReport) -> (res: Result<(), Error>)
        requires
            old(self).turn < usize::MAX,
        ensures
            final(self).epochs == old(self).epochs,
            match (old(self).work, report) {
                (SweepWork::FindRecord { epoch }, SweepReport::RecordFound(Ok(exists))) => res
                    is Ok && final(self).turn == old(self).turn && final(self).work == if exists {
                    SweepWork::Reap { epoch }
                } else {
                    SweepWork::Cleanup { epoch }
                },
                (SweepWork::Reap { epoch }, SweepReport::Reaped(Ok(_))) => res is Ok && final(self).turn == old(self).turn && final(self).work == (SweepWork::Cleanup { epoch }),
                (SweepWork::Cleanup { .. }, SweepReport::Cleaned(Ok(_))) => res is Ok && final(self).turn == old(self).turn + 1 && final(self).work == turn_begins(
                    old(self).epochs@,
                    old(self).turn + 1,
                ),
                (SweepWork::FindRecord { .. }, SweepReport::RecordFound(Err(error))) => *final(self)
                    == *old(self) && res == Err::<(), Error>(error),
                (SweepWork::Reap { .. }, SweepReport::Reaped(Err(error))) => *final(self) == *old(self) && res == Err::<(), Error>(error),
                (SweepWork::Cleanup { .. }, SweepReport::Cleaned(Err(error))) => *final(self)
                    == *old(self) && res == Err::<(), Error>(error),
                _ => *final(self) == *old(self) && res is Ok,
            },
            res is Err ==> *final(self) == *old(self),
            final(self).turn != old(self).turn ==> old(self).work is Cleanup && report is Cleaned
                && report->Cleaned_0 is Ok,
            final(self).work is Reap && !(old(self).work is Reap) ==> report
                == SweepReport::RecordFound(Ok(true)),
            final(self).work is Cleanup && old(self).work is FindRecord ==> report
                == SweepReport::RecordFound(Ok(false)),
    {
        match (self.work, report) {
            (SweepWork::FindRecord { epoch }, SweepReport::RecordFound(Ok(exists))) => {
                self.work = if exists {
                    SweepWork::Reap { epoch }
                } else {
                    SweepWork::Cleanup { epoch }
                };
                Ok(())
            },
            (SweepWork::Reap { epoch }, SweepReport::Reaped(Ok(_))) => {
                self.work = SweepWork::Cleanup { epoch };
                Ok(())
            },
            (SweepWork::Cleanup { .. }, SweepReport::Cleaned(Ok(_))) => {
                self.turn = self.turn + 1;
                self.work = if self.turn < self.epochs.len() {
                    SweepWork::FindRecord { epoch: self.epochs[self.turn] }
                } else {
                    SweepWork::Finish
                };
                Ok(())
            },
            (SweepWork::FindRecord { .. }, SweepReport::RecordFound(Err(error))) => Err(error),
            (SweepWork::Reap { .. }, SweepReport::Reaped(Err(error))) => Err(error),
            (SweepWork::Cleanup { .. }, SweepReport::Cleaned(Err(error))) => Err(error),
            _ => Ok(()),
        }
    }
}

/// Whether `greatest` is the greatest of `epochs`, or 0 where there is none.
pub open spec fn is_greatest(epochs: Seq<u64>, greatest: u64) -> bool {
    (forall|i: int| 0 <= i < epochs.len() ==> #[trigger] epochs[i] <= greatest) && (epochs.contains(
        greatest,
    ) || (epochs.len() == 0 && greatest == 0))
}

/// The greatest of `epochs`, or 0 where there is none.
pub fn max_epoch(epochs: &Vec<u64>) -> (res: u64)
    ensures
        is_greatest(epochs@, res),
{
    if epochs.len() == 0 {
        return 0;
    }
    let mut greatest: u64 = epochs[0];
    let mut i: usize = 1;
    assert(epochs@[0] == greatest);
    while i < epochs.len()
        invariant
            1 <= i <= epochs.len(),
            forall|j: int| 0 <= j < i ==> #[trigger] epochs@[j] <= greatest,
            epochs@.contains(greatest),
        decreases epochs.len() - i,
    {
        if epochs[i] > greatest {
            greatest = epochs[i];
            assert(epochs@[i as int] == greatest);
        }
        i = i + 1;
    }
    greatest
}

impl CoreManager {
    /// A builder for a manager with these options.
    pub fn builder<P>(options: ManagerOptions) -> (res: CoreManagerBuilder<P>)
        ensures
            res.options == options,
            res.probes == (ProbePlan::<P> {
                readiness: None,
                liveness: None,
                liveness_with_readiness: false,
            }),
    {
        CoreManagerBuilder::new(options)
    }

    /// A manager that has started nothing yet, after it swept up the artifacts
    /// of `epochs`, at time `now`. Its epochs follow theirs.
    pub fn new(options: ManagerOptions, epochs: &Vec<u64>, now: i64) -> (res: Self)
        ensures
            res.options == options,
            is_greatest(epochs@, res.epoch),
            res@.current is None,
            res@.last_spec is None,
            res@.quarantine.len() == 0,
            res@.publications == 0,
            res@.status == (CoreStatusView {
                state: CoreStateView::Stopped { reason: None },
                changed_at: now,
                health: None,
                spec: None,
                controller: None,
                revision: None,
            }),
    {
        CoreManager {
            options,
            current: None,
            last_spec: None,
            quarantine: Vec::new(),
            status: CoreStatus::initial(now),
            epoch: max_epoch(epochs),
            publications: 0,
        }
    }
}

/// The directory that is asked for is taken in every mode; without it only a
/// managed controller has one.
pub proof fn the_directory_asked_for_is_taken(options: ManagerOptions)
    ensures
        options.runtime_dir matches Some(dir) ==> artifact_dir(options) == Some(dir@),
        options.runtime_dir is None ==> (artifact_dir(options) is Some
            <==> options.controller_mode is Managed),
        options.runtime_dir is None ==> (
        options.controller_mode matches ControllerMode::Managed { derived_dir, .. }
            ==> artifact_dir(options) == Some(derived_dir@)),
{
}

/// Options are accepted only if each of their timeouts leaves time.
pub proof fn every_timeout_leaves_time(options: ManagerOptions)
    ensures
        zero_timeout(options) is None <==> options.control_timeout_ms > 0
            && options.reconcile_timeout_ms > 0 && options.stop_timeout_ms > 0,
{
}

} // verus!
