//! Bringing a running core to a committed config through its controller.

use super::ConfigChange;
use vstd::prelude::*;

verus! {

/// A step of reconciling.
#[derive(Debug, Clone, Copy, PartialEq, Eq, Structural)]
pub enum ReconcileStep {
    /// A control client is built, to patch the config.
    PatchClient,
    /// The patch is sent.
    Patch,
    /// The running config is fetched and compared with what was asked for.
    Verify,
    /// A control client is built, to have the config read anew.
    ReloadClient,
    /// The core is told to read its config file.
    Reload,
    /// The core is probed.
    Probe,
}

/// What came of a [`ReconcileStep`].
#[derive(Debug, Clone, Copy, PartialEq, Eq, Structural)]
pub enum ReconcileReport {
    ClientBuilt { ok: bool },
    /// The patch was sent. Whether it was answered well does not matter: the
    /// running config decides.
    PatchSent { ok: bool },
    /// Whether the running config could be fetched and is as asked for.
    Compared { ok: bool },
    Reloaded { ok: bool },
    Probed { healthy: bool },
}

/// Where reconciling stands.
#[derive(Debug, Clone, Copy, PartialEq, Eq, Structural)]
pub enum Reconcile {
    Continue(ReconcileStep),
    /// Whether the core runs with the committed config.
    Finished(bool),
}

/// What reconciling begins with.
pub open spec fn first_step(change: ConfigChange) -> Reconcile {
    match change {
        ConfigChange::Patch => Reconcile::Continue(ReconcileStep::PatchClient),
        ConfigChange::Reload => Reconcile::Continue(ReconcileStep::ReloadClient),
        ConfigChange::Noop => Reconcile::Finished(true),
        ConfigChange::Switch => Reconcile::Finished(false),
    }
}

/// What follows a report. Any report other than the one that the step waits for
/// changes nothing.
pub open spec fn next_step(step: ReconcileStep, report: ReconcileReport) -> Reconcile {
    match (step, report) {
        (ReconcileStep::PatchClient, ReconcileReport::ClientBuilt { ok }) => if ok {
            Reconcile::Continue(ReconcileStep::Patch)
        } else {
            Reconcile::Finished(false)
        },
        (ReconcileStep::Patch, ReconcileReport::PatchSent { .. }) => Reconcile::Continue(
            ReconcileStep::Verify,
        ),
        (ReconcileStep::Verify, ReconcileReport::Compared { ok }) => if ok {
            Reconcile::Continue(ReconcileStep::Probe)
        } else {
            Reconcile::Finished(false)
        },
        (ReconcileStep::ReloadClient, ReconcileReport::ClientBuilt { ok }) => if ok {
            Reconcile::Continue(ReconcileStep::Reload)
        } else {
            Reconcile::Finished(false)
        },
        (ReconcileStep::Reload, ReconcileReport::Reloaded { ok }) => if ok {
            Reconcile::Continue(ReconcileStep::Probe)
        } else {
            Reconcile::Finished(false)
        },
        (ReconcileStep::Probe, ReconcileReport::Probed { healthy }) => Reconcile::Finished(healthy),
        (step, _) => Reconcile::Continue(step),
    }
}

/// Begins to bring the running core to a config that was changed by `change`.
pub fn reconcile_in_place(change: ConfigChange) -> (res: Reconcile)
    ensures
        res == first_step(change),
{
    match change {
        ConfigChange::Patch => Reconcile::Continue(ReconcileStep::PatchClient),
        ConfigChange::Reload => Reconcile::Continue(ReconcileStep::ReloadClient),
        ConfigChange::Noop => Reconcile::Finished(true),
        ConfigChange::Switch => Reconcile::Finished(false),
    }
}

/// Begins to bring a bootstrapped core to its full config: by a patch where
/// there is something to restore, else by a probe alone.
pub fn reconcile_bootstrap(has_restoration: bool) -> (res: Reconcile)
    ensures
        res == if has_restoration {
            first_step(ConfigChange::Patch)
        } else {
            Reconcile::Continue(ReconcileStep::Probe)
        },
{
    if has_restoration {
        reconcile_in_place(ConfigChange::Patch)
    } else {
        Reconcile::Continue(ReconcileStep::Probe)
    }
}

/// Goes on with reconciling.
pub fn advance(step: ReconcileStep, report: ReconcileReport) -> (res: Reconcile)
    ensures
        res == next_step(step, report),
{
    match (step, report) {
        (ReconcileStep::PatchClient, ReconcileReport::ClientBuilt { ok }) => if ok {
            Reconcile::Continue(ReconcileStep::Patch)
        } else {
            Reconcile::Finished(false)
        },
        (ReconcileStep::Patch, ReconcileReport::PatchSent { .. }) => Reconcile::Continue(
            ReconcileStep::Verify,
        ),
        (ReconcileStep::Verify, ReconcileReport::Compared { ok }) => if ok {
            Reconcile::Continue(ReconcileStep::Probe)
        } else {
            Reconcile::Finished(false)
        },
        (ReconcileStep::ReloadClient, ReconcileReport::ClientBuilt { ok }) => if ok {
            Reconcile::Continue(ReconcileStep::Reload)
        } else {
            Reconcile::Finished(false)
        },
        (ReconcileStep::Reload, ReconcileReport::Reloaded { ok }) => if ok {
            Reconcile::Continue(ReconcileStep::Probe)
        } else {
            Reconcile::Finished(false)
        },
        (ReconcileStep::Probe, ReconcileReport::Probed { healthy }) => Reconcile::Finished(healthy),
        (step, _) => Reconcile::Continue(step),
    }
}

/// A changed config counts as taken only after a probe found the core healthy.
pub proof fn only_a_healthy_probe_settles(step: ReconcileStep, report: ReconcileReport)
    ensures
        next_step(step, report) == Reconcile::Finished(true) ==> step == ReconcileStep::Probe
            && report == (ReconcileReport::Probed { healthy: true }),
{
}

/// Only a change that a running core can take is tried on it: nothing to change
/// is a success at once, and what needs a new epoch a failure.
pub proof fn each_change_has_its_way(change: ConfigChange)
    ensures
        first_step(change) is Finished <==> change == ConfigChange::Noop || change
            == ConfigChange::Switch,
        first_step(change) == Reconcile::Finished(true) <==> change == ConfigChange::Noop,
        first_step(change) == Reconcile::Continue(ReconcileStep::ReloadClient) <==> change
            == ConfigChange::Reload,
        first_step(change) == Reconcile::Continue(ReconcileStep::PatchClient) <==> change
            == ConfigChange::Patch,
{
}

/// A core has taken a config only if a probe found it healthy with it, after the
/// running config was compared with what was asked for or the core was reloaded.
/// A failed step is a failure of all, except that a patch may go unanswered.
pub proof fn success_is_a_healthy_core(step: ReconcileStep, report: ReconcileReport)
    ensures
        ({
            let next = next_step(step, report);
            &&& next == Reconcile::Finished(true) <==> step is Probe && report
                == (ReconcileReport::Probed { healthy: true })
            &&& next == Reconcile::Continue(ReconcileStep::Probe) && !(step is Probe) <==> (step
                is Verify && report == (ReconcileReport::Compared { ok: true })) || (step is Reload
                && report == (ReconcileReport::Reloaded { ok: true }))
            &&& next == Reconcile::Continue(ReconcileStep::Verify) && !(step is Verify) <==> step
                is Patch && report is PatchSent
            &&& next == Reconcile::Continue(ReconcileStep::Patch) && !(step is Patch) <==> step
                is PatchClient && report == (ReconcileReport::ClientBuilt { ok: true })
            &&& next == Reconcile::Continue(ReconcileStep::Reload) && !(step is Reload) <==> step
                is ReloadClient && report == (ReconcileReport::ClientBuilt { ok: true })
            &&& next == Reconcile::Finished(false) <==> match report {
                ReconcileReport::ClientBuilt { ok } => !ok && (step is PatchClient || step
                    is ReloadClient),
                ReconcileReport::PatchSent { .. } => false,
                ReconcileReport::Compared { ok } => !ok && step is Verify,
                ReconcileReport::Reloaded { ok } => !ok && step is Reload,
                ReconcileReport::Probed { healthy } => !healthy && step is Probe,
            }
        }),
{
}

} // verus!
