use std::collections::VecDeque;
use std::sync::Arc;

use nyanpasu_service::config::{inspect, resolve_controller};
use nyanpasu_service::error::Error;
use nyanpasu_service::host::Host;
use nyanpasu_service::kind::CoreKind;
use nyanpasu_service::manager::publish::{
    apply_epoch_status, with_durability_result, with_switch_durability_result,
};
use nyanpasu_service::manager::quarantine::QuarantinedEpoch;
use nyanpasu_service::manager::recovery::{ReapOutcome, RecoveryWork};
use nyanpasu_service::manager::setup::{
    max_epoch, runtime_dir, validate_timeouts, Sweep, SweepReport, SweepWork,
};
use nyanpasu_service::manager::{
    graceful_degrade_reason, ApplyOutcome, ConfigChange, CoreManager, DegradeReason, Launch,
    Observed, Outcome, OverlapBlock, Progress, Readiness, Report, SwitchOutcome, Work,
};
use nyanpasu_service::platform::Platform;
use nyanpasu_service::spec::{
    ControllerMode, CoreSpec, InstanceOptions, InstanceSpec, ManagerOptions, ResolvedController,
};
use nyanpasu_service::state::{
    ConfigRevision, CoreState, CoreStatus, HealthState, HealthStatus, InstanceState,
    InstanceStatus, RevisionId, StopReason,
};
use serde_yaml_ng::Mapping;

fn spec_for(config: &str) -> Arc<InstanceSpec> {
    Arc::new(InstanceSpec {
        core: CoreSpec {
            kind: CoreKind::Mihomo,
            binary_path: "/bin/mihomo".to_owned(),
            version: None,
            features: Vec::new(),
        },
        config_path: config.to_owned(),
        working_dir: "/data".to_owned(),
        pid_file: None,
        options: InstanceOptions::default(),
    })
}

fn launch_for(spec: &Arc<InstanceSpec>, epoch: u64, generation: u64, hash: &str) -> Launch {
    Launch {
        source_spec: spec.clone(),
        effective_spec: spec.clone(),
        controller: ResolvedController {
            host: Host::UnixSocket(format!("/run/core-{epoch}.sock")),
            secret: None,
        },
        revision: ConfigRevision {
            epoch,
            generation,
            source_hash: "source".to_owned(),
            effective_hash: hash.to_owned(),
            runtime_path: format!("/run/config-{epoch}.yaml"),
        },
        source_document: Arc::new(Mapping::new()),
        effective_document: Arc::new(Mapping::new()),
    }
}

/// Performs the work of a manager: everything goes well unless a failure is
/// queued for a piece of work by its name.
struct Driver {
    manager: CoreManager,
    running: bool,
    overlap: Option<OverlapBlock>,
    change: ConfigChange,
    reconciles: bool,
    failures: VecDeque<(&'static str, Error)>,
    log: Vec<String>,
    states: Vec<CoreState>,
}

impl Driver {
    fn new(managed: bool) -> Driver {
        let controller_mode = if managed {
            ControllerMode::Managed { derived_dir: "/run".to_owned(), controller_template: None }
        } else {
            ControllerMode::Passthrough
        };
        let options = ManagerOptions {
            controller_mode,
            runtime_dir: Some("/run".to_owned()),
            ..ManagerOptions::default()
        };
        Driver {
            manager: CoreManager::new(options, &Vec::new(), 1),
            running: false,
            overlap: None,
            change: ConfigChange::Patch,
            reconciles: true,
            failures: VecDeque::new(),
            log: Vec::new(),
            states: Vec::new(),
        }
    }

    fn seen(&self) -> Observed {
        let state = if self.running {
            InstanceState::Running { pid: 42 }
        } else {
            InstanceState::Stopped(StopReason::Finished)
        };
        Observed { now: 7, current: InstanceStatus { state, health: None } }
    }

    fn fails(&mut self, work: &str) -> Option<Error> {
        match self.failures.front() {
            Some((name, _)) if *name == work => self.failures.pop_front().map(|(_, error)| error),
            _ => None,
        }
    }

    fn outcome<T>(&mut self, work: &str, value: T) -> Result<T, Error> {
        match self.fails(work) {
            Some(error) => Err(error),
            None => Ok(value),
        }
    }

    fn perform(&mut self, work: Work) -> Report {
        let ready = Readiness { pid: Some(42), health: None };
        match work {
            Work::Stop { epoch } => {
                self.log.push(format!("stop {epoch}"));
                Report::Stopped(self.outcome("stop", ()))
            }
            Work::Cleanup { epoch } => {
                self.log.push(format!("clean {epoch}"));
                Report::Cleaned(self.outcome("clean", ()))
            }
            Work::Load { .. } => {
                self.log.push("load".to_owned());
                let overlap = self.overlap;
                Report::Loaded(self.outcome("load", overlap))
            }
            Work::Prepare { spec, epoch } => {
                self.log.push(format!("prepare {epoch}"));
                Report::Prepared(self.outcome("prepare", launch_for(&spec, epoch, 1, "h1")))
            }
            Work::PrepareGraceful { spec, epoch } => {
                self.log.push(format!("bootstrap {epoch}"));
                Report::Prepared(self.outcome("bootstrap", launch_for(&spec, epoch, 1, "h1")))
            }
            Work::PrepareApply { spec } => {
                let current = self.manager.current.as_ref().unwrap().revision.clone();
                self.log.push(format!("prepare apply {}", current.epoch));
                let desired = launch_for(&spec, current.epoch, current.generation + 1, "h2");
                let change = self.change;
                Report::ApplyPrepared(self.outcome("apply", (desired, change)))
            }
            Work::Spawn { epoch, .. } => {
                self.log.push(format!("spawn {epoch}"));
                Report::Spawned(self.outcome("spawn", ()))
            }
            Work::AwaitReady { epoch } => {
                self.log.push(format!("ready {epoch}"));
                Report::Ready(self.outcome("ready", ready))
            }
            Work::Backup { epoch, generation } => {
                self.log.push(format!("backup {epoch} {generation}"));
                Report::BackedUp(self.outcome("backup", ()))
            }
            Work::CommitReplace { epoch } => {
                self.log.push(format!("commit {epoch}"));
                Report::Committed(self.outcome("commit", None))
            }
            Work::Reconcile { epoch, .. } => {
                self.log.push(format!("reconcile {epoch}"));
                Report::Reconciled(if self.reconciles { Some(ready) } else { None })
            }
            Work::Restore { epoch } => {
                self.log.push(format!("restore {epoch}"));
                Report::Restored(self.outcome("restore", None))
            }
            Work::RemoveBackup { epoch } => {
                self.log.push(format!("forget {epoch}"));
                Report::BackupRemoved(self.outcome("forget", ()))
            }
        }
    }

    fn drive(&mut self, begun: Progress) -> Result<Outcome, Error> {
        let mut progress = begun;
        loop {
            self.states.push(self.manager.status().state);
            match progress {
                Progress::Finished(result) => return result,
                Progress::Continue(pending) => {
                    let report = self.perform(pending.work());
                    let seen = self.seen();
                    progress = self.manager.advance(pending, report, &seen);
                }
            }
        }
    }

    fn start(&mut self, config: &str) -> Result<Outcome, Error> {
        let seen = self.seen();
        let begun = self.manager.start(spec_for(config), &seen);
        let result = self.drive(begun);
        self.running = result.is_ok();
        result
    }

    fn stop(&mut self) -> Result<Outcome, Error> {
        let seen = self.seen();
        let begun = self.manager.stop(&seen);
        let result = self.drive(begun);
        self.running = self.running && result.is_err();
        result
    }

    fn switch(&mut self, config: &str) -> Result<Outcome, Error> {
        let seen = self.seen();
        let begun = self.manager.switch(spec_for(config), &seen);
        self.drive(begun)
    }

    fn restart(&mut self) -> Result<Outcome, Error> {
        let seen = self.seen();
        let begun = self.manager.restart(&seen);
        self.drive(begun)
    }

    fn apply(&mut self, config: &str, expected: Option<RevisionId>) -> Result<Outcome, Error> {
        let seen = self.seen();
        let begun = self.manager.apply_config(spec_for(config), expected, &seen);
        self.drive(begun)
    }
}

#[test]
fn switch_matrix_matches_the_spec() {
    assert_eq!(
        graceful_degrade_reason(false, CoreKind::Mihomo, None),
        Some(DegradeReason::PassthroughMode)
    );
    assert_eq!(
        graceful_degrade_reason(true, CoreKind::ClashRust, None),
        Some(DegradeReason::UnsupportedKind)
    );
    assert_eq!(
        graceful_degrade_reason(true, CoreKind::Mihomo, Some(OverlapBlock::DnsListen)),
        Some(DegradeReason::DnsListen)
    );
    assert_eq!(graceful_degrade_reason(true, CoreKind::Mihomo, None), None);
}

fn running_status(epoch: u64, pid: u32) -> CoreStatus {
    let mut status = CoreStatus::initial(0);
    status.revision = Some(ConfigRevision {
        epoch,
        generation: 1,
        source_hash: "source".into(),
        effective_hash: "effective".into(),
        runtime_path: format!("config-{epoch}.yaml"),
    });
    status.state = CoreState::Running { epoch, pid };
    status
}

#[test]
fn old_epoch_events_cannot_overwrite_new_epoch_status() {
    let mut status = running_status(9, 90);
    for stale in [
        CoreState::Running { epoch: 8, pid: 80 },
        CoreState::Restarting { epoch: 8, attempt: 2 },
        CoreState::Stopped { reason: Some(StopReason::Finished) },
    ] {
        let stale_status = InstanceStatus {
            state: match stale {
                CoreState::Running { pid, .. } => InstanceState::Running { pid },
                CoreState::Restarting { attempt, .. } => InstanceState::Restarting { attempt },
                CoreState::Stopped { reason } => {
                    InstanceState::Stopped(reason.unwrap_or(StopReason::Finished))
                }
                _ => unreachable!(),
            },
            health: None,
        };
        assert!(!apply_epoch_status(&mut status, 8, &stale_status, 5));
        assert!(matches!(status.state, CoreState::Running { epoch: 9, pid: 90 }));
    }
}

#[test]
fn stale_epoch_status_neither_mutates_nor_wakes_watchers() {
    let mut driver = Driver::new(false);
    driver.manager.status = running_status(9, 90);
    let stale = InstanceStatus {
        state: InstanceState::Running { pid: 80 },
        health: Some(HealthStatus::starting(3)),
    };
    let published = driver.manager.publications;
    let sent = driver.manager.publish_epoch_status(8, &stale, 5);
    assert!(!sent);
    assert_eq!(driver.manager.publications, published);
    assert!(matches!(driver.manager.status().state, CoreState::Running { epoch: 9, pid: 90 }));
    assert_eq!(driver.manager.status(), running_status(9, 90));
}

#[test]
fn pure_health_transition_preserves_lifecycle_changed_at() {
    let mut status = running_status(3, 30);
    status.changed_at = 7;
    let mut health = HealthStatus::starting(9);
    health.state = HealthState::Unhealthy;
    let instance = InstanceStatus {
        state: InstanceState::Running { pid: 30 },
        health: Some(health.clone()),
    };
    assert!(apply_epoch_status(&mut status, 3, &instance, 99));
    assert_eq!(status.changed_at, 7);
    assert_eq!(status.health, Some(health));
}

#[test]
fn durability_warning_preserves_structured_apply_error() {
    let result = with_durability_result(
        Err(Error::ApplyRollbackFailed {
            apply: "desired failed".into(),
            rollback: "rollback failed".into(),
        }),
        Some("directory sync failed".into()),
    );
    let Err(Error::DurabilityUncertain { source, warning }) = result else {
        panic!("structured error was flattened")
    };
    assert!(matches!(*source, Error::ApplyRollbackFailed { .. }));
    assert_eq!(warning, "directory sync failed");
}

#[test]
fn durability_warning_wraps_stop_unconfirmed_without_flattening() {
    let apply = with_durability_result(
        Err(Error::StopUnconfirmed("apply stop uncertain".into())),
        Some("apply sync warning".into()),
    );
    let Err(Error::DurabilityUncertain { source, warning }) = apply else {
        panic!("apply stop uncertainty was not structurally wrapped")
    };
    assert!(matches!(*source, Error::StopUnconfirmed(_)));
    assert_eq!(warning, "apply sync warning");

    let switch = with_switch_durability_result(
        Err(Error::StopUnconfirmed("switch stop uncertain".into())),
        Some("switch sync warning".into()),
    );
    let Err(Error::DurabilityUncertain { source, warning }) = switch else {
        panic!("switch stop uncertainty was not structurally wrapped")
    };
    assert!(matches!(*source, Error::StopUnconfirmed(_)));
    assert_eq!(warning, "switch sync warning");
}

#[test]
fn start_publishes_running_and_rejects_double_start() {
    let mut driver = Driver::new(false);
    assert_eq!(driver.manager.status().state, CoreState::Stopped { reason: None });
    assert_eq!(driver.start("/c.yaml"), Ok(Outcome::Started));
    let status = driver.manager.status();
    assert_eq!(status.state, CoreState::Running { epoch: 1, pid: 42 });
    assert_eq!(status.spec.as_ref().map(|s| s.config_path.clone()), Some("/c.yaml".to_owned()));
    assert!(status.changed_at > 0);
    assert_eq!(driver.log, ["load", "prepare 1", "spawn 1", "ready 1"]);
    assert_eq!(driver.start("/c.yaml"), Err(Error::AlreadyRunning));
}

#[test]
fn stop_requires_a_running_core() {
    assert_eq!(Driver::new(false).stop(), Err(Error::NotStarted));
}

#[test]
fn failed_start_reports_error_and_publishes_stopped() {
    let mut driver = Driver::new(false);
    let timeout = || Error::StartupTimeout { stderr_tail: "tail".to_owned() };
    driver.failures.push_back(("ready", timeout()));
    assert_eq!(driver.start("/c.yaml"), Err(timeout()));
    assert!(matches!(driver.manager.status().state, CoreState::Stopped { reason: Some(_) }));
    assert_eq!(driver.log, ["load", "prepare 1", "spawn 1", "ready 1", "stop 1", "clean 1"]);
    assert!(driver.manager.current.is_none());
}

#[test]
fn missing_controller_is_rejected_strictly() {
    let mut driver = Driver::new(false);
    let info = inspect("mixed-port: 7890\n", Platform::Unix).unwrap();
    let error = resolve_controller(&info).unwrap_err();
    driver.failures.push_back(("prepare", error));
    assert_eq!(driver.start("/c.yaml"), Err(Error::ControllerMissing));
}

#[test]
fn hard_switch_replaces_the_core_and_bumps_the_epoch() {
    let mut driver = Driver::new(false);
    driver.start("/a.yaml").unwrap();
    driver.log.clear();
    assert_eq!(
        driver.switch("/b.yaml"),
        Ok(Outcome::Switched(SwitchOutcome::Hard { reason: DegradeReason::PassthroughMode }))
    );
    assert_eq!(driver.manager.status().state, CoreState::Running { epoch: 2, pid: 42 });
    assert_eq!(driver.log, ["load", "prepare 2", "stop 1", "clean 1", "spawn 2", "ready 2"]);
}

#[test]
fn restart_uses_the_last_spec_and_survives_stop() {
    let mut driver = Driver::new(false);
    assert_eq!(driver.restart(), Err(Error::NotStarted));
    driver.start("/a.yaml").unwrap();
    assert_eq!(driver.stop(), Ok(Outcome::Stopped));
    assert_eq!(
        driver.manager.status().state,
        CoreState::Stopped { reason: Some(StopReason::User) }
    );
    driver.restart().unwrap();
    let status = driver.manager.status();
    assert!(matches!(status.state, CoreState::Running { .. }));
    assert_eq!(status.spec.map(|s| s.config_path), Some("/a.yaml".to_owned()));
}

#[test]
fn switch_publishes_a_switching_window() {
    let mut driver = Driver::new(false);
    driver.start("/a.yaml").unwrap();
    driver.states.clear();
    driver.restart().unwrap();
    assert!(
        driver.states.iter().any(|s| matches!(s, CoreState::Switching { from: Some(1), to: 2 })),
        "sequence was {:?}",
        driver.states
    );
}

#[test]
fn lifecycle_sequence_matches_legacy_contract() {
    let mut driver = Driver::new(false);
    driver.start("/a.yaml").unwrap();
    for state in [
        InstanceState::Restarting { attempt: 1 },
        InstanceState::Running { pid: 43 },
    ] {
        let update = InstanceStatus { state, health: None };
        assert!(driver.manager.publish_epoch_status(1, &update, 8));
        driver.states.push(driver.manager.status().state);
    }
    driver.stop().unwrap();
    let position = |pred: &dyn Fn(&CoreState) -> bool| driver.states.iter().position(pred).unwrap();
    let starting = position(&|s| matches!(s, CoreState::Starting { .. }));
    let running = position(&|s| matches!(s, CoreState::Running { .. }));
    let restarting = position(&|s| matches!(s, CoreState::Restarting { .. }));
    let recovered = position(&|s| matches!(s, CoreState::Running { pid: 43, .. }));
    let stopped = position(&|s| {
        matches!(s, CoreState::Stopped { reason: Some(StopReason::User) })
    });
    assert!(starting < running && running < restarting, "{:?}", driver.states);
    assert!(restarting < recovered && recovered < stopped, "{:?}", driver.states);
}

#[test]
fn managed_switches_overlap() {
    let mut driver = Driver::new(true);
    driver.start("/a.yaml").unwrap();
    driver.log.clear();
    assert_eq!(driver.switch("/b.yaml"), Ok(Outcome::Switched(SwitchOutcome::Graceful)));
    assert_eq!(
        driver.log,
        ["load", "bootstrap 2", "spawn 2", "ready 2", "stop 1", "commit 2", "reconcile 2", "clean 1"]
    );
    assert_eq!(driver.manager.status().state, CoreState::Running { epoch: 2, pid: 42 });
}

#[test]
fn a_dns_listener_forces_a_hard_switch() {
    let mut driver = Driver::new(true);
    driver.start("/a.yaml").unwrap();
    driver.overlap = Some(OverlapBlock::DnsListen);
    assert_eq!(
        driver.switch("/b.yaml"),
        Ok(Outcome::Switched(SwitchOutcome::Hard { reason: DegradeReason::DnsListen }))
    );
}

#[test]
fn a_core_that_does_not_take_its_full_config_is_replaced() {
    let mut driver = Driver::new(true);
    driver.start("/a.yaml").unwrap();
    driver.log.clear();
    driver.reconciles = false;
    assert_eq!(
        driver.switch("/b.yaml"),
        Ok(Outcome::Switched(SwitchOutcome::Hard { reason: DegradeReason::PatchFailed }))
    );
    assert!(driver.log.windows(2).any(|w| w == ["stop 2", "spawn 2"]), "{:?}", driver.log);
}

#[test]
fn a_rejected_bootstrap_leaves_the_old_core_running() {
    let mut driver = Driver::new(true);
    driver.start("/a.yaml").unwrap();
    driver.log.clear();
    let failed = || Error::StartupFailed { stderr_tail: "x".to_owned() };
    driver.failures.push_back(("ready", failed()));
    assert_eq!(driver.switch("/b.yaml"), Err(failed()));
    assert_eq!(driver.log, ["load", "bootstrap 2", "spawn 2", "ready 2", "stop 2", "clean 2"]);
    assert_eq!(driver.manager.status().state, CoreState::Running { epoch: 1, pid: 42 });
    assert_eq!(driver.manager.current.as_ref().unwrap().revision.epoch, 1);
}

#[test]
fn a_stop_that_is_not_confirmed_quarantines_the_epoch() {
    let mut driver = Driver::new(false);
    driver.start("/a.yaml").unwrap();
    driver.failures.push_back(("stop", Error::StopUnconfirmed("who knows".to_owned())));
    assert!(matches!(driver.stop(), Err(Error::StopUnconfirmed(_))));
    for result in [driver.start("/b.yaml"), driver.switch("/b.yaml"), driver.restart()] {
        assert!(matches!(result, Err(Error::ManagerQuarantined { epoch: 1, .. })), "{result:?}");
    }
    assert!(matches!(
        driver.apply("/b.yaml", None),
        Err(Error::ManagerQuarantined { epoch: 1, .. })
    ));
    assert_eq!(driver.stop(), Err(Error::NotStarted));
}

#[test]
fn a_proven_death_lifts_the_quarantine() {
    let mut driver = Driver::new(false);
    driver.start("/a.yaml").unwrap();
    driver.failures.push_back(("stop", Error::StopUnconfirmed("who knows".to_owned())));
    driver.stop().unwrap_err();
    driver.running = false;

    let mut recovery = driver.manager.recover_quarantine().unwrap();
    assert_eq!(recovery.work(), RecoveryWork::Reap { epoch: 1 });
    driver.manager.recover_reaped(&mut recovery, Ok(ReapOutcome::NotFound));
    assert_eq!(recovery.work(), RecoveryWork::Finish);
    assert!(driver.manager.recover_finish(recovery, 9).is_err());
    assert!(driver.manager.quarantine_error().is_some());

    let mut recovery = driver.manager.recover_quarantine().unwrap();
    driver.manager.recover_reaped(&mut recovery, Ok(ReapOutcome::Killed));
    assert_eq!(recovery.work(), RecoveryWork::Cleanup { epoch: 1 });
    driver.manager.recover_cleaned(&mut recovery, Ok(()));
    assert_eq!(driver.manager.recover_finish(recovery, 9), Ok(()));
    assert!(driver.manager.quarantine_error().is_none());
    assert!(driver.manager.recover_quarantine().is_none());
    assert_eq!(driver.start("/b.yaml"), Ok(Outcome::Started));
    assert_eq!(driver.manager.status().state, CoreState::Running { epoch: 2, pid: 42 });
}

#[test]
fn applying_patches_the_running_core() {
    let mut driver = Driver::new(true);
    driver.start("/a.yaml").unwrap();
    driver.log.clear();
    match driver.apply("/a.yaml", None) {
        Ok(Outcome::Applied(ApplyOutcome::Patched { revision })) => {
            assert_eq!((revision.epoch, revision.generation), (1, 2))
        }
        other => panic!("unexpected result: {other:?}"),
    }
    assert_eq!(
        driver.log,
        ["load", "prepare apply 1", "backup 1 2", "commit 1", "reconcile 1", "forget 1"]
    );
    assert_eq!(driver.manager.current.as_ref().unwrap().revision.generation, 2);
}

#[test]
fn applying_checks_the_expected_revision() {
    let mut driver = Driver::new(true);
    driver.start("/a.yaml").unwrap();
    let stale = RevisionId { epoch: 1, generation: 9, effective_hash: "h1".to_owned() };
    assert!(matches!(
        driver.apply("/a.yaml", Some(stale)),
        Err(Error::RevisionConflict { .. })
    ));
    let current = driver.manager.current.as_ref().unwrap().revision.id();
    assert!(driver.apply("/a.yaml", Some(current)).is_ok());
}

#[test]
fn applying_nothing_changes_nothing() {
    let mut driver = Driver::new(true);
    driver.start("/a.yaml").unwrap();
    driver.change = ConfigChange::Noop;
    driver.log.clear();
    assert!(matches!(
        driver.apply("/a.yaml", None),
        Ok(Outcome::Applied(ApplyOutcome::Noop { .. }))
    ));
    assert_eq!(driver.log, ["load", "prepare apply 1"]);
}

#[test]
fn a_core_that_does_not_take_a_config_is_restarted_with_it() {
    let mut driver = Driver::new(true);
    driver.start("/a.yaml").unwrap();
    driver.reconciles = false;
    driver.log.clear();
    assert!(matches!(
        driver.apply("/a.yaml", None),
        Ok(Outcome::Applied(ApplyOutcome::Restarted { .. }))
    ));
    assert!(driver.log.windows(3).any(|w| w == ["stop 1", "spawn 1", "ready 1"]));
}

#[test]
fn a_config_that_does_not_start_is_rolled_back() {
    let mut driver = Driver::new(true);
    driver.start("/a.yaml").unwrap();
    driver.reconciles = false;
    driver.log.clear();
    driver.failures.push_back(("ready", Error::StartupFailed { stderr_tail: "x".to_owned() }));
    match driver.apply("/b.yaml", None) {
        Ok(Outcome::Applied(ApplyOutcome::RolledBack { revision, failed_apply })) => {
            assert_eq!((revision.epoch, revision.generation), (1, 1));
            assert!(failed_apply.contains('x'));
        }
        other => panic!("unexpected result: {other:?}"),
    }
    assert!(driver.log.contains(&"restore 1".to_owned()), "{:?}", driver.log);
    assert_eq!(driver.manager.status().state, CoreState::Running { epoch: 1, pid: 42 });
}

#[test]
fn a_change_that_needs_a_new_epoch_switches() {
    let mut driver = Driver::new(true);
    driver.start("/a.yaml").unwrap();
    driver.change = ConfigChange::Switch;
    driver.log.clear();
    match driver.apply("/b.yaml", None) {
        Ok(Outcome::Applied(ApplyOutcome::Restarted { revision })) => assert_eq!(revision.epoch, 2),
        other => panic!("unexpected result: {other:?}"),
    }
    assert!(driver.log.contains(&"clean 1".to_owned()), "{:?}", driver.log);
}

#[test]
fn applying_needs_a_running_core() {
    let mut driver = Driver::new(true);
    assert_eq!(driver.apply("/a.yaml", None), Err(Error::NotStarted));
}

#[test]
fn a_manager_sweeps_up_before_it_starts() {
    let mut sweep = Sweep::new(vec![3, 5]);
    assert_eq!(sweep.work, SweepWork::FindRecord { epoch: 3 });
    sweep.advance(SweepReport::RecordFound(Ok(true))).unwrap();
    assert_eq!(sweep.work, SweepWork::Reap { epoch: 3 });
    sweep.advance(SweepReport::Reaped(Ok(ReapOutcome::Killed))).unwrap();
    assert_eq!(sweep.work, SweepWork::Cleanup { epoch: 3 });
    sweep.advance(SweepReport::Cleaned(Ok(()))).unwrap();
    assert_eq!(sweep.work, SweepWork::FindRecord { epoch: 5 });
    sweep.advance(SweepReport::RecordFound(Ok(false))).unwrap();
    sweep.advance(SweepReport::Cleaned(Ok(()))).unwrap();
    assert_eq!(sweep.work, SweepWork::Finish);
    assert_eq!(max_epoch(&vec![3, 5, 4]), 5);
    let manager = CoreManager::new(ManagerOptions::default(), &vec![3, 5], 1);
    assert_eq!(manager.epoch, 5);
}

#[test]
fn timeouts_and_a_directory_are_needed() {
    let options = ManagerOptions::default();
    assert_eq!(validate_timeouts(&options), Ok(()));
    assert!(matches!(runtime_dir(&options), Err(Error::InvalidManagerOptions(_))));
    let options = ManagerOptions { stop_timeout_ms: 0, ..ManagerOptions::default() };
    assert_eq!(
        validate_timeouts(&options),
        Err(Error::InvalidManagerOptions("stop_timeout must be greater than zero".to_owned()))
    );
    let options = ManagerOptions {
        controller_mode: ControllerMode::Managed {
            derived_dir: "/derived".to_owned(),
            controller_template: None,
        },
        ..ManagerOptions::default()
    };
    assert_eq!(runtime_dir(&options), Ok("/derived".to_owned()));
}

#[test]
fn instance_options_defaults_match_spec() {
    let options = InstanceOptions::default();
    assert_eq!(options.startup_timeout_ms, 30_000);
    assert_eq!(options.health.interval_ms, 250);
    assert_eq!(options.health.timeout_ms, 1_000);
    assert_eq!(options.health.failure_threshold, 3);
    assert_eq!(options.health.success_threshold, 1);
    assert_eq!(options.health.start_period_ms, 0);
    assert_eq!(
        options.restart_policy,
        nyanpasu_service::spec::RestartPolicy::OnFailure { max_restarts: 5 }
    );
}

#[test]
fn shutting_down_an_idle_manager_succeeds() {
    let mut driver = Driver::new(false);
    let seen = driver.seen();
    let begun = driver.manager.shutdown(&seen);
    assert_eq!(driver.drive(begun), Ok(Outcome::Stopped));
    driver.start("/a.yaml").unwrap();
    let seen = driver.seen();
    let begun = driver.manager.shutdown(&seen);
    assert_eq!(driver.drive(begun), Ok(Outcome::Stopped));
    assert!(driver.manager.current.is_none());
}

fn quarantined(epochs: &[(u64, bool)]) -> CoreManager {
    let mut manager = Driver::new(false).manager;
    manager.quarantine = epochs
        .iter()
        .map(|(epoch, death_proven)| QuarantinedEpoch {
            epoch: *epoch,
            reason: "no answer".to_owned(),
            death_proven: *death_proven,
        })
        .collect();
    manager
}

#[test]
fn a_recovery_that_fails_leaves_what_failed_in_quarantine() {
    let mut manager = quarantined(&[(1, false), (2, true), (3, false)]);
    let mut recovery = manager.recover_quarantine().unwrap();
    assert_eq!(recovery.work(), RecoveryWork::Reap { epoch: 1 });
    manager.recover_reaped(&mut recovery, Ok(ReapOutcome::AlreadyExited));
    assert_eq!(recovery.work(), RecoveryWork::Cleanup { epoch: 1 });
    manager.recover_cleaned(&mut recovery, Err(Error::Io("busy".to_owned())));
    assert_eq!(recovery.work(), RecoveryWork::Cleanup { epoch: 2 }, "its death is known");
    manager.recover_cleaned(&mut recovery, Ok(()));
    assert_eq!(recovery.work(), RecoveryWork::Reap { epoch: 3 });
    manager.recover_reaped(&mut recovery, Ok(ReapOutcome::NotFound));
    assert_eq!(recovery.work(), RecoveryWork::Finish);
    assert!(matches!(
        manager.recover_finish(recovery, 9),
        Err(Error::ManagerQuarantined { epoch: 1, .. })
    ));
    let left: Vec<(u64, bool)> =
        manager.quarantine.iter().map(|entry| (entry.epoch, entry.death_proven)).collect();
    assert_eq!(left, [(1, true), (3, false)]);
    assert!(manager.quarantine_error().is_some());
}

#[test]
fn a_recovery_of_every_epoch_opens_the_manager() {
    let mut manager = quarantined(&[(1, true), (2, false)]);
    let mut recovery = manager.recover_quarantine().unwrap();
    manager.recover_cleaned(&mut recovery, Ok(()));
    manager.recover_reaped(&mut recovery, Ok(ReapOutcome::Killed));
    manager.recover_cleaned(&mut recovery, Ok(()));
    assert_eq!(manager.recover_finish(recovery, 9), Ok(()));
    assert!(manager.quarantine.is_empty());
    assert_eq!(manager.quarantine_error(), None);
}

#[test]
fn operations_keep_the_options() {
    let mut driver = Driver::new(true);
    let options = format!("{:?}", driver.manager.options);
    driver.start("/a.yaml").unwrap();
    driver.switch("/b.yaml").unwrap();
    driver.apply("/b.yaml", None).unwrap();
    driver.stop().unwrap();
    driver.restart().unwrap();
    assert_eq!(format!("{:?}", driver.manager.options), options);
}
