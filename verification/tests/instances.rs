use std::sync::Arc;
use std::time::Duration;

use nyanpasu_service::error::Error;
use nyanpasu_service::host::Host;
use nyanpasu_service::instance::halt::{
    advance, show_duration, stop_and_confirm_dead, EpochRecord, Halt, HaltReport, HaltStep,
    HaltWork, SupervisorStop,
};
use nyanpasu_service::instance::monitor::{
    observation_applies, Exit, Monitor, ObservationStep, ProbeObservation, RequestStep, RunState,
    SupervisorEvent, TrackerUpdate, STDERR_TAIL_LINES,
};
use nyanpasu_service::instance::{
    build_command, build_command_in, epoch_pid_path, is_epoch_record, probe_now, refuse_probe,
    Instance, InstanceBuilder, Liveness, PidRecord, ProbePhase, ProbeReply, ProbeResult,
};
use nyanpasu_service::kind::{check_command, check_command_in, CoreKind};
use nyanpasu_service::manager::prepare::{
    DerivedRuntime, Preparation, PrepareReport, PrepareStep, PrepareWork, Prepared,
};
use nyanpasu_service::manager::reconcile;
use nyanpasu_service::manager::reconcile::{Reconcile, ReconcileReport, ReconcileStep};
use nyanpasu_service::manager::recovery::ReapOutcome;
use nyanpasu_service::manager::ConfigChange;
use nyanpasu_service::platform::Platform;
use nyanpasu_service::spec::{CoreSpec, InstanceOptions, InstanceSpec, ResolvedController};
use nyanpasu_service::state::{ConfigRevision, HealthState, InstanceState, StopReason};
use serde_yaml_ng::Mapping;

fn run_state(run_id: u64, pid: u32) -> RunState {
    RunState { run_id, pid, ack_attempted: false, ready: false }
}

fn healthy_observation(run_id: u64, pid: u32, completed_at: u64) -> ProbeObservation {
    ProbeObservation {
        run_id,
        pid,
        phase: ProbePhase::Readiness,
        completed_at,
        completed_at_ms: 77,
        result: ProbeResult::Healthy,
    }
}

fn healthy() -> TrackerUpdate {
    TrackerUpdate { state: HealthState::Healthy, consecutive_failures: 0, last_error: None }
}

fn spec_of(kind: CoreKind, pid_file: Option<&str>) -> Arc<InstanceSpec> {
    Arc::new(InstanceSpec {
        core: CoreSpec {
            kind,
            binary_path: "/bin/core".to_owned(),
            version: None,
            features: vec!["f".to_owned()],
        },
        config_path: "/run/config-4.yaml".to_owned(),
        working_dir: "/data".to_owned(),
        pid_file: pid_file.map(str::to_owned),
        options: InstanceOptions::default(),
    })
}

fn controller() -> ResolvedController {
    ResolvedController { host: Host::UnixSocket("/run/core-4.sock".to_owned()), secret: None }
}

fn spawned(kind: CoreKind, pid_file: Option<&str>) -> Instance {
    Instance::builder::<&'static str>(spec_of(kind, pid_file), 4, controller())
        .plan(true, true, 1_000, 5)
        .unwrap()
        .instance
}

/// Starts a process and lets its first healthy probe be acknowledged.
fn make_ready(instance: &mut Instance, pid: u32, instant: u64) {
    let monitor = &mut instance.monitor;
    let reaction = monitor.supervisor_event(SupervisorEvent::Started { pid }, instant, 6);
    let run = reaction.start_driver.unwrap();
    let observation = healthy_observation(run.run_id, pid, instant);
    assert!(monitor.accepts(&observation));
    assert_eq!(
        monitor.apply_probe_observation(&observation, &healthy()),
        ObservationStep::Acknowledge { pid }
    );
    assert!(monitor.acknowledge(&observation, &healthy(), true));
}

#[test]
fn observation_requires_matching_run_id_and_pid() {
    let run = run_state(7, 42);
    assert!(observation_applies(&healthy_observation(7, 42, 0), &run));
    assert!(!observation_applies(&healthy_observation(6, 42, 0), &run));
    assert!(!observation_applies(&healthy_observation(7, 41, 0), &run));
    assert!(!observation_applies(&healthy_observation(6, 41, 0), &run));
}

#[test]
fn deadline_drain_applies_queued_boundary_observation_before_timeout() {
    let deadline = 10_000_000;
    let mut monitor = Monitor::new(deadline, deadline, 5);
    let reaction = monitor.supervisor_event(SupervisorEvent::Started { pid: 42 }, 0, 6);
    let run = reaction.start_driver.unwrap();
    let late = healthy_observation(run.run_id, 42, deadline + 1);
    let boundary = healthy_observation(run.run_id, 42, deadline);
    assert!(!monitor.accepts(&late));
    assert!(monitor.accepts(&boundary));
    monitor.apply_probe_observation(&boundary, &healthy());
    let became_ready = monitor.acknowledge(&boundary, &healthy(), true);
    assert!(became_ready);
    assert!(!monitor.initial_deadline_passed(became_ready).cancel);
    assert!(monitor.ever_ready);
    assert!(monitor.current.is_some_and(|run| run.ready));
    assert!(matches!(monitor.status.state, InstanceState::Running { pid: 42 }));
}

#[test]
fn start_confirms_via_version_probe() {
    let mut instance = spawned(CoreKind::Mihomo, None);
    assert_eq!(instance.state().state, InstanceState::Starting);
    assert_eq!(instance.wait_ready(true), None);
    assert_eq!(instance.pid(), None);
    make_ready(&mut instance, 42, 2_000);
    assert_eq!(instance.wait_ready(true), Some(Ok(())));
    assert_eq!(instance.pid(), Some(42));
    assert_eq!(instance.epoch(), 4);
    assert_eq!(instance.spec().core.kind, CoreKind::Mihomo);
    assert_eq!(instance.controller(), &controller());
}

#[test]
fn startup_timeout_kills_the_core() {
    let mut instance = spawned(CoreKind::Mihomo, None);
    instance.monitor.supervisor_event(SupervisorEvent::Started { pid: 42 }, 2_000, 6);
    assert!(instance.monitor.awaits_initial_deadline());
    let reaction = instance.monitor.initial_deadline_passed(false);
    assert!(reaction.cancel && reaction.stop_driver);
    assert!(!instance.monitor.awaits_initial_deadline());
    instance.monitor.supervisor_event(SupervisorEvent::Stopped, 3_000, 7);
    assert!(instance.is_explained());
    assert!(matches!(instance.wait_ready(true), Some(Err(Error::StartupTimeout { .. }))));
}

#[test]
fn immediate_exit_reports_stderr_tail() {
    let mut instance = spawned(CoreKind::Mihomo, None);
    instance.monitor.stderr_line("boot marker failure".to_owned());
    let exit = Exit { code: Some(1), description: "exit 1".to_owned() };
    instance.monitor.supervisor_event(SupervisorEvent::Exited(exit), 2_000, 6);
    instance.monitor.supervisor_event(SupervisorEvent::GaveUp, 2_000, 6);
    match instance.wait_ready(true) {
        Some(Err(Error::StartupFailed { stderr_tail })) => {
            assert!(stderr_tail.contains("boot marker failure"), "tail: {stderr_tail}")
        }
        other => panic!("unexpected result: {other:?}"),
    }
}

#[test]
fn crash_recovers_through_restart_and_reprobe() {
    let mut instance = spawned(CoreKind::Mihomo, None);
    make_ready(&mut instance, 42, 2_000);
    instance.monitor.supervisor_event(SupervisorEvent::Restarting { attempt: 1 }, 3_000, 8);
    assert_eq!(instance.state().state, InstanceState::Restarting { attempt: 1 });
    make_ready(&mut instance, 43, 4_000);
    assert_eq!(instance.state().state, InstanceState::Running { pid: 43 });
}

#[test]
fn crash_loop_exhausts_the_budget() {
    let mut instance = spawned(CoreKind::Mihomo, None);
    make_ready(&mut instance, 42, 2_000);
    let reaction = instance.monitor.supervisor_event(SupervisorEvent::GaveUp, 3_000, 8);
    assert!(reaction.finished && reaction.publish);
    assert!(matches!(
        &instance.state().state,
        InstanceState::Stopped(StopReason::Error(msg)) if msg.contains("restart budget exhausted")
    ));
}

#[test]
fn user_stop_is_terminal_and_releases_the_port() {
    let mut instance = spawned(CoreKind::Mihomo, None);
    make_ready(&mut instance, 42, 2_000);
    let step = match instance.stop() {
        Halt::Continue(step) => step,
        other => panic!("unexpected halt: {other:?}"),
    };
    assert_eq!(step.work(), HaltWork::StopSupervisor { timeout_ms: 10_000 });
    assert_eq!(instance.state().state, InstanceState::Stopping);
    assert_eq!(instance.state().health, None);
    instance.monitor.supervisor_event(SupervisorEvent::Stopped, 3_000, 8);
    assert_eq!(instance.state().state, InstanceState::Stopped(StopReason::User));
    let step = match advance(step, HaltReport::SupervisorStopped(SupervisorStop::Stopped)) {
        Halt::Continue(step) => step,
        other => panic!("unexpected halt: {other:?}"),
    };
    assert_eq!(
        advance(step, HaltReport::MonitorJoined { confirmed: true, terminal: true }),
        Halt::Dead { publish_stopped: false }
    );
}

#[test]
fn a_core_nobody_monitors_has_failed() {
    let mut instance = spawned(CoreKind::Mihomo, None);
    instance.monitor.stderr_line("one".to_owned());
    instance.monitor.stderr_line("two".to_owned());
    assert_eq!(
        instance.wait_ready(false),
        Some(Err(Error::StartupFailed { stderr_tail: "one\ntwo".to_owned() }))
    );
}

#[test]
fn a_respawn_has_a_deadline_of_its_own() {
    let mut instance = spawned(CoreKind::Mihomo, None);
    make_ready(&mut instance, 42, 2_000);
    instance.monitor.supervisor_event(SupervisorEvent::Started { pid: 43 }, 5_000, 8);
    let deadline = 5_000 + 30_000_000_000;
    assert_eq!(instance.monitor.respawn_deadline, Some(deadline));
    let run = instance.monitor.current.unwrap();
    assert!(!instance.monitor.accepts(&healthy_observation(run.run_id, 43, deadline + 1)));
    assert!(instance.monitor.accepts(&healthy_observation(run.run_id, 43, deadline)));
    assert!(instance.monitor.respawn_deadline_passed(false).cancel);
    assert!(instance.monitor.probe_timeout);
}

#[test]
fn each_run_is_acknowledged_once() {
    let mut instance = spawned(CoreKind::Mihomo, None);
    make_ready(&mut instance, 42, 2_000);
    let run = instance.monitor.current.unwrap();
    let again = healthy_observation(run.run_id, 42, 3_000);
    assert_eq!(
        instance.monitor.apply_probe_observation(&again, &healthy()),
        ObservationStep::Publish
    );
    let health = instance.state().health.as_ref().unwrap();
    assert_eq!(health.state, HealthState::Healthy);
    assert_eq!(health.last_success_at, Some(77));
}

#[test]
fn only_the_last_error_lines_are_kept() {
    let mut monitor = Monitor::new(10, 10, 0);
    for line in 0..40 {
        monitor.stderr_line(format!("line {line}"));
    }
    assert_eq!(monitor.tail.len(), STDERR_TAIL_LINES);
    assert_eq!(monitor.tail.first().map(String::as_str), Some("line 8"));
    assert!(monitor.tail_text().ends_with("line 38\nline 39"));
}

#[test]
fn a_clean_exit_is_no_error() {
    let mut monitor = Monitor::new(10, 10, 0);
    let exit = Exit { code: Some(0), description: "exit 0".to_owned() };
    monitor.supervisor_event(SupervisorEvent::Exited(exit), 1, 1);
    monitor.supervisor_event(SupervisorEvent::Closed, 1, 1);
    assert_eq!(monitor.status.state, InstanceState::Stopped(StopReason::Finished));
    let mut monitor = Monitor::new(10, 10, 0);
    let exit = Exit { code: Some(2), description: "exit 2".to_owned() };
    monitor.supervisor_event(SupervisorEvent::Exited(exit), 1, 1);
    monitor.supervisor_event(SupervisorEvent::Stopped, 1, 1);
    assert_eq!(
        monitor.status.state,
        InstanceState::Stopped(StopReason::Error(
            "core exited unexpectedly (Some(exit 2))\n".to_owned()
        ))
    );
}

#[test]
fn cancelled_probes_start_no_more() {
    let mut monitor = Monitor::new(10, 10, 0);
    assert!(monitor.probes_cancelled().stop_driver);
    let reaction = monitor.supervisor_event(SupervisorEvent::Started { pid: 1 }, 1, 1);
    assert_eq!(reaction.start_driver, None);
}

#[test]
fn only_reconciliation_is_probed_on_request() {
    assert_eq!(refuse_probe(ProbePhase::Reconcile), None);
    assert!(refuse_probe(ProbePhase::Liveness).is_some());
    assert_eq!(probe_now(ProbeReply::Answered(ProbeResult::Healthy)), ProbeResult::Healthy);
    assert!(!probe_now(ProbeReply::Dropped).is_healthy());
    assert!(!probe_now(ProbeReply::NotRunning).is_healthy());
    let mut instance = spawned(CoreKind::Mihomo, None);
    assert!(matches!(instance.monitor.probe_request(true), RequestStep::Answer(_)));
    make_ready(&mut instance, 42, 2_000);
    assert_eq!(instance.monitor.probe_request(true), RequestStep::Reconcile);
    assert!(matches!(instance.monitor.probe_request(false), RequestStep::Answer(_)));
}

#[test]
fn spawning_needs_a_config_a_binary_and_a_profile() {
    let build = |kind| InstanceBuilder::<u8>::new(spec_of(kind, None), 4, controller());
    assert_eq!(
        build(CoreKind::Mihomo).plan(false, true, 0, 0).err(),
        Some(Error::ConfigNotFound("/run/config-4.yaml".to_owned()))
    );
    assert_eq!(
        build(CoreKind::Mihomo).plan(true, false, 0, 0).err(),
        Some(Error::BinaryNotFound("/bin/core".to_owned()))
    );
    assert_eq!(
        build(CoreKind::Meow).plan(true, true, 0, 0).err(),
        Some(Error::UnsupportedCore(CoreKind::Meow))
    );
    let plan = build(CoreKind::Mihomo)
        .readiness_probe(1)
        .liveness_with_readiness_probe()
        .plan(true, true, 5, 0)
        .unwrap();
    assert_eq!(plan.readiness_probe, Some(1));
    assert_eq!(plan.liveness, Liveness::Readiness);
    assert_eq!(plan.initial_deadline, 30_000_000_005);
    let plan = build(CoreKind::Mihomo).liveness_probe(2).plan(true, true, 0, 0).unwrap();
    assert_eq!(plan.liveness, Liveness::Own(2));
}

#[test]
fn commands_carry_the_record_of_their_epoch() {
    let spec = spec_of(CoreKind::Mihomo, Some("/run/core-4.pid"));
    assert_eq!(epoch_pid_path(&spec, 4).as_deref(), Some("/run/core-4.pid"));
    assert_eq!(epoch_pid_path(&spec, 5), None);
    let command = build_command(&spec, 4, Platform::Unix);
    assert_eq!(command.program, "/bin/core");
    assert_eq!(command.args, ["-m", "-d", "/data", "-f", "/run/config-4.yaml"]);
    assert_eq!(command.safe_paths, "/data:/run");
    assert_eq!(command.current_dir, "/data");
    assert_eq!(command.pid_record, PidRecord::Epoch("/run/core-4.pid".to_owned()));
    let command = build_command(&spec, 5, Platform::Unix);
    assert_eq!(command.pid_record, PidRecord::Plain("/run/core-4.pid".to_owned()));
    let bare = spec_of(CoreKind::Mihomo, None);
    assert_eq!(build_command_in(&bare, Platform::Windows, "/c", false).safe_paths, "/data;/c");
    assert_eq!(build_command(&bare, 4, Platform::Unix).pid_record, PidRecord::Absent);
    let name = |text: &str| Some(text.to_owned());
    assert!(is_epoch_record(&name("core-4.pid"), &name("config-4.yaml"), true, 4));
    assert!(!is_epoch_record(&name("core-4.pid"), &name("config-4.yaml"), false, 4));
    assert!(!is_epoch_record(&name("core-4.pid"), &name("config-5.yaml"), true, 4));
}

fn record() -> EpochRecord {
    EpochRecord {
        pid_file: "/run/core-4.pid".to_owned(),
        runtime_dir: Some("/run".to_owned()),
    }
}

#[test]
fn an_ended_instance_is_dead_once_its_record_is_settled() {
    let halt = stop_and_confirm_dead(true, Some(record()), 10);
    let step = match halt {
        Halt::Continue(step) => step,
        other => panic!("unexpected halt: {other:?}"),
    };
    assert_eq!(step.work(), HaltWork::FindRecord { pid_file: "/run/core-4.pid" });
    assert_eq!(
        advance(step, HaltReport::RecordFound(Ok(false))),
        Halt::Dead { publish_stopped: false }
    );
    assert_eq!(stop_and_confirm_dead(true, None, 10), Halt::Dead { publish_stopped: false });
    let failed = advance(
        HaltStep::VerifyRecord {
            pid_file: "/run/core-4.pid".to_owned(),
            runtime_dir: "/run".to_owned(),
            stopped: true,
        },
        HaltReport::Reaped(Err(Error::Io("denied".to_owned()))),
    );
    match failed {
        Halt::Unknown(Error::StopUnconfirmed(detail)) => {
            assert!(detail.starts_with("stopped instance identity verification failed: "))
        }
        other => panic!("unexpected halt: {other:?}"),
    }
}

#[test]
fn an_uncertain_stop_is_settled_by_the_record_alone() {
    let step = HaltStep::StopSupervisor { record: Some(record()), timeout_ms: 1500 };
    let step = match advance(step, HaltReport::SupervisorStopped(SupervisorStop::TimedOut)) {
        Halt::Continue(step) => step,
        other => panic!("unexpected halt: {other:?}"),
    };
    let joined = advance(step, HaltReport::MonitorJoined { confirmed: false, terminal: false });
    let step = match joined {
        Halt::Continue(HaltStep::ReapRecord { pid_file, runtime_dir, failure, terminal }) => {
            assert_eq!(failure, "supervisor stop exceeded 1.5s");
            HaltStep::ReapRecord { pid_file, runtime_dir, failure, terminal }
        }
        other => panic!("unexpected halt: {other:?}"),
    };
    assert_eq!(
        step.work(),
        HaltWork::Reap { pid_file: "/run/core-4.pid", runtime_dir: "/run" }
    );
    assert_eq!(
        advance(step, HaltReport::Reaped(Ok(ReapOutcome::Killed))),
        Halt::Dead { publish_stopped: true }
    );
    let lost = HaltStep::ReapRecord {
        pid_file: "/run/core-4.pid".to_owned(),
        runtime_dir: "/run".to_owned(),
        failure: "x".to_owned(),
        terminal: false,
    };
    assert_eq!(
        advance(lost, HaltReport::Reaped(Ok(ReapOutcome::NotFound))),
        Halt::Unknown(Error::StopUnconfirmed("x".to_owned()))
    );
    let mut instance = spawned(CoreKind::Mihomo, Some("/run/core-4.pid"));
    assert_eq!(instance.record(), Some(record()));
    instance.halted(true);
    assert_eq!(instance.state().state, InstanceState::Stopped(StopReason::User));
}

fn derived() -> DerivedRuntime {
    DerivedRuntime {
        controller: controller(),
        source_hash: "s".to_owned(),
        effective_hash: "e".to_owned(),
        source_document: Arc::new(Mapping::new()),
        effective_document: Arc::new(Mapping::new()),
    }
}

fn next_of(prepared: Prepared) -> PrepareStep {
    match prepared {
        Prepared::Continue(step) => step,
        Prepared::Finished(result) => panic!("unexpected end: {result:?}"),
    }
}

#[test]
fn a_launch_is_checked_before_it_is_committed() {
    let spec = spec_of(CoreKind::Mihomo, None);
    let (preparation, step) =
        Preparation::prepare_launch(spec.clone(), 4, "/run/core-4.pid".to_owned());
    let step = next_of(preparation.advance(step, PrepareReport::BinaryFound(true)));
    let step = next_of(preparation.advance(step, PrepareReport::Derived(Ok(derived()))));
    assert_eq!(preparation.work(&step), PrepareWork::Stage);
    let staged = "/run/.config-4.yaml.tmp-1-2".to_owned();
    let step = next_of(preparation.advance(step, PrepareReport::Staged(Ok(staged.clone()))));
    assert_eq!(preparation.work(&step), PrepareWork::Check { config_path: &staged });
    assert_eq!(preparation.check_spec(&staged).config_path, staged);
    assert_eq!(preparation.check_spec(&staged).core, preparation.spec.core);
    let step = next_of(preparation.advance(step, PrepareReport::Checked(Ok(()))));
    assert_eq!(preparation.work(&step), PrepareWork::Commit { staged: &staged });
    let committed = PrepareReport::Committed(Ok("/run/config-4.yaml".to_owned()));
    match preparation.advance(step, committed) {
        Prepared::Finished(Ok(launch)) => {
            assert_eq!((launch.revision.epoch, launch.revision.generation), (4, 1));
            assert_eq!(launch.revision.effective_hash, "e");
            assert_eq!(launch.effective_spec.config_path, "/run/config-4.yaml");
            assert_eq!(launch.effective_spec.pid_file.as_deref(), Some("/run/core-4.pid"));
            assert_eq!(launch.effective_spec.core.features, ["f"]);
        }
        other => panic!("unexpected end: {other:?}"),
    }
}

#[test]
fn a_bootstrap_keeps_the_controller() {
    let spec = spec_of(CoreKind::Mihomo, None);
    let (preparation, _) = Preparation::prepare_graceful(spec, 4, "/run/core-4.pid".to_owned());
    let other = ResolvedController { host: Host::UnixSocket("/other".to_owned()), secret: None };
    let step = PrepareStep::DeriveBootstrap { full: derived() };
    let refused = preparation.advance(step, PrepareReport::BootstrapDerived(Ok(other)));
    assert!(matches!(refused, Prepared::Finished(Err(Error::InvalidConfig(_)))));
    let step = PrepareStep::DeriveBootstrap { full: derived() };
    let step = next_of(preparation.advance(step, PrepareReport::BootstrapDerived(Ok(controller()))));
    assert!(matches!(step, PrepareStep::Compare { .. }));
}

#[test]
fn a_missing_binary_ends_a_preparation() {
    let spec = spec_of(CoreKind::Mihomo, None);
    let (preparation, step) = Preparation::prepare_launch(spec, 4, "/p".to_owned());
    assert!(matches!(
        preparation.advance(step, PrepareReport::BinaryFound(false)),
        Prepared::Finished(Err(Error::BinaryNotFound(_)))
    ));
}

#[test]
fn only_a_healthy_probe_settles_a_change() {
    let step = |from, report| reconcile::advance(from, report);
    assert_eq!(
        reconcile::reconcile_in_place(ConfigChange::Patch),
        Reconcile::Continue(ReconcileStep::PatchClient)
    );
    assert_eq!(
        step(ReconcileStep::PatchClient, ReconcileReport::ClientBuilt { ok: true }),
        Reconcile::Continue(ReconcileStep::Patch)
    );
    assert_eq!(
        step(ReconcileStep::Patch, ReconcileReport::PatchSent { ok: false }),
        Reconcile::Continue(ReconcileStep::Verify)
    );
    assert_eq!(
        step(ReconcileStep::Verify, ReconcileReport::Compared { ok: false }),
        Reconcile::Finished(false)
    );
    assert_eq!(
        step(ReconcileStep::Probe, ReconcileReport::Probed { healthy: true }),
        Reconcile::Finished(true)
    );
    assert_eq!(reconcile::reconcile_in_place(ConfigChange::Switch), Reconcile::Finished(false));
    assert_eq!(
        reconcile::reconcile_bootstrap(false),
        Reconcile::Continue(ReconcileStep::Probe)
    );
}

#[test]
fn a_record_stands_beside_the_config_of_its_epoch() {
    for pid_file in ["/var/core-4.pid", "/run/inner/core-4.pid", "core-4.pid", "/run/core-40.pid"] {
        let spec = spec_of(CoreKind::Mihomo, Some(pid_file));
        assert_eq!(epoch_pid_path(&spec, 4), None);
        let command = build_command(&spec, 4, Platform::Unix);
        assert_eq!(command.pid_record, PidRecord::Plain(pid_file.to_owned()));
    }
    assert_eq!(spawned(CoreKind::Mihomo, Some("/var/core-4.pid")).record(), None);
}

#[test]
fn a_config_is_checked_where_it_stands() {
    let spec = spec_of(CoreKind::Mihomo, None);
    let command = check_command(&spec, Platform::Unix).unwrap();
    assert_eq!(command.program, "/bin/core");
    assert_eq!(command.args, ["-t", "-d", "/data", "-f", "/run/config-4.yaml"]);
    assert_eq!(command.safe_paths, "/data:/run");
    assert_eq!(check_command(&spec, Platform::Windows).unwrap().safe_paths, "/data;/run");
    assert_eq!(
        check_command_in(&spec, Platform::Unix, None),
        Err(Error::ConfigNotFound("/run/config-4.yaml".to_owned()))
    );
    assert_eq!(
        check_command(&spec_of(CoreKind::Meow, None), Platform::Unix),
        Err(Error::UnsupportedCore(CoreKind::Meow))
    );
}

#[test]
fn the_next_generation_keeps_its_epoch_and_its_place() {
    let revision = ConfigRevision {
        epoch: 4,
        generation: 6,
        source_hash: "a".to_owned(),
        effective_hash: "b".to_owned(),
        runtime_path: "/run/config-4.yaml".to_owned(),
    };
    let spec = spec_of(CoreKind::Mihomo, None);
    let (preparation, _) =
        Preparation::prepare_apply(spec, &revision, "/run/core-4.pid".to_owned());
    let step = PrepareStep::Check { full: derived(), staged: "/run/.config-4".to_owned() };
    match preparation.advance(step, PrepareReport::Checked(Ok(()))) {
        Prepared::Finished(Ok(launch)) => {
            assert_eq!((launch.revision.epoch, launch.revision.generation), (4, 7));
            assert_eq!(launch.revision.runtime_path, "/run/config-4.yaml");
        }
        other => panic!("unexpected end: {other:?}"),
    }
}

#[test]
fn local_controllers_are_compared_as_paths() {
    let spec = spec_of(CoreKind::Mihomo, None);
    let (preparation, _) = Preparation::prepare_graceful(spec, 4, "/run/core-4.pid".to_owned());
    let at = |path: &str| ResolvedController {
        host: Host::UnixSocket(path.to_owned()),
        secret: None,
    };
    for (path, same) in
        [("/run/x.sock", true), ("/run//x.sock", true), ("/run/./x.sock", true), ("run/x.sock", false)]
    {
        let full = DerivedRuntime { controller: at("/run/x.sock"), ..derived() };
        let step = PrepareStep::DeriveBootstrap { full };
        let next = preparation.advance(step, PrepareReport::BootstrapDerived(Ok(at(path))));
        assert_eq!(matches!(next, Prepared::Continue(PrepareStep::Compare { .. })), same, "{path}");
    }
}

#[test]
fn durations_are_shown_as_usual() {
    assert_eq!(show_duration(0), "0ns");
    assert_eq!(show_duration(250), "250ms");
    assert_eq!(show_duration(1500), "1.5s");
    assert_eq!(show_duration(10_000), "10s");
    let large = [60_050, 123_456_789, u64::MAX - 1, u64::MAX];
    for millis in (0..4100u64).chain(large) {
        assert_eq!(show_duration(millis), format!("{:?}", Duration::from_millis(millis)));
    }
}
