use nyanpasu_service::error::Error;
use nyanpasu_service::ipc;
use nyanpasu_service::ipc::events::{CoreLogLevel, CoreLogStream};
use nyanpasu_service::ipc::{ClashCoreType, CoreType};
use nyanpasu_service::kind::CoreKind;
use nyanpasu_service::manager::{Outcome, SwitchOutcome};
use nyanpasu_service::service::{
    config_path, core_kind, find_binary_path, forward_log, instance_spec, map_core_state,
    same_ipc_state, BinaryCandidate, ConfigLookup, CoreManagerService, ServiceError, StateBridge,
    MSG_CORE_ALREADY_RUNNING, MSG_CORE_ALREADY_STOPPED, MSG_CORE_NOT_STARTED,
};
use nyanpasu_service::spec::{ControllerMode, InstanceOptions};
use nyanpasu_service::state::{CoreState, CoreStatus, SpecSummary, StopReason};

fn simulate(states: &[CoreState]) -> Vec<String> {
    let mut bridge = StateBridge { last: ipc::CoreState::Stopped(None) };
    let mut emitted = Vec::new();
    for raw in states {
        if let Some(next) = bridge.forward(raw) {
            emitted.push(format!("{next:?}"));
        }
    }
    emitted
}

#[test]
fn manager_states_map_onto_the_wire_states() {
    let shown = |state: CoreState| format!("{:?}", map_core_state(&state));
    assert_eq!(shown(CoreState::Stopped { reason: None }), "Stopped(None)");
    assert_eq!(shown(CoreState::Starting { epoch: 1 }), "Stopped(None)");
    assert_eq!(shown(CoreState::Running { epoch: 1, pid: 42 }), "Running");
    assert_eq!(shown(CoreState::Restarting { epoch: 1, attempt: 2 }), "Stopped(None)");
    assert_eq!(shown(CoreState::Switching { from: Some(1), to: 2 }), "Running");
    assert_eq!(shown(CoreState::Stopping { epoch: 2 }), "Running");
    assert_eq!(
        shown(CoreState::Stopped { reason: Some(StopReason::Finished) }),
        r#"Stopped(Some("core exited"))"#
    );
    assert_eq!(
        shown(CoreState::Stopped { reason: Some(StopReason::User) }),
        r#"Stopped(Some("stopped by user"))"#
    );
    assert_eq!(
        shown(CoreState::Stopped { reason: Some(StopReason::Error("boom".to_owned())) }),
        r#"Stopped(Some("boom"))"#
    );
}

#[test]
fn core_types_map_onto_manager_kinds() {
    let cases = [
        (ClashCoreType::Mihomo, CoreKind::Mihomo),
        (ClashCoreType::MihomoAlpha, CoreKind::Mihomo),
        (ClashCoreType::ClashRust, CoreKind::ClashRust),
        (ClashCoreType::ClashRustAlpha, CoreKind::ClashRust),
        (ClashCoreType::ClashPremium, CoreKind::ClashPremium),
        (ClashCoreType::Meow, CoreKind::Meow),
    ];
    for (core_type, expected) in cases {
        assert_eq!(core_kind(&CoreType::Clash(core_type)).unwrap(), expected);
    }
    assert!(core_kind(&CoreType::SingBox).is_err());
}

#[test]
fn the_state_bridge_forwards_only_real_transitions() {
    let states = [
        CoreState::Starting { epoch: 1 },
        CoreState::Running { epoch: 1, pid: 42 },
        CoreState::Switching { from: Some(1), to: 2 },
        CoreState::Stopping { epoch: 2 },
        CoreState::Running { epoch: 2, pid: 43 },
        CoreState::Stopped { reason: Some(StopReason::User) },
        CoreState::Stopped { reason: Some(StopReason::Error("boom".to_owned())) },
    ];
    assert_eq!(
        simulate(&states),
        ["Running", r#"Stopped(Some("stopped by user"))"#, r#"Stopped(Some("boom"))"#]
    );
}

#[test]
fn terminal_stop_is_not_resurrected_by_shutdown() {
    let states = [
        CoreState::Running { epoch: 1, pid: 42 },
        CoreState::Stopped { reason: Some(StopReason::Error("boom".to_owned())) },
        CoreState::Stopping { epoch: 1 },
        CoreState::Stopped { reason: Some(StopReason::User) },
    ];
    assert_eq!(
        simulate(&states),
        ["Running", r#"Stopped(Some("boom"))"#, r#"Stopped(Some("stopped by user"))"#]
    );
}

#[test]
fn the_legacy_core_error_strings_are_protocol() {
    assert_eq!(MSG_CORE_ALREADY_RUNNING, "core is already running");
    assert_eq!(MSG_CORE_ALREADY_STOPPED, "core is already stopped");
    assert_eq!(MSG_CORE_NOT_STARTED, "core have not been started yet");
}

#[test]
fn states_are_compared_by_their_reasons() {
    let stopped = |reason: &str| ipc::CoreState::Stopped(Some(reason.to_owned()));
    assert!(same_ipc_state(&ipc::CoreState::Running, &ipc::CoreState::Running));
    assert!(same_ipc_state(&stopped("a"), &stopped("a")));
    assert!(!same_ipc_state(&stopped("a"), &stopped("b")));
    assert!(!same_ipc_state(&stopped("a"), &ipc::CoreState::Stopped(None)));
    assert!(!same_ipc_state(&ipc::CoreState::Running, &ipc::CoreState::Stopped(None)));
    assert!(same_ipc_state(&ipc::CoreState::default(), &ipc::CoreState::Stopped(None)));
}

#[test]
fn a_bridge_starts_at_the_current_state() {
    let mut bridge = StateBridge::new(&CoreState::Running { epoch: 1, pid: 2 });
    assert_eq!(bridge.forward(&CoreState::Stopping { epoch: 1 }), None);
    assert_eq!(
        bridge.forward(&CoreState::Stopped { reason: None }),
        Some(ipc::CoreState::Stopped(None))
    );
}

#[test]
fn a_service_that_shuts_down_refuses_everything() {
    let mut service = CoreManagerService::new();
    assert_eq!(service.accept(), Ok(()));
    assert!(service.shutdown());
    assert!(!service.shutdown());
    assert_eq!(service.accept(), Err(ServiceError::ShuttingDown));
    let config = ConfigLookup::Found("/c.yaml".to_owned());
    let refused = service.start(config, &CoreState::Stopped { reason: None }).unwrap_err();
    assert_eq!(refused.message(), "service is shutting down");
}

#[test]
fn a_start_needs_a_config_and_a_stopped_core() {
    let mut service = CoreManagerService::new();
    let stopped = CoreState::Stopped { reason: None };
    assert_eq!(
        service.start(ConfigLookup::Found("/c.yaml".to_owned()), &stopped),
        Ok("/c.yaml".to_owned())
    );
    assert_eq!(
        service.start(ConfigLookup::Failed("no file".to_owned()), &stopped).unwrap_err().message(),
        "no file"
    );
    assert_eq!(
        service
            .start(ConfigLookup::Found("/c.yaml".to_owned()), &CoreState::Starting { epoch: 1 })
            .unwrap_err()
            .message(),
        "core is already running"
    );
    let core_type = CoreType::Clash(ClashCoreType::MihomoAlpha);
    let failed = service.started(core_type, Err(Error::ControllerMissing)).unwrap_err();
    assert_eq!(failed, ServiceError::Manager(Error::ControllerMissing));
    assert_eq!(service.requested_core, None);
    service.started(core_type, Ok(Outcome::Started)).unwrap();
    assert_eq!(service.requested_core, Some(core_type));
}

#[test]
fn stopping_and_restarting_an_idle_core_keep_their_messages() {
    let stop = CoreManagerService::stop(Err(Error::NotStarted)).unwrap_err();
    assert_eq!(stop.message(), "core is already stopped");
    let restart = CoreManagerService::restart(Err(Error::NotStarted)).unwrap_err();
    assert_eq!(restart.message(), "core have not been started yet");
    assert_eq!(CoreManagerService::stop(Ok(Outcome::Stopped)), Ok(()));
    assert_eq!(CoreManagerService::restart(Ok(Outcome::Switched(SwitchOutcome::Graceful))), Ok(()));
    let other = CoreManagerService::stop(Err(Error::AlreadyRunning)).unwrap_err();
    assert_eq!(other, ServiceError::Manager(Error::AlreadyRunning));
}

#[test]
fn the_status_echoes_the_requested_core() {
    let mut status = CoreStatus::initial(42);
    let service = CoreManagerService::new();
    let infos = service.status(&status);
    assert_eq!(infos.core_type, None);
    assert_eq!(infos.state, ipc::CoreState::Stopped(None));
    assert_eq!(infos.state_changed_at, 42);
    assert_eq!(infos.config_path, None);
    status.state = CoreState::Running { epoch: 1, pid: 2 };
    status.spec =
        Some(SpecSummary { kind: CoreKind::Mihomo, config_path: "/c.yaml".to_owned() });
    let service = CoreManagerService { closing: false, requested_core: Some(CoreType::SingBox) };
    let infos = service.status(&status);
    assert_eq!(infos.core_type, Some(CoreType::SingBox));
    assert_eq!(infos.state, ipc::CoreState::Running);
    assert_eq!(infos.config_path.as_deref(), Some("/c.yaml"));
}

fn candidate(path: &str, exists: bool) -> BinaryCandidate {
    BinaryCandidate { path: Ok(path.to_owned()), exists }
}

#[test]
fn the_data_directory_comes_before_the_program() {
    let found = find_binary_path("mihomo", candidate("/data/mihomo", true), candidate("/app/mihomo", true));
    assert_eq!(found, Ok(candidate("/data/mihomo", true)));
    let found = find_binary_path("mihomo", candidate("/data/mihomo", false), candidate("/app/mihomo", true));
    assert_eq!(found, Ok(candidate("/app/mihomo", true)));
    let missing = find_binary_path("mihomo", candidate("/a", false), candidate("/b", false));
    assert_eq!(missing.unwrap_err().message(), "mihomo not found");
}

#[test]
fn a_spec_is_made_from_the_request() {
    let core_type = CoreType::Clash(ClashCoreType::ClashRustAlpha);
    let spec = instance_spec(
        Ok("/data".to_owned()),
        Ok(candidate("/data/clash-rs", true)),
        &core_type,
        "/c.yaml".to_owned(),
    )
    .unwrap();
    assert_eq!(spec.core.kind, CoreKind::ClashRust);
    assert_eq!(spec.core.binary_path, "/data/clash-rs");
    assert_eq!(spec.working_dir, "/data");
    assert_eq!(spec.config_path, "/c.yaml");
    assert_eq!(spec.pid_file, None);
    assert_eq!(spec.options, InstanceOptions::default());
    let bad_dir = instance_spec(
        Err("/d?".to_owned()),
        Ok(candidate("/x", true)),
        &core_type,
        "/c.yaml".to_owned(),
    );
    assert_eq!(bad_dir.unwrap_err().message(), "nyanpasu data dir is not UTF-8: /d?");
    let bad_binary = instance_spec(
        Ok("/data".to_owned()),
        Ok(BinaryCandidate { path: Err("/b?".to_owned()), exists: true }),
        &core_type,
        "/c.yaml".to_owned(),
    );
    assert_eq!(bad_binary.unwrap_err().message(), "core binary path is not UTF-8: /b?");
    let unsupported = instance_spec(
        Ok("/data".to_owned()),
        Ok(candidate("/x", true)),
        &CoreType::SingBox,
        "/c.yaml".to_owned(),
    );
    assert_eq!(unsupported.unwrap_err().message(), "sing-box is not a supported core");
}

#[test]
fn the_services_manager_passes_configs_through() {
    let options = CoreManagerService::manager_options("/run/core".to_owned());
    assert_eq!(options.controller_mode, ControllerMode::Passthrough);
    assert_eq!(options.runtime_dir.as_deref(), Some("/run/core"));
    assert_eq!(options.stop_timeout_ms, 10_000);
}

#[test]
fn error_output_is_louder() {
    assert_eq!(forward_log(CoreLogStream::Stdout), CoreLogLevel::Info);
    assert_eq!(forward_log(CoreLogStream::Stderr), CoreLogLevel::Error);
}

#[test]
fn canonical_config_paths_stay_usable() {
    assert_eq!(config_path("/etc/nyanpasu/config.yaml"), "/etc/nyanpasu/config.yaml");
    let verbatim = config_path(r"\\?\C:\data\config.yaml");
    assert!(verbatim.ends_with(r"C:\data\config.yaml"));
}
