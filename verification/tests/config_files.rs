use nyanpasu_service::config::{
    self, inspect, inspect_mapping, load, managed_endpoint_path, probe_address, resolve_controller,
    ConfigInfo, DeriveMode, RawController, RestorePlan,
};
use nyanpasu_service::error::Error;
use nyanpasu_service::host::Host;
use nyanpasu_service::platform::Platform;
use serde_yaml_ng::{Mapping, Value};

fn info_of(yaml: &str, platform: Platform) -> ConfigInfo {
    let doc: Mapping = serde_yaml_ng::from_str(yaml).unwrap();
    inspect_mapping(&doc, platform)
}

fn value_of(out: &Mapping, key: &str) -> Option<Value> {
    out.get(Value::String(key.to_owned())).cloned()
}

#[test]
fn extracts_http_controller_and_secret() {
    let info = info_of("external-controller: 127.0.0.1:9090\nsecret: s3cret\n", Platform::Unix);
    assert_eq!(info.controller, Some(RawController::Http("127.0.0.1:9090".into())));
    assert_eq!(info.secret.as_deref(), Some("s3cret"));
    assert!(!info.has_dns_listen);
}

#[test]
fn local_transport_takes_priority_over_http() {
    let info = info_of(
        "external-controller: 127.0.0.1:9090\nexternal-controller-pipe: \\\\.\\pipe\\x\n",
        Platform::Windows,
    );
    assert_eq!(info.controller, Some(RawController::Pipe(r"\\.\pipe\x".into())));
    let info = info_of(
        "external-controller: 127.0.0.1:9090\nexternal-controller-unix: /run/x.sock\n",
        Platform::Unix,
    );
    assert_eq!(info.controller, Some(RawController::Unix("/run/x.sock".into())));
}

#[test]
fn detects_dns_listen() {
    let info = info_of("dns:\n  listen: 0.0.0.0:53\n", Platform::Unix);
    assert!(info.has_dns_listen);
}

#[test]
fn missing_controller_is_a_strict_error() {
    let info = info_of("mixed-port: 7890\n", Platform::Unix);
    assert!(matches!(resolve_controller(&info), Err(Error::ControllerMissing)));
}

#[test]
fn wildcard_bind_addresses_probe_via_loopback() {
    assert_eq!(probe_address("0.0.0.0:9090"), "127.0.0.1:9090");
    assert_eq!(probe_address(":9090"), "127.0.0.1:9090");
    assert_eq!(probe_address("[::]:9090"), "127.0.0.1:9090");
    assert_eq!(probe_address("127.0.0.1:9090"), "127.0.0.1:9090");
}

#[test]
fn derive_zeroes_listeners_and_records_the_restore_plan() {
    let raw = "mixed-port: 7890\nsocks-port: 0\nexternal-controller: 127.0.0.1:9090\nsecret: sc\nmode: rule\ntun:\n  enable: true\n  stack: system\n";
    for platform in [Platform::Unix, Platform::Windows] {
        let derived = config::derive(raw, "/tmp/derived", &None, 7, DeriveMode::ZeroListeners, platform)
            .unwrap();
        assert_eq!(derived.path, "/tmp/derived/epoch-7.yaml");
        assert_eq!(derived.restore.mixed_port, Some(7890));
        assert_eq!(derived.restore.socks_port, None, "0 means disabled, and is not restored");
        assert!(derived.restore.tun_enabled);
        assert_eq!(derived.controller.secret.as_deref(), Some("sc"));
        let out: Mapping = serde_yaml_ng::from_str(&derived.contents).unwrap();
        assert_eq!(value_of(&out, "mixed-port"), Some(Value::from(0)));
        assert_eq!(value_of(&out, "mode"), Some(Value::from("rule")), "unrelated keys survive");
        assert_eq!(value_of(&out, "external-controller"), None, "HTTP controller stripped");
        let tun = value_of(&out, "tun").unwrap();
        assert_eq!(
            tun.as_mapping().unwrap().get(Value::String("enable".into())),
            Some(&Value::from(false))
        );
        assert_eq!(
            tun.as_mapping().unwrap().get(Value::String("stack".into())),
            Some(&Value::from("system"))
        );
        let key = match platform {
            Platform::Windows => "external-controller-pipe",
            Platform::Unix => "external-controller-unix",
        };
        assert!(value_of(&out, key).is_some());
    }
}

#[test]
fn derive_controller_only_keeps_listeners() {
    let derived = config::derive(
        "mixed-port: 7890\n",
        "/tmp/derived",
        &None,
        3,
        DeriveMode::ControllerOnly,
        Platform::Unix,
    )
    .unwrap();
    assert!(derived.restore.is_empty());
    assert_eq!(derived.path, "/tmp/derived/epoch-3.yaml");
    let out: Mapping = serde_yaml_ng::from_str(&derived.contents).unwrap();
    assert_eq!(out.get(Value::String("mixed-port".into())), Some(&Value::from(7890)));
}

#[test]
fn endpoint_template_substitutes_epoch() {
    for platform in [Platform::Unix, Platform::Windows] {
        assert_eq!(
            managed_endpoint_path(platform, "/tmp/x", &Some(r"\\.\pipe\ny-{epoch}".to_owned()), 42),
            r"\\.\pipe\ny-42"
        );
        let default_path = managed_endpoint_path(platform, "/tmp/x", &None, 42);
        assert!(default_path.contains("42"), "got {default_path}");
        if platform == Platform::Unix {
            assert_eq!(default_path, "/tmp/x/core-42.sock");
        }
    }
}

#[test]
fn restore_plan_maps_to_config_patch() {
    let plan = RestorePlan { mixed_port: Some(7890), tun_enabled: true, ..Default::default() };
    let patch = plan.to_patch();
    assert_eq!(patch.mixed_port, Some(7890));
    assert_eq!(patch.tun.as_ref().map(|t| t.enable), Some(true));
    assert_eq!(patch.port, None);
}

#[test]
fn every_mark_in_a_template_is_replaced() {
    let template = Some("{epoch}/core-{epoch}{epoch}.sock".to_owned());
    assert_eq!(managed_endpoint_path(Platform::Unix, "/tmp", &template, 9), "9/core-99.sock");
    let plain = Some("/run/fixed.sock".to_owned());
    assert_eq!(managed_endpoint_path(Platform::Unix, "/tmp", &plain, 9), "/run/fixed.sock");
}

#[test]
fn default_endpoints_depend_on_the_platform() {
    assert_eq!(
        managed_endpoint_path(Platform::Windows, "/tmp/x", &None, 42),
        r"\\.\pipe\nyanpasu\core-42"
    );
    assert_eq!(
        managed_endpoint_path(Platform::Unix, "/tmp/x", &None, 42),
        "/tmp/x/core-42.sock"
    );
    assert_eq!(managed_endpoint_path(Platform::Unix, "/tmp/", &None, 42), "/tmp/core-42.sock");
    assert_eq!(managed_endpoint_path(Platform::Unix, "", &None, 42), "core-42.sock");
}

#[test]
fn probing_a_probed_address_changes_nothing() {
    for address in ["0.0.0.0:9090", ":9090", "[::]:9090", "localhost:80", "plain", ""] {
        let once = probe_address(address);
        assert_eq!(probe_address(&once), once, "{address}");
    }
}

#[test]
fn the_other_platforms_local_controller_is_no_controller() {
    let info = info_of("external-controller-unix: /run/x.sock\n", Platform::Windows);
    assert_eq!(info.controller, None);
}

#[test]
fn controllers_resolve_to_hosts() {
    let info = inspect("external-controller: 0.0.0.0:9090\nsecret: s\n", Platform::Unix).unwrap();
    let controller = resolve_controller(&info).unwrap();
    assert_eq!(controller.secret.as_deref(), Some("s"));
    match controller.host {
        Host::Http(url) => assert_eq!(url.text, "http://127.0.0.1:9090/"),
        other => panic!("unexpected host: {other:?}"),
    }
    let info = inspect("external-controller-unix: /run/x.sock\n", Platform::Unix).unwrap();
    assert_eq!(resolve_controller(&info).unwrap().host, Host::UnixSocket("/run/x.sock".to_owned()));
}

#[test]
fn a_config_that_is_no_mapping_is_an_error() {
    assert!(matches!(inspect("- a\n- b\n", Platform::Unix), Err(Error::Yaml(_))));
    let derived = config::derive("- a\n", "/tmp", &None, 1, DeriveMode::ControllerOnly, Platform::Unix);
    assert!(matches!(derived, Err(Error::Yaml(_))));
}

#[test]
fn an_empty_plan_restores_nothing() {
    let plan = RestorePlan::default();
    assert!(plan.is_empty());
    assert_eq!(plan.to_patch().tun, None);
    assert!(!RestorePlan { tun_enabled: true, ..plan }.is_empty());
    assert!(!RestorePlan { port: Some(1), ..plan }.is_empty());
}

#[test]
fn restoring_puts_the_listeners_back() {
    let raw = "port: 1\nsocks-port: 2\nredir-port: 3\ntproxy-port: 4\nmixed-port: 5\n";
    let derived = config::derive(raw, "/tmp", &None, 1, DeriveMode::ZeroListeners, Platform::Unix).unwrap();
    let patch = derived.restore.to_patch();
    assert_eq!(
        (patch.port, patch.socks_port, patch.redir_port, patch.tproxy_port, patch.mixed_port),
        (Some(1), Some(2), Some(3), Some(4), Some(5))
    );
    let out: Mapping = serde_yaml_ng::from_str(&derived.contents).unwrap();
    for key in ["port", "socks-port", "redir-port", "tproxy-port", "mixed-port"] {
        assert_eq!(value_of(&out, key), Some(Value::from(0)), "{key}");
    }
}

#[test]
fn configs_are_loaded_from_their_text() {
    let document = load("mixed-port: 7890\nmode: rule\n").unwrap();
    assert_eq!(document.len(), 2);
    assert_eq!(value_of(&document, "mixed-port"), Some(Value::from(7890)));
    assert!(matches!(load("- a\n- b\n"), Err(Error::Yaml(_))));
    assert!(matches!(load("a: [\n"), Err(Error::Yaml(_))));
}
