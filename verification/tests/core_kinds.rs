use nyanpasu_service::capability::{
    binary_modified, needs_version, probe_version, resolve_features, BinaryLookup, VersionCache,
    VersionProgress, VersionRun, VersionStep,
};
use nyanpasu_service::error::Error;
use nyanpasu_service::feature::{
    decide, since, Feature, Support, CLASH_RS_PIPE, CLASH_RS_UNIX, MIHOMO_PIPE, MIHOMO_UNIX,
};
use nyanpasu_service::kind::{
    check_args, check_config, error_summary, is_cuttable, is_summarisable, mihomo_safe_paths,
    parse_check_output, run_args, CoreKind,
};
use nyanpasu_service::platform::Platform;
use nyanpasu_service::spec::CoreSpec;

#[test]
fn run_args_match_legacy_profiles() {
    let dir = "C:/data";
    let cfg = "C:/data/config.yaml";
    assert_eq!(
        run_args(CoreKind::Mihomo, dir, cfg).unwrap(),
        ["-m", "-d", "C:/data", "-f", "C:/data/config.yaml"]
    );
    assert_eq!(
        run_args(CoreKind::ClashRust, dir, cfg).unwrap(),
        ["-d", "C:/data", "-c", "C:/data/config.yaml"]
    );
    assert_eq!(
        run_args(CoreKind::ClashPremium, dir, cfg).unwrap(),
        ["-d", "C:/data", "-f", "C:/data/config.yaml"]
    );
}

#[test]
fn meow_has_no_launch_profile() {
    assert!(matches!(
        run_args(CoreKind::Meow, "/d", "/d"),
        Err(Error::UnsupportedCore(CoreKind::Meow))
    ));
}

#[test]
fn safe_paths_joins_with_platform_separator() {
    assert_eq!(mihomo_safe_paths(Platform::Windows, "/a", "/b"), "/a;/b");
    assert_eq!(mihomo_safe_paths(Platform::Unix, "/a", "/b"), "/a:/b");
}

#[test]
fn parse_check_output_extracts_mihomo_msg() {
    let log = r#"time="2026-07-18T10:00:00Z" level=error msg="configuration file /x.yaml test failed""#;
    assert_eq!(parse_check_output(log.to_string()), "configuration file /x.yaml test failed");
}

#[test]
fn parse_check_output_extracts_error_field() {
    assert_eq!(parse_check_output("error=bad path=/etc".to_string()), "bad");
}

#[test]
fn parse_check_output_handles_fallback_error_boundaries() {
    assert_eq!(parse_check_output("error=bad".to_string()), "bad");
    assert_eq!(parse_check_output("path=/etc error=bad".to_string()), "path=/etc error=bad");
}

#[test]
fn parse_check_output_falls_back_to_input() {
    assert_eq!(parse_check_output("plain failure".to_string()), "plain failure");
}

#[test]
fn error_summary_parses_last_mihomo_error_line() {
    let tail = "line one\ntime=\"x\" level=error msg=\"boom\"\nafter";
    assert_eq!(error_summary(CoreKind::Mihomo, tail), "boom");
    assert_eq!(error_summary(CoreKind::ClashRust, tail), tail);
    assert_eq!(error_summary(CoreKind::Mihomo, "no marker"), "no marker");
}

#[test]
fn the_last_of_several_error_lines_is_summed_up() {
    let tail = "time=\"x\" level=error msg=\"first\"\ntime=\"x\" level=error msg=\"second\"\n";
    assert!(is_summarisable(CoreKind::Mihomo, tail));
    assert_eq!(error_summary(CoreKind::Mihomo, tail), "second");
}

#[test]
fn kinds_have_names() {
    assert_eq!(CoreKind::Mihomo.as_str(), "mihomo");
    assert_eq!(CoreKind::ClashRust.as_str(), "clash-rs");
    assert_eq!(CoreKind::ClashPremium.as_str(), "clash");
    assert_eq!(CoreKind::Meow.as_str(), "meow");
}

#[test]
fn a_failed_check_tells_why() {
    assert_eq!(check_config(CoreKind::Mihomo, true, "", ""), Ok(()));
    let out = r#"time="t" level=error msg="no such proxy""#;
    match check_config(CoreKind::Mihomo, false, out, "") {
        Err(Error::ConfigCheckFailed(detail)) => assert!(detail.contains("no such proxy")),
        other => panic!("unexpected result: {other:?}"),
    }
    assert!(is_cuttable(out));
    assert_eq!(check_args("/d", "/d/c.yaml").first().map(String::as_str), Some("-t"));
}

#[test]
fn an_unknown_version_yields_the_requirement() {
    for platform in [Platform::Unix, Platform::Windows] {
        assert!(matches!(
            CoreKind::Mihomo.supports(Feature::SystemPipeIpc, platform, None),
            Support::Since(_)
        ));
        assert!(matches!(
            CoreKind::ClashRust.supports(Feature::SystemPipeIpc, platform, None),
            Support::Since(_)
        ));
    }
}

#[test]
fn every_floor_brackets_the_release_that_added_its_transport() {
    for (floor, last_without, first_with) in [
        (MIHOMO_UNIX, "1.18.3", "1.18.4"),
        (MIHOMO_PIPE, "1.18.8", "1.18.9"),
        (CLASH_RS_UNIX, "0.9.0", "0.9.1"),
        (CLASH_RS_PIPE, "0.9.6", "0.9.7"),
    ] {
        assert!(
            matches!(since(floor, Some(last_without)), Support::No),
            "`{floor}` must reject {last_without}"
        );
        assert!(
            matches!(since(floor, Some(first_with)), Support::Yes),
            "`{floor}` must accept {first_with}"
        );
    }
}

#[test]
fn each_core_gates_on_its_own_platform_transport() {
    for (kind, unix, pipe) in [
        (CoreKind::Mihomo, ("1.18.3", "1.18.4"), ("1.18.8", "1.18.9")),
        (CoreKind::ClashRust, ("0.9.0", "0.9.1"), ("0.9.6", "0.9.7")),
    ] {
        for (platform, (last_without, first_with)) in
            [(Platform::Unix, unix), (Platform::Windows, pipe)]
        {
            assert!(
                matches!(
                    kind.supports(Feature::SystemPipeIpc, platform, Some(last_without)),
                    Support::No
                ),
                "{kind:?} must reject {last_without}"
            );
            assert!(
                matches!(
                    kind.supports(Feature::SystemPipeIpc, platform, Some(first_with)),
                    Support::Yes
                ),
                "{kind:?} must accept {first_with}"
            );
        }
    }
}

#[test]
fn tcp_only_cores_never_support_local_ipc() {
    for kind in [CoreKind::ClashPremium, CoreKind::Meow] {
        for platform in [Platform::Unix, Platform::Windows] {
            assert!(matches!(kind.supports(Feature::SystemPipeIpc, platform, None), Support::No));
            assert!(matches!(
                kind.supports(Feature::SystemPipeIpc, platform, Some("99.0.0")),
                Support::No
            ));
        }
    }
}

#[test]
fn later_releases_have_it_and_prereleases_do_not() {
    assert_eq!(since(MIHOMO_UNIX, Some("2.0.0")), Support::Yes);
    assert_eq!(since(MIHOMO_UNIX, Some("1.19.0")), Support::Yes);
    assert_eq!(since(MIHOMO_UNIX, Some("1.18.5-alpha.1")), Support::No);
    assert_eq!(
        since(MIHOMO_UNIX, Some("alpha-1a2b3c")),
        Support::Since(">=1.18.4".to_owned())
    );
}

#[test]
fn a_requirement_is_decided_by_what_met_it() {
    assert_eq!(decide(">=1.0.0", Some(true)), Support::Yes);
    assert_eq!(decide(">=1.0.0", Some(false)), Support::No);
    assert_eq!(decide(">=1.0.0", None), Support::Since(">=1.0.0".to_owned()));
}

fn core_of(kind: CoreKind, version: Option<&str>) -> CoreSpec {
    CoreSpec {
        kind,
        binary_path: "/bin/core".to_owned(),
        version: version.map(str::to_owned),
        features: Vec::new(),
    }
}

#[test]
fn a_given_version_is_not_looked_for() {
    let cache = VersionCache::new();
    assert_eq!(
        cache.resolve(&core_of(CoreKind::Mihomo, Some("1.2.3"))),
        VersionProgress::Finished(Ok("1.2.3".to_owned()))
    );
}

#[test]
fn a_version_is_probed_once_per_modification() {
    let mut cache = VersionCache::new();
    let step = cache.resolve(&core_of(CoreKind::Mihomo, None));
    assert_eq!(
        step,
        VersionProgress::Continue(VersionStep::Inspect { binary_path: "/bin/core".to_owned() })
    );
    let step = cache.inspected("/bin/core".to_owned(), BinaryLookup::Modified(7));
    assert_eq!(
        step,
        VersionProgress::Continue(VersionStep::Probe {
            binary_path: "/bin/core".to_owned(),
            modified: 7,
        })
    );
    let version = "v1.19.0".to_owned();
    assert_eq!(
        cache.rechecked("/bin/core".to_owned(), 7, version.clone(), BinaryLookup::Modified(7)),
        Ok(version.clone())
    );
    assert_eq!(cache.get("/bin/core", 7), Some(version.clone()));
    assert_eq!(
        cache.inspected("/bin/core".to_owned(), BinaryLookup::Modified(7)),
        VersionProgress::Finished(Ok(version))
    );
    assert_eq!(cache.get("/bin/core", 8), None);
    assert!(matches!(
        cache.inspected("/bin/core".to_owned(), BinaryLookup::Modified(8)),
        VersionProgress::Continue(VersionStep::Probe { .. })
    ));
}

#[test]
fn a_binary_that_changes_while_it_is_probed_is_refused() {
    let mut cache = VersionCache::new();
    let result =
        cache.rechecked("/bin/core".to_owned(), 7, "v1".to_owned(), BinaryLookup::Modified(8));
    assert!(matches!(result, Err(Error::CoreVersionProbeFailed { .. })));
    assert_eq!(cache.get("/bin/core", 8), None);
    assert_eq!(
        binary_modified("/bin/core", BinaryLookup::Missing),
        Err(Error::BinaryNotFound("/bin/core".to_owned()))
    );
}

#[test]
fn a_failed_probe_tells_why() {
    assert!(matches!(
        probe_version("/bin/core", VersionRun::Failed("no exec".to_owned())),
        Err(Error::CoreVersionProbeFailed { detail, .. }) if detail.contains("no exec")
    ));
}

#[test]
fn features_follow_the_version() {
    assert!(needs_version(CoreKind::Mihomo, Platform::Unix));
    assert!(!needs_version(CoreKind::Meow, Platform::Unix));
    let spec = core_of(CoreKind::Mihomo, None);
    let found = resolve_features(&spec, Platform::Unix, Ok("v1.18.4".to_owned()), Some("1.18.4"))
        .unwrap();
    assert!(found.system_pipe_ipc);
    assert_eq!(found.version.as_deref(), Some("v1.18.4"));
    let found = resolve_features(&spec, Platform::Unix, Ok("alpha-x".to_owned()), None).unwrap();
    assert!(!found.system_pipe_ipc);
    let failed = resolve_features(&spec, Platform::Unix, Err(Error::NotStarted), None);
    assert_eq!(failed, Err(Error::NotStarted));
    let spec = core_of(CoreKind::ClashPremium, Some("x"));
    let found = resolve_features(&spec, Platform::Unix, Err(Error::NotStarted), None).unwrap();
    assert_eq!(found.version.as_deref(), Some("x"));
    assert!(!found.system_pipe_ipc);
}

#[test]
fn binaries_are_known_by_their_paths() {
    let mut cache = VersionCache::new();
    let found = |cache: &VersionCache, path: &str| cache.get(path, 7);
    let remember = |cache: &mut VersionCache, path: &str, version: &str| {
        cache
            .rechecked(path.to_owned(), 7, version.to_owned(), BinaryLookup::Modified(7))
            .unwrap();
    };
    remember(&mut cache, "/x//core", "v1");
    for path in ["/x/core", "/x//core", "/x/./core", "/x/core/", "/x/core/."] {
        assert_eq!(found(&cache, path).as_deref(), Some("v1"), "{path}");
    }
    for path in ["x/core", "/x/Core", "/x/../x/core", "/core", "/x/core/y"] {
        assert_eq!(found(&cache, path), None, "{path}");
    }
    remember(&mut cache, "/x/core", "v2");
    assert_eq!(cache.entries.len(), 1, "the same binary has one entry");
    assert_eq!(found(&cache, "/x//core").as_deref(), Some("v2"));
    remember(&mut cache, "./core", "v3");
    assert_eq!(found(&cache, "core"), None);
    assert_eq!(cache.entries.len(), 2);
}

#[test]
fn the_cache_goes_by_what_it_is_told_of_paths() {
    let mut cache = VersionCache::new();
    cache.remember(&Vec::new(), "a", 1, "v1");
    cache.remember(&vec![false], "b", 1, "v2");
    assert_eq!(cache.find(&vec![true, true], 1).as_deref(), Some("v1"));
    assert_eq!(cache.find(&vec![false, true], 1).as_deref(), Some("v2"));
    assert_eq!(cache.find(&vec![false, false], 1), None);
    assert_eq!(cache.find(&vec![true, true], 2), None);
    cache.remember(&vec![true, false], "c", 2, "v3");
    let paths: Vec<&str> = cache.entries.iter().map(|entry| entry.binary_path.as_str()).collect();
    assert_eq!(paths, ["b", "c"]);
}
