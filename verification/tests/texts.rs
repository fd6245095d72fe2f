use nyanpasu_service::error::Error;
use nyanpasu_service::kind::CoreKind;
use nyanpasu_service::state::RevisionId;
use nyanpasu_service::text::{
    contains_text, decimal_text, ends_with, join, last_position, line_list, parse_u64, position,
    signed_decimal_text, slice, split_list, starts_with, text_before, trim, trim_end, trim_start,
    without_prefix, without_suffix,
};

#[test]
fn numbers_read_back() {
    for number in [0, 7, 10, 99, 1_234_567_890, u64::MAX] {
        assert_eq!(decimal_text(number), number.to_string());
        assert_eq!(parse_u64(&decimal_text(number)), Some(number));
    }
    assert_eq!(signed_decimal_text(-1), "-1");
    assert_eq!(signed_decimal_text(i32::MIN), "-2147483648");
    assert_eq!(signed_decimal_text(42), "42");
}

#[test]
fn numbers_are_read_as_rust_reads_them() {
    for text in ["", "+", "-1", "+5", "007", "1x", " 1", "18446744073709551616", "0"] {
        assert_eq!(parse_u64(text), text.parse::<u64>().ok(), "{text:?}");
    }
}

#[test]
fn texts_are_searched() {
    assert_eq!(position("abcabc", "ca"), Some(2));
    assert_eq!(position("abc", ""), Some(0));
    assert_eq!(position("abc", "d"), None);
    assert!(contains_text("abc", "bc"));
    assert!(starts_with("abc", "ab") && !starts_with("abc", "b"));
    assert!(ends_with("abc", "bc") && !ends_with("bc", "abc"));
    assert_eq!(last_position("a:b:c", ':'), Some(3));
    assert_eq!(last_position("abc", ':'), None);
    assert_eq!(slice("h\u{e9}llo", 1, 3), "\u{e9}l");
    assert_eq!(without_prefix("core-1", "core-").as_deref(), Some("1"));
    assert_eq!(without_suffix("1.pid", ".pid").as_deref(), Some("1"));
    assert_eq!(without_suffix("1.pid", ".sock"), None);
    assert_eq!(text_before("1.yaml.backup-2", ".yaml.backup-").as_deref(), Some("1"));
}

#[test]
fn texts_are_split_and_joined() {
    assert_eq!(split_list("a&b&&c", '&'), ["a", "b", "", "c"]);
    assert_eq!(split_list("", '&'), [""]);
    assert_eq!(split_list("&", '&'), ["", ""]);
    let parts = vec!["a".to_owned(), "b".to_owned()];
    assert_eq!(join(&parts, ", "), "a, b");
    assert_eq!(join(&Vec::new(), ", "), "");
    for text in ["", "a", "a\n", "a\nb", "a\r\nb\n", "\n", "\n\n", "a\rb"] {
        assert_eq!(line_list(text), text.lines().collect::<Vec<_>>(), "{text:?}");
    }
}

#[test]
fn white_space_is_trimmed() {
    for text in ["", " a ", "\t\u{a0}x y\u{2003}\n", "plain", " \r\n "] {
        assert_eq!(trim(text), text.trim(), "{text:?}");
        assert_eq!(trim_start(text), text.trim_start(), "{text:?}");
        assert_eq!(trim_end(text), text.trim_end(), "{text:?}");
    }
}

#[test]
fn errors_read_well() {
    let id = |generation: u64| RevisionId {
        epoch: 3,
        generation,
        effective_hash: "a\"b".to_owned(),
    };
    assert_eq!(
        Error::RevisionConflict { expected: id(1), actual: Some(id(2)) }.message(),
        "config revision conflict: expected epoch 3 generation 1 (a\"b), actual \
         Some(RevisionId { epoch: 3, generation: 2, effective_hash: \"a\\\"b\" })"
    );
    assert_eq!(
        Error::RevisionConflict { expected: id(1), actual: None }.message(),
        "config revision conflict: expected epoch 3 generation 1 (a\"b), actual None"
    );
    let cases = [
        (Error::AlreadyRunning, "core is already running"),
        (Error::NotStarted, "core is not running"),
        (Error::ConfigNotFound("/c".into()), "config file not found: /c"),
        (Error::BinaryNotFound("/b".into()), "core binary not found: /b"),
        (
            Error::ControllerMissing,
            "no external controller configured; the version health probe needs one",
        ),
        (
            Error::UnsupportedCore(CoreKind::Meow),
            "core kind `meow` has no launch profile yet",
        ),
        (Error::ConfigCheckFailed("x".into()), "config check failed: x"),
        (Error::InvalidConfig("x".into()), "invalid runtime config: x"),
        (Error::InvalidManagerOptions("x".into()), "invalid manager options: x"),
        (Error::UnsafeRuntimeArtifact("/x".into()), "unsafe runtime artifact: /x"),
        (
            Error::RuntimeDirectoryOwned("/x".into()),
            "runtime directory is already owned by another manager: /x",
        ),
        (
            Error::StopUnconfirmed("x".into()),
            "core process death could not be confirmed: x",
        ),
        (Error::ApplyFailed("x".into()), "config apply failed: x"),
        (
            Error::ApplyRollbackFailed { apply: "a".into(), rollback: "r".into() },
            "config apply failed (a); rollback also failed (r)",
        ),
        (
            Error::StartupTimeout { stderr_tail: "t".into() },
            "core did not become healthy before the startup timeout; stderr tail:\nt",
        ),
        (
            Error::StartupFailed { stderr_tail: "t".into() },
            "core failed to start; stderr tail:\nt",
        ),
        (Error::Process("p".into()), "p"),
        (Error::Api("a".into()), "a"),
        (Error::Yaml("y".into()), "failed to process config YAML: y"),
        (Error::Io("i".into()), "i"),
    ];
    for (error, expected) in cases {
        assert_eq!(error.message(), expected);
    }
    let wrapped = Error::DurabilityUncertain {
        source: Box::new(Error::NotStarted),
        warning: "sync".into(),
    };
    assert!(wrapped.message().starts_with("core is not running"));
    assert!(wrapped.message().ends_with("sync"));
}

#[test]
fn every_kind_of_white_space_is_trimmed() {
    for code in 0..=0x10ffffu32 {
        if let Some(c) = char::from_u32(code) {
            assert_eq!(trim(&c.to_string()).is_empty(), c.is_whitespace(), "{code:x}");
        }
    }
}
