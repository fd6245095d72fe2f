use nyanpasu_service::clock::{get_current_ts, now_ms, or_epoch, timestamp, timestamp_of};
use nyanpasu_service::ipc::client::{
    read_message, refused, send_data, send_unit, Client, ClientError, Verdict, WireMessage,
    WireStep,
};
use nyanpasu_service::ipc::events::{
    handle_socket, send_event, CoreLogInfo, CoreLogKind, CoreLogLevel, CoreLogStream, Event,
    EventProtocol, SendOutcome, SocketAction, SocketEvent, TraceLog,
};
use nyanpasu_service::ipc::server::{
    handle_accept_error, is_connection_error, AcceptFailure, ServerError,
};
use nyanpasu_service::ipc::stream;
use nyanpasu_service::ipc::{get_name_string, CoreInfos, CoreState, ResponseCode, R};
use nyanpasu_service::platform::Platform;

fn snapshot_event() -> Event {
    Event::new_core_status_changed(CoreInfos {
        core_type: None,
        state: CoreState::Stopped(None),
        state_changed_at: 42,
        config_path: None,
    })
}

fn log_event() -> Event {
    Event::new_log(TraceLog {
        timestamp: "2026-01-01T00:00:00Z".to_owned(),
        level: "INFO".to_owned(),
        message: "hello".to_owned(),
        target: "nyanpasu_service::core".to_owned(),
        fields: Default::default(),
    })
}

#[test]
fn the_version_query_only_opts_in_on_the_exact_token() {
    for query in [
        Some("v=2"),
        Some("foo=bar&v=2"),
        Some("&v=2"),
        Some("v=2&"),
        // the first `v` wins
        Some("v=2&v=1"),
    ] {
        assert_eq!(EventProtocol::from_query(query), EventProtocol::V2, "{query:?}");
    }
    for query in [
        None,
        Some(""),
        Some("v=1"),
        Some("v="),
        Some("v=abc"),
        Some("v=3"),
        Some("v=02"),
        Some("V=2"),
        Some("vv=2"),
        Some("v"),
        // percent-encoding is not decoded: the token is compared literally
        Some("v=%32"),
        Some("%zz"),
        Some("v=1&v=2"),
    ] {
        assert_eq!(EventProtocol::from_query(query), EventProtocol::V1, "{query:?}");
    }
}

#[test]
fn a_v1_connection_is_never_offered_the_v2_variant() {
    let log = log_event();
    let legacy_state = Event::new_core_state_changed(CoreState::Running);
    let snapshot = snapshot_event();

    assert!(EventProtocol::V1.relays(&log));
    assert!(EventProtocol::V1.relays(&legacy_state));
    assert!(!EventProtocol::V1.relays(&snapshot));

    assert!(EventProtocol::V2.relays(&log));
    assert!(EventProtocol::V2.relays(&legacy_state));
    assert!(EventProtocol::V2.relays(&snapshot));
}

#[test]
fn response_codes_and_their_messages_are_pinned() {
    assert_eq!(ResponseCode::Success.msg(), "ok");
    assert_eq!(ResponseCode::OtherError.msg(), "other error");
    assert_eq!(ResponseCode::Success.code(), 0);
    assert_eq!(ResponseCode::OtherError.code(), -1);
    assert_eq!(ResponseCode::default(), ResponseCode::Success);
}

#[test]
fn a_value_with_an_equals_sign_is_not_the_token() {
    assert_eq!(EventProtocol::from_query(Some("v=2=3")), EventProtocol::V1);
    assert_eq!(EventProtocol::from_query(Some("=2&v=2")), EventProtocol::V2);
}

#[test]
fn core_logs_belong_to_the_second_protocol() {
    let record = Event::new_core_log(CoreLogInfo {
        epoch: 1,
        kind: CoreLogKind::Mihomo,
        stream: CoreLogStream::Stdout,
        level: CoreLogLevel::Info,
        at: 1,
        timestamp_ms: None,
        target: None,
        message: "m".to_owned(),
        fields: Vec::new(),
        truncated: false,
    });
    assert!(!record.is_protocol_v1());
    assert_eq!(
        handle_socket(EventProtocol::V1, SocketEvent::Arrived(record)),
        SocketAction::Wait
    );
}

#[test]
fn only_the_second_protocol_is_told_the_status_unasked() {
    assert_eq!(
        handle_socket(EventProtocol::V2, SocketEvent::Connected),
        SocketAction::SendSnapshot
    );
    assert_eq!(handle_socket(EventProtocol::V1, SocketEvent::Connected), SocketAction::Wait);
    assert_eq!(
        handle_socket(EventProtocol::V2, SocketEvent::Lagged),
        SocketAction::ResubscribeAndSendSnapshot
    );
    assert_eq!(handle_socket(EventProtocol::V1, SocketEvent::Lagged), SocketAction::Resubscribe);
    assert_eq!(handle_socket(EventProtocol::V1, SocketEvent::Closed), SocketAction::Stop);
    assert_eq!(
        handle_socket(EventProtocol::V1, SocketEvent::Arrived(log_event())),
        SocketAction::Send(log_event())
    );
}

#[test]
fn only_a_broken_connection_ends_the_stream() {
    assert!(send_event(SendOutcome::Sent));
    assert!(send_event(SendOutcome::NotSerialized));
    assert!(!send_event(SendOutcome::Failed));
}

#[test]
fn envelopes_say_how_it_went() {
    let good = R::success(7u32, 1_700_000_000);
    assert_eq!((good.code, good.msg.as_str()), (ResponseCode::Success, "ok"));
    assert_eq!((good.data, good.ts), (Some(7), 1_700_000_000));
    let bad: R<u32> = R::other_error("core is already stopped", 5);
    assert_eq!((bad.code, bad.msg.as_str()), (ResponseCode::OtherError, "core is already stopped"));
    assert_eq!((bad.data, bad.ts), (None, 5));
}

#[test]
fn http_failures_carry_the_services_words_if_it_has_any() {
    let verdict = Verdict { code: ResponseCode::OtherError, msg: "boom-500".to_owned() };
    let error = refused("/status", "500 Internal Server Error".to_owned(), Some(verdict), "x".to_owned());
    assert_eq!(
        error,
        ClientError::Server {
            operation: "/status",
            code: ResponseCode::OtherError,
            msg: "boom-500".to_owned(),
        }
    );
    assert_eq!(error.message(), "IPC request `/status` failed with OtherError: boom-500");
    let error = refused("/status", "404 Not Found".to_owned(), None, String::new());
    assert_eq!(error.message(), "IPC request `/status` returned HTTP 404 Not Found");
    assert_eq!(
        error,
        ClientError::HttpStatus {
            operation: "/status",
            status: "404 Not Found".to_owned(),
            body: None,
        }
    );
    let odd = Verdict { code: ResponseCode::Success, msg: "ok".to_owned() };
    let error = refused("/status", "404 Not Found".to_owned(), Some(odd), "text".to_owned());
    assert!(matches!(error, ClientError::HttpStatus { body: Some(body), .. } if body == "text"));
}

#[test]
fn data_is_unwrapped_from_a_good_envelope_only() {
    assert_eq!(send_data("/status", Ok(R::success(5u8, 0))), Ok(5));
    let failed = send_data::<u8>("/status", Ok(R::other_error("boom-envelope", 0)));
    assert!(matches!(failed, Err(ClientError::Server { msg, .. }) if msg == "boom-envelope"));
    let empty = R::<u8> { code: ResponseCode::Success, msg: "ok".to_owned(), data: None, ts: 0 };
    let empty = send_data("/status", Ok(empty)).unwrap_err();
    assert_eq!(empty.message(), "IPC request `/status` succeeded but carried no data");
    let garbled = send_data::<u8>("/status", Err("eof".to_owned())).unwrap_err();
    assert_eq!(garbled.message(), "failed to decode the IPC response for `/status`: eof");
}

#[test]
fn a_unit_request_only_looks_at_the_code() {
    let empty = R::<u8> { code: ResponseCode::Success, msg: "ok".to_owned(), data: None, ts: 0 };
    assert_eq!(send_unit("/core/stop", Ok(empty)), Ok(()));
    assert!(send_unit::<u8>("/core/stop", Ok(R::other_error("no", 0))).is_err());
    assert!(send_unit::<u8>("/core/stop", Err("eof".to_owned())).is_err());
}

#[test]
fn events_are_text_or_binary() {
    let bytes = vec![1u8, 2, 3];
    assert_eq!(
        read_message("/ws/events", WireMessage::Binary(bytes.clone())),
        WireStep::Decode(bytes.clone())
    );
    assert_eq!(
        read_message("/ws/events", WireMessage::Text(bytes.clone())),
        WireStep::Decode(bytes)
    );
    assert_eq!(read_message("/ws/events", WireMessage::Control), WireStep::Skip);
    match read_message("/ws/events", WireMessage::Failed("gone".to_owned())) {
        WireStep::Fail(error) => {
            assert_eq!(error.message(), "IPC WebSocket `/ws/events` failed: gone")
        }
        other => panic!("unexpected step: {other:?}"),
    }
}

#[test]
fn clients_connect_to_a_named_endpoint() {
    let client = Client::new(Platform::Windows, "nyanpasu_ipc").unwrap();
    assert_eq!(client.path, r"\\.\pipe\nyanpasu_ipc");
    let client = Client::new(Platform::Unix, "nyanpasu_ipc").unwrap();
    assert_eq!(client.path, "/var/run/nyanpasu_ipc.sock");
    assert_eq!(client.request("/core/start").unwrap().text, "http://localhost/core/start");
    assert_eq!(client.request("status").unwrap().text, "http://localhost/status");
    assert_eq!(get_name_string(Platform::Unix, "x"), "/var/run/x.sock");
}

#[test]
fn client_failures_read_well() {
    assert_eq!(
        ClientError::BuildClient("no tls".to_owned()).message(),
        "failed to build the IPC client: no tls"
    );
    let request = ClientError::Request { operation: "/status", source: "refused".to_owned() };
    assert_eq!(request.message(), "IPC request `/status` failed: refused");
}

#[test]
fn accepting_waits_only_after_a_failure_of_its_own() {
    for failure in [
        AcceptFailure::ConnectionRefused,
        AcceptFailure::ConnectionAborted,
        AcceptFailure::ConnectionReset,
    ] {
        assert!(is_connection_error(failure));
        assert_eq!(handle_accept_error(failure), 0);
    }
    assert!(!is_connection_error(AcceptFailure::Other));
    assert_eq!(handle_accept_error(AcceptFailure::Other), 1000);
    assert_eq!(ServerError::Io("x".to_owned()).message(), "IO error: x");
    assert_eq!(ServerError::Other("x".to_owned()).message(), "Other error: x");
}

#[test]
fn stream_responses_must_be_complete() {
    assert!(stream::send_request(200, "").is_ok());
    assert!(stream::send_request(302, "").is_ok());
    let failed = stream::send_request(500, "Response").unwrap_err();
    assert_eq!(failed.message(), "An error occurred: Received an error response: Response");
    assert!(stream::send_request(404, "").is_err());
    assert!(stream::send_request(600, "").is_ok());
    assert_eq!(stream::content_length(&Some("12".to_owned())), Ok(12));
    for header in [None, Some("0".to_owned()), Some("x".to_owned()), Some("-1".to_owned())] {
        let error = stream::content_length(&header).unwrap_err();
        assert_eq!(error, stream::ClientError::Other("No content in response".to_owned()));
    }
    assert_eq!(stream::cast_body(3, 3), Ok(()));
    let error = stream::cast_body(3, 2).unwrap_err();
    assert_eq!(error, stream::ClientError::Other("Failed to read the entire response".to_owned()));
    assert_eq!(stream::ClientError::Io("x".to_owned()).message(), "An IO error occurred: x");
    assert_eq!(stream::ClientError::Hyper("x".to_owned()).message(), "A network error occurred: x");
    assert_eq!(stream::ClientError::ParseFailed("x".to_owned()).message(), "An error occurred: x");
}

#[test]
fn timestamps_are_unix_milliseconds() {
    assert_eq!(timestamp(1_700_000_000_123), 1_700_000_000_123);
    assert_eq!(timestamp(u64::MAX as u128), -1);
    assert_eq!(timestamp_of(Some(1_700_000_000_123)), Some(1_700_000_000_123));
    assert_eq!(timestamp_of(None), None);
    assert_eq!(or_epoch(Some(5)), 5);
    assert_eq!(or_epoch(None), 0);
    // 2020-01-01, and far from the end of the range.
    let now = get_current_ts().unwrap();
    assert!(now > 1_577_836_800_000);
    assert!(now_ms() >= now);
}
