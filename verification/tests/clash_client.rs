use nyanpasu_service::clash::{normalize_base_url, resolve_endpoint, Client, Error};
use nyanpasu_service::health::{build_control_client, build_health_client, HealthCheck};
use nyanpasu_service::host::Host;
use nyanpasu_service::platform::Platform;
use nyanpasu_service::spec::ResolvedController;

#[test]
fn http_base_url_is_normalized_and_endpoints_are_relative_to_it() {
    let client = Client::new_http("http://127.0.0.1:9090/api").unwrap();
    assert_eq!(client.base_url().text, "http://127.0.0.1:9090/api/");
    let url = client.endpoint("/version").unwrap();
    assert_eq!(url.text, "http://127.0.0.1:9090/api/version");
}

#[test]
fn http_constructor_rejects_invalid_base_urls() {
    assert!(matches!(Client::new_http("not a URL"), Err(Error::InvalidBaseUrl { .. })));
    assert!(matches!(
        Client::new_http("ftp://127.0.0.1/api"),
        Err(Error::UnsupportedUrlScheme { .. })
    ));
    assert!(matches!(
        Client::new_http("http://127.0.0.1/api?secret=value"),
        Err(Error::BaseUrlHasQueryOrFragment { .. })
    ));
}

#[test]
fn absolute_endpoints_are_rejected() {
    let client = Client::new_http("http://127.0.0.1:9090").unwrap();
    assert!(matches!(
        client.endpoint("https://example.com/version"),
        Err(Error::AbsoluteEndpoint { .. })
    ));
}

#[test]
fn named_pipe_client_uses_a_synthetic_local_base_url() {
    let path = r"\\.\pipe\clash-api-test".to_owned();
    let client = Client::new(Host::NamedPipe(path.clone()), Platform::Windows, "windows").unwrap();
    assert_eq!(client.host(), &Host::NamedPipe(path));
    assert_eq!(client.endpoint("/version").unwrap().text, "http://localhost/version");
}

#[test]
fn named_pipe_transport_is_rejected_off_windows() {
    let result = Client::new_named_pipe("clash-api-test".to_owned(), Platform::Unix, "linux");
    assert!(matches!(result, Err(Error::UnsupportedTransport { .. })));
}

#[test]
fn unix_socket_client_uses_a_synthetic_local_base_url() {
    let path = "/tmp/clash-api-test.sock".to_owned();
    let client = Client::new(Host::UnixSocket(path.clone()), Platform::Unix, "linux").unwrap();
    assert_eq!(client.host(), &Host::UnixSocket(path));
    assert_eq!(client.endpoint("/version").unwrap().text, "http://localhost/version");
}

#[test]
fn unix_socket_transport_is_rejected_off_unix() {
    let result = Client::new_unix_socket("clash-api-test.sock".to_owned(), Platform::Windows, "windows");
    assert!(matches!(result, Err(Error::UnsupportedTransport { .. })));
}

#[test]
fn a_fragment_is_no_part_of_a_base_url() {
    assert!(matches!(
        Client::new_http("http://127.0.0.1/api#top"),
        Err(Error::BaseUrlHasQueryOrFragment { .. })
    ));
}

#[test]
fn many_leading_slashes_are_relative_too() {
    let client = Client::new_http("http://127.0.0.1:9090/api/").unwrap();
    assert_eq!(client.endpoint("///configs").unwrap().text, "http://127.0.0.1:9090/api/configs");
    assert_eq!(client.endpoint("").unwrap().text, "http://127.0.0.1:9090/api/");
}

#[test]
fn an_address_is_the_authority_of_an_http_url() {
    let host = Host::http("127.0.0.1:9090").unwrap();
    match &host {
        Host::Http(url) => {
            assert_eq!(url.text, "http://127.0.0.1:9090/");
            assert_eq!(url.scheme, "http");
            assert_eq!(url.host.as_deref(), Some("127.0.0.1"));
            assert_eq!(url.port, Some(9090));
            assert_eq!(url.path, "/");
        }
        other => panic!("unexpected host: {other:?}"),
    }
    let client = Client::new(host, Platform::Unix, "linux").unwrap();
    assert_eq!(client.base_url().text, "http://127.0.0.1:9090/");
}

#[test]
fn normalizing_a_normal_base_url_changes_nothing() {
    let client = Client::new_http("https://localhost/").unwrap();
    let again = normalize_base_url(client.base_url().clone()).unwrap();
    assert_eq!(&again, client.base_url());
}

#[test]
fn an_endpoint_that_cannot_be_joined_is_invalid() {
    let client = Client::new_http("http://localhost/").unwrap();
    let result = resolve_endpoint(client.base_url(), "x", false, Err("bad".to_owned()));
    assert_eq!(
        result,
        Err(Error::InvalidEndpoint { endpoint: "x".to_owned(), source: "bad".to_owned() })
    );
}

#[test]
fn client_errors_read_well() {
    let error = Client::new_named_pipe("p".to_owned(), Platform::Unix, "linux").unwrap_err();
    assert!(error.message().contains("Windows named pipe"));
    assert!(error.message().contains("linux"));
}

#[test]
fn health_clients_wait_a_second() {
    let controller = ResolvedController {
        host: Host::http("127.0.0.1:9090").unwrap(),
        secret: Some("s3cret".to_owned()),
    };
    let built = build_health_client(&controller, Platform::Unix, "linux").unwrap();
    assert_eq!(built.timeout_ms, 1000);
    assert_eq!(built.secret.as_deref(), Some("s3cret"));
    let control = build_control_client(&controller, 250, Platform::Unix, "linux").unwrap();
    assert_eq!(control.timeout_ms, 250);
    let check = HealthCheck::new(&controller, Platform::Unix, "linux").unwrap();
    assert_eq!(check.version_url().unwrap().text, "http://127.0.0.1:9090/version");
}

#[test]
fn a_controller_that_cannot_be_reached_from_here_has_no_health_check() {
    let controller = ResolvedController { host: Host::NamedPipe("p".to_owned()), secret: None };
    let error = HealthCheck::new(&controller, Platform::Unix, "linux").unwrap_err();
    assert!(matches!(error, nyanpasu_service::error::Error::Api(_)));
}

#[test]
fn a_base_path_keeps_its_escapes() {
    let client = Client::new_http("http://127.0.0.1:9090/a%20b").unwrap();
    assert_eq!(client.base_url().text, "http://127.0.0.1:9090/a%20b/");
    assert_eq!(client.base_url().path, "/a%20b/");
    assert_eq!(client.endpoint("version").unwrap().text, "http://127.0.0.1:9090/a%20b/version");
}

#[test]
fn endpoints_never_leave_the_controller() {
    let http = Client::new_http("http://127.0.0.1:9090/api/").unwrap();
    let socket = Client::new_unix_socket("/run/x.sock".to_owned(), Platform::Unix, "linux").unwrap();
    for client in [&http, &socket] {
        for endpoint in [
            "https://evil.com/x",
            "/https://evil.com/x",
            "///https://evil.com/x",
            r"\\evil.com\x",
            r"/\\evil.com\x",
            "file:///etc/passwd",
        ] {
            assert_eq!(
                client.endpoint(endpoint),
                Err(Error::AbsoluteEndpoint { endpoint: endpoint.to_owned() }),
                "{endpoint}"
            );
        }
        for endpoint in ["/version", "//evil.com/x", "../up", "a/b?c=d#e", r"a\b"] {
            let url = client.endpoint(endpoint).unwrap();
            assert_eq!(url.scheme, client.base_url().scheme, "{endpoint}");
            assert_eq!(url.host, client.base_url().host, "{endpoint}");
            assert_eq!(url.port, client.base_url().port, "{endpoint}");
        }
    }
    assert_eq!(http.endpoint("//evil.com/x").unwrap().text, "http://127.0.0.1:9090/api/evil.com/x");
}

#[test]
fn a_joined_url_of_another_origin_is_refused() {
    let base = Client::new_http("http://127.0.0.1:9090/").unwrap();
    for other in ["https://127.0.0.1:9090/", "http://127.0.0.2:9090/", "http://127.0.0.1:9091/"] {
        let joined = Client::new_http(other).unwrap().base_url().clone();
        assert_eq!(
            resolve_endpoint(base.base_url(), "x", false, Ok(joined)),
            Err(Error::AbsoluteEndpoint { endpoint: "x".to_owned() }),
            "{other}"
        );
    }
    let same = Client::new_http("http://127.0.0.1:9090/x").unwrap().base_url().clone();
    assert_eq!(resolve_endpoint(base.base_url(), "x", false, Ok(same.clone())), Ok(same.clone()));
    assert_eq!(
        resolve_endpoint(base.base_url(), "x", true, Ok(same)),
        Err(Error::AbsoluteEndpoint { endpoint: "x".to_owned() })
    );
}

#[test]
fn bare_addresses_need_a_host_and_a_port() {
    for (address, text) in [
        ("127.0.0.1:9090", "http://127.0.0.1:9090/"),
        ("[::1]:9090", "http://[::1]:9090/"),
        ("http://example/", "http://example/"),
    ] {
        match Host::http(address).unwrap() {
            Host::Http(url) => assert_eq!(url.text, text),
            other => panic!("unexpected host: {other:?}"),
        }
    }
    for address in ["example", "/etc/passwd", "", "127.0.0.1", "127.0.0.1:", ":9090", "a/b:80"] {
        assert!(
            matches!(Host::http(address), Err(Error::InvalidBaseUrl { .. })),
            "{address}: {:?}",
            Host::http(address)
        );
    }
}
