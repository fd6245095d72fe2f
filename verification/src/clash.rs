//! The client side of a core's controller API: which endpoint it talks to.

use crate::host::{Host, Url};
use crate::platform::Platform;
use crate::state;
use crate::text;
use vstd::prelude::*;
use vstd::string::*;

verus! {

/// Mihomo core version information.
#[derive(Debug, PartialEq, Eq)]
pub struct Version {
    pub meta: bool,
    pub version: String,
}

impl Clone for Version {
    fn clone(&self) -> (res: Self)
        ensures
            res == *self,
    {
        Version { meta: self.meta, version: self.version.clone() }
    }
}

/// Why a client cannot be made or a request cannot be addressed.
#[derive(Debug, PartialEq, Eq)]
pub enum Error {
    InvalidBaseUrl { value: String, source: String },
    UnsupportedUrlScheme { scheme: String },
    UrlCannotBeABase { url: Url },
    BaseUrlHasQueryOrFragment { url: Url },
    AbsoluteEndpoint { endpoint: String },
    InvalidEndpoint { endpoint: String, source: String },
    UnsupportedTransport { transport: String, platform: String },
    BuildClient(String),
}

/// The content of an [`Error`].
pub enum ErrorView {
    InvalidBaseUrl { value: Seq<char>, source: Seq<char> },
    UnsupportedUrlScheme { scheme: Seq<char> },
    UrlCannotBeABase { url: UrlView },
    BaseUrlHasQueryOrFragment { url: UrlView },
    AbsoluteEndpoint { endpoint: Seq<char> },
    InvalidEndpoint { endpoint: Seq<char>, source: Seq<char> },
    UnsupportedTransport { transport: Seq<char>, platform: Seq<char> },
    BuildClient(Seq<char>),
}

/// The content of a [`Url`].
pub struct UrlView {
    pub text: Seq<char>,
    pub scheme: Seq<char>,
    pub host: Option<Seq<char>>,
    pub port: Option<u16>,
    pub path: Seq<char>,
    pub cannot_be_a_base: bool,
    pub has_query: bool,
    pub has_fragment: bool,
}

impl View for Url {
    type V = UrlView;

    open spec fn view(&self) -> UrlView {
        UrlView {
            text: self.text@,
            scheme: self.scheme@,
            host: state::text_of(self.host),
            port: self.port,
            path: self.path@,
            cannot_be_a_base: self.cannot_be_a_base,
            has_query: self.has_query,
            has_fragment: self.has_fragment,
        }
    }
}

/// The content of a [`Host`].
pub enum HostView {
    NamedPipe(Seq<char>),
    UnixSocket(Seq<char>),
    Http(UrlView),
}

impl View for Host {
    type V = HostView;

    open spec fn view(&self) -> HostView {
        match *self {
            Host::NamedPipe(path) => HostView::NamedPipe(path@),
            Host::UnixSocket(path) => HostView::UnixSocket(path@),
            Host::Http(url) => HostView::Http(url@),
        }
    }
}

impl View for Error {
    type V = ErrorView;

    open spec fn view(&self) -> ErrorView {
        match *self {
            Error::InvalidBaseUrl { value, source } => ErrorView::InvalidBaseUrl {
                value: value@,
                source: source@,
            },
            Error::UnsupportedUrlScheme { scheme } => ErrorView::UnsupportedUrlScheme {
                scheme: scheme@,
            },
            Error::UrlCannotBeABase { url } => ErrorView::UrlCannotBeABase { url: url@ },
            Error::BaseUrlHasQueryOrFragment { url } => ErrorView::BaseUrlHasQueryOrFragment {
                url: url@,
            },
            Error::AbsoluteEndpoint { endpoint } => ErrorView::AbsoluteEndpoint {
                endpoint: endpoint@,
            },
            Error::InvalidEndpoint { endpoint, source } => ErrorView::InvalidEndpoint {
                endpoint: endpoint@,
                source: source@,
            },
            Error::UnsupportedTransport { transport, platform } => ErrorView::UnsupportedTransport {
                transport: transport@,
                platform: platform@,
            },
            Error::BuildClient(source) => ErrorView::BuildClient(source@),
        }
    }
}

impl ErrorView {
    /// How the error reads in a message.
    pub open spec fn text(self) -> Seq<char> {
        match self {
            ErrorView::InvalidBaseUrl { value, source } => "invalid Clash API base URL `"@ + value
                + "`: "@ + source,
            ErrorView::UnsupportedUrlScheme { scheme } => "unsupported Clash API URL scheme `"@
                + scheme + "`"@,
            ErrorView::UrlCannotBeABase { url } =>
                "URL cannot be used as a Clash API base URL: "@ + url.text,
            ErrorView::BaseUrlHasQueryOrFragment { url } =>
                "Clash API base URL must not contain a query or fragment: "@ + url.text,
            ErrorView::AbsoluteEndpoint { endpoint } =>
                "Clash API endpoint must be relative, got `"@ + endpoint + "`"@,
            ErrorView::InvalidEndpoint { endpoint, source } => "invalid Clash API endpoint `"@
                + endpoint + "`: "@ + source,
            ErrorView::UnsupportedTransport { transport, platform } => transport
                + " transport is not supported on "@ + platform,
            ErrorView::BuildClient(source) => "failed to build the Clash API HTTP client: "@
                + source,
        }
    }
}

impl Error {
    /// The error as a message.
    pub fn message(&self) -> (res: String)
        ensures
            res@ == self@.text(),
    {
        match self {
            Error::InvalidBaseUrl { value, source } => text::concat4(
                "invalid Clash API base URL `",
                value.as_str(),
                "`: ",
                source.as_str(),
            ),
            Error::UnsupportedUrlScheme { scheme } => text::concat3(
                "unsupported Clash API URL scheme `",
                scheme.as_str(),
                "`",
            ),
            Error::UrlCannotBeABase { url } => text::concat(
                "URL cannot be used as a Clash API base URL: ",
                url.text.as_str(),
            ),
            Error::BaseUrlHasQueryOrFragment { url } => text::concat(
                "Clash API base URL must not contain a query or fragment: ",
                url.text.as_str(),
            ),
            Error::AbsoluteEndpoint { endpoint } => text::concat3(
                "Clash API endpoint must be relative, got `",
                endpoint.as_str(),
                "`",
            ),
            Error::InvalidEndpoint { endpoint, source } => text::concat4(
                "invalid Clash API endpoint `",
                endpoint.as_str(),
                "`: ",
                source.as_str(),
            ),
            Error::UnsupportedTransport { transport, platform } => text::concat3(
                transport.as_str(),
                " transport is not supported on ",
                platform.as_str(),
            ),
            Error::BuildClient(source) => text::concat(
                "failed to build the Clash API HTTP client: ",
                source.as_str(),
            ),
        }
    }
}

/// The URL that a text stands for, or the message why it stands for none.
pub uninterp spec fn url_parsed(text: Seq<char>) -> Result<UrlView, Seq<char>>;

/// What `reference` leads to from the URL `base`, or the message why nowhere.
pub uninterp spec fn url_joined(base: Seq<char>, reference: Seq<char>) -> Result<
    UrlView,
    Seq<char>,
>;

/// The URL `base` with another path, or the message why it is no URL.
pub uninterp spec fn url_with_path(base: Seq<char>, path: Seq<char>) -> Result<
    UrlView,
    Seq<char>,
>;

/// Whether `result` is the URL or the message that `expected` says.
pub open spec fn url_is(result: Result<Url, String>, expected: Result<UrlView, Seq<char>>) -> bool {
    match (result, expected) {
        (Ok(url), Ok(view)) => url@ == view,
        (Err(message), Err(text)) => message@ == text,
        _ => false,
    }
}

/// Wraps `url::Url::parse`, and takes the URL apart: its serialisation, `scheme`,
/// `host_str`, `port`, `path`, `cannot_be_a_base`, and whether `query` and
/// `fragment` are there. What a text stands for is left to the name
/// [`url_parsed`].
#[verifier::external_body]
pub(crate) fn parse_url(text: &str) -> (res: Result<Url, String>)
    ensures
        url_is(res, url_parsed(text@)),
{
    let url = url::Url::parse(text).map_err(|error| error.to_string())?;
    Ok(Url {
        text: url.as_str().to_owned(),
        scheme: url.scheme().to_owned(),
        host: url.host_str().map(|host| host.to_owned()),
        port: url.port(),
        path: url.path().to_owned(),
        cannot_be_a_base: url.cannot_be_a_base(),
        has_query: url.query().is_some(),
        has_fragment: url.fragment().is_some(),
    })
}

/// Wraps `url::Url::join` on a URL in its serialised form, and takes the result
/// apart as [`parse_url`] does. What comes out is left to the name
/// [`url_joined`].
#[verifier::external_body]
pub(crate) fn join_url(base: &str, reference: &str) -> (res: Result<Url, String>)
    ensures
        url_is(res, url_joined(base@, reference@)),
{
    let base = url::Url::parse(base).map_err(|error| error.to_string())?;
    let url = base.join(reference).map_err(|error| error.to_string())?;
    Ok(Url {
        text: url.as_str().to_owned(),
        scheme: url.scheme().to_owned(),
        host: url.host_str().map(|host| host.to_owned()),
        port: url.port(),
        path: url.path().to_owned(),
        cannot_be_a_base: url.cannot_be_a_base(),
        has_query: url.query().is_some(),
        has_fragment: url.fragment().is_some(),
    })
}

/// Wraps `url::Url::set_path` on a URL in its serialised form, and takes the
/// result apart as [`parse_url`] does. What comes out is left to the name
/// [`url_with_path`].
#[verifier::external_body]
fn set_path(base: &str, path: &str) -> (res: Result<Url, String>)
    ensures
        url_is(res, url_with_path(base@, path@)),
{
    let mut url = url::Url::parse(base).map_err(|error| error.to_string())?;
    url.set_path(path);
    Ok(Url {
        text: url.as_str().to_owned(),
        scheme: url.scheme().to_owned(),
        host: url.host_str().map(|host| host.to_owned()),
        port: url.port(),
        path: url.path().to_owned(),
        cannot_be_a_base: url.cannot_be_a_base(),
        has_query: url.query().is_some(),
        has_fragment: url.fragment().is_some(),
    })
}

/// Whether a character ends the host of an address.
pub open spec fn ends_host(c: char) -> bool {
    c == '/' || c == '\\' || c == '?' || c == '#' || c == '@'
}

/// Whether the colon at `at` parts a text into a host and a port.
pub open spec fn parts_address(value: Seq<char>, at: int) -> bool {
    &&& 0 < at < value.len() - 1
    &&& value[at] == ':'
    &&& forall|i: int| 0 <= i < at ==> !ends_host(#[trigger] value[i])
    &&& forall|i: int| at < i < value.len() ==> text::is_digit(#[trigger] value[i])
}

/// Whether a text is a host followed by a colon and a port.
pub open spec fn is_address(value: Seq<char>) -> bool {
    exists|at: int| parts_address(value, at)
}

/// Where an HTTP controller is: at a URL, or at a host and a port, which are
/// taken as the authority of one.
pub open spec fn http_address(value: Seq<char>) -> Result<UrlView, ErrorView> {
    match url_parsed(value) {
        Ok(url) => Ok(url),
        Err(source) => if !is_address(value) {
            Err(ErrorView::InvalidBaseUrl { value, source })
        } else {
            match url_parsed("http://"@ + value) {
                Ok(url) => Ok(url),
                Err(_) => Err(ErrorView::InvalidBaseUrl { value, source }),
            }
        },
    }
}

fn host_ends(c: char) -> (res: bool)
    ensures
        res == ends_host(c),
{
    c == '/' || c == '\\' || c == '?' || c == '#' || c == '@'
}

fn has_port(value: &str) -> (res: bool)
    ensures
        res == is_address(value@),
{
    proof {
        text::lemma_rfind_before(value@, ':', value@.len() as int);
    }
    let chars: Vec<char> = text::chars_of(value);
    let at: usize = match text::last_position(value, ':') {
        Some(at) => at,
        None => {
            return false;
        },
    };
    // The colon before a port is the last one.
    assert forall|other: int| parts_address(value@, other) implies other == at by {
        assert(value@[other] == ':' && value@[at as int] == ':');
        if other < at {
            assert(text::is_digit(value@[at as int]));
        }
    }
    if at == 0 || at + 1 >= chars.len() {
        return false;
    }
    let mut i: usize = 0;
    while i < chars.len()
        invariant
            chars@ == value@,
            0 < at < chars.len() - 1,
            i <= chars.len(),
            value@[at as int] == ':',
            forall|other: int| parts_address(value@, other) ==> other == at,
            forall|j: int| 0 <= j < i && j < at ==> !ends_host(#[trigger] value@[j]),
            forall|j: int| at < j < i ==> text::is_digit(#[trigger] value@[j]),
        decreases chars.len() - i,
    {
        let c: char = chars[i];
        if i < at && host_ends(c) {
            return false;
        }
        if i > at && !('0' <= c && c <= '9') {
            return false;
        }
        i = i + 1;
    }
    assert(parts_address(value@, at as int));
    true
}

/// Whether `result` is the URL or the error that `expected` says.
pub open spec fn settled_as(
    result: Result<Url, Error>,
    expected: Result<UrlView, ErrorView>,
) -> bool {
    match (result, expected) {
        (Ok(url), Ok(view)) => url@ == view,
        (Err(error), Err(view)) => error@ == view,
        _ => false,
    }
}

impl Host {
    /// A Windows named pipe.
    pub fn named_pipe(path: &str) -> (res: Self)
        ensures
            res@ == HostView::NamedPipe(path@),
    {
        Host::NamedPipe(path.to_owned())
    }

    /// A Unix domain socket.
    pub fn unix_socket(path: &str) -> (res: Self)
        ensures
            res@ == HostView::UnixSocket(path@),
    {
        Host::UnixSocket(path.to_owned())
    }

    /// An HTTP(S) controller, by its URL, or by its host and port.
    pub fn http(base_url: &str) -> (res: Result<Self, Error>)
        ensures
            match (res, http_address(base_url@)) {
                (Ok(host), Ok(url)) => host@ == HostView::Http(url),
                (Err(error), Err(expected)) => error@ == expected,
                _ => false,
            },
    {
        let source: String = match parse_url(base_url) {
            Ok(url) => {
                return Ok(Host::Http(url));
            },
            Err(source) => source,
        };
        if !has_port(base_url) {
            return Err(Error::InvalidBaseUrl { value: base_url.to_owned(), source });
        }
        let address: String = text::concat("http://", base_url);
        match parse_url(address.as_str()) {
            Ok(url) => Ok(Host::Http(url)),
            Err(_) => Err(Error::InvalidBaseUrl { value: base_url.to_owned(), source }),
        }
    }
}

/// Whether a URL has the form of a base: HTTP(S), hierarchical, without query
/// and fragment; else what is wrong with it.
pub open spec fn base_fault(url: UrlView) -> Option<ErrorView> {
    if url.scheme != "http"@ && url.scheme != "https"@ {
        Some(ErrorView::UnsupportedUrlScheme { scheme: url.scheme })
    } else if url.cannot_be_a_base {
        Some(ErrorView::UrlCannotBeABase { url })
    } else if url.has_query || url.has_fragment {
        Some(ErrorView::BaseUrlHasQueryOrFragment { url })
    } else {
        None
    }
}

/// Whether a path ends with a slash.
pub open spec fn ends_in_slash(path: Seq<char>) -> bool {
    text::occurs_at(path, "/"@, path.len() - "/"@.len())
}

/// A URL as a base: its path ends with a slash.
pub open spec fn as_base(url: UrlView) -> Result<UrlView, ErrorView> {
    match base_fault(url) {
        Some(fault) => Err(fault),
        None => if ends_in_slash(url.path) {
            Ok(url)
        } else {
            match url_with_path(url.text, url.path + "/"@) {
                Ok(base) => Ok(base),
                Err(source) => Err(ErrorView::InvalidBaseUrl { value: url.text, source }),
            }
        },
    }
}

/// Makes a URL a base: endpoints are resolved below its path.
pub fn normalize_base_url(base_url: Url) -> (res: Result<Url, Error>)
    ensures
        settled_as(res, as_base(base_url@)),
{
    if !text::same_text(base_url.scheme.as_str(), "http") && !text::same_text(
        base_url.scheme.as_str(),
        "https",
    ) {
        return Err(Error::UnsupportedUrlScheme { scheme: base_url.scheme });
    }
    if base_url.cannot_be_a_base {
        return Err(Error::UrlCannotBeABase { url: base_url });
    }
    if base_url.has_query || base_url.has_fragment {
        return Err(Error::BaseUrlHasQueryOrFragment { url: base_url });
    }
    if text::ends_with(base_url.path.as_str(), "/") {
        return Ok(base_url);
    }
    let path: String = text::concat(base_url.path.as_str(), "/");
    match set_path(base_url.text.as_str(), path.as_str()) {
        Ok(url) => Ok(url),
        Err(source) => Err(Error::InvalidBaseUrl { value: base_url.text, source }),
    }
}

/// The base URL of requests that go through a local transport.
pub const LOCAL_TRANSPORT_BASE_URL: &'static str = "http://localhost/";

/// `text` without the slashes at its beginning.
pub open spec fn without_slashes(text: Seq<char>) -> Seq<char>
    decreases text.len(),
{
    if text.len() > 0 && text[0] == '/' {
        without_slashes(text.skip(1))
    } else {
        text
    }
}

pub(crate) fn strip_slashes(s: &str) -> (res: String)
    ensures
        res@ == without_slashes(s@),
{
    let chars: Vec<char> = text::chars_of(s);
    let mut start: usize = 0;
    assert(s@.skip(0) =~= s@);
    while start < chars.len() && chars[start] == '/'
        invariant
            start <= chars.len(),
            chars@ == s@,
            without_slashes(s@.skip(start as int)) == without_slashes(s@),
        decreases chars.len() - start,
    {
        assert(s@.skip(start as int)[0] == s@[start as int]);
        assert(s@.skip(start as int).skip(1) =~= s@.skip(start + 1));
        start = start + 1;
    }
    proof {
        let tail = s@.skip(start as int);
        if start < chars.len() {
            assert(tail[0] == s@[start as int]);
        }
        assert(without_slashes(tail) == tail);
        assert(s@.subrange(start as int, s@.len() as int) =~= tail);
    }
    text::slice(s, start, chars.len())
}

/// Whether a URL leads to the same controller as another one: by the same
/// scheme, to the same host and port.
pub open spec fn same_origin(url: UrlView, base: UrlView) -> bool {
    url.scheme == base.scheme && url.host == base.host && url.port == base.port
}

/// Whether an endpoint stands for a URL by itself, with its leading slashes or
/// without them.
pub open spec fn is_absolute(endpoint: Seq<char>) -> bool {
    url_parsed(endpoint) is Ok || url_parsed(without_slashes(endpoint)) is Ok
}

/// What the joined endpoint leads to: one that is absolute, or that leads away
/// from the controller at `base`, is refused.
pub open spec fn resolved(
    base: UrlView,
    endpoint: Seq<char>,
    absolute: bool,
    joined: Result<UrlView, Seq<char>>,
) -> Result<UrlView, ErrorView> {
    if absolute {
        Err(ErrorView::AbsoluteEndpoint { endpoint })
    } else {
        match joined {
            Ok(url) => if same_origin(url, base) {
                Ok(url)
            } else {
                Err(ErrorView::AbsoluteEndpoint { endpoint })
            },
            Err(source) => Err(ErrorView::InvalidEndpoint { endpoint, source }),
        }
    }
}

/// Where requests to `endpoint` go, from the base URL `base`: an absolute
/// endpoint is refused, and any other is relative to the base.
pub open spec fn endpoint_url(base: UrlView, endpoint: Seq<char>) -> Result<UrlView, ErrorView> {
    resolved(
        base,
        endpoint,
        is_absolute(endpoint),
        url_joined(base.text, without_slashes(endpoint)),
    )
}

/// The content of a URL or of the message why there is none.
pub open spec fn joined_view(joined: Result<Url, String>) -> Result<UrlView, Seq<char>> {
    match joined {
        Ok(url) => Ok(url@),
        Err(message) => Err(message@),
    }
}

fn is_same_origin(url: &Url, base: &Url) -> (res: bool)
    ensures
        res == same_origin(url@, base@),
{
    let hosts: bool = match (&url.host, &base.host) {
        (Some(a), Some(b)) => text::same_text(a.as_str(), b.as_str()),
        (None, None) => true,
        _ => false,
    };
    let ports: bool = match (url.port, base.port) {
        (Some(a), Some(b)) => a == b,
        (None, None) => true,
        _ => false,
    };
    hosts && ports && text::same_text(url.scheme.as_str(), base.scheme.as_str())
}

/// What the parsed and the joined endpoint lead to: an endpoint that stands for
/// a URL by itself, or that leads away from the controller at `base`, is
/// refused.
pub fn resolve_endpoint(
    base: &Url,
    endpoint: &str,
    absolute: bool,
    joined: Result<Url, String>,
) -> (res: Result<Url, Error>)
    ensures
        settled_as(res, resolved(base@, endpoint@, absolute, joined_view(joined))),
        res matches Ok(url) ==> same_origin(url@, base@),
{
    if absolute {
        return Err(Error::AbsoluteEndpoint { endpoint: endpoint.to_owned() });
    }
    match joined {
        Ok(url) => {
            if !is_same_origin(&url, base) {
                return Err(Error::AbsoluteEndpoint { endpoint: endpoint.to_owned() });
            }
            Ok(url)
        },
        Err(source) => Err(Error::InvalidEndpoint { endpoint: endpoint.to_owned(), source }),
    }
}

/// The addressing of a client: the transport it uses, and the base URL of its
/// requests.
#[derive(Debug, PartialEq, Eq)]
pub struct Client {
    pub host: Host,
    pub base_url: Url,
}

/// The content of a [`Client`].
pub struct ClientView {
    pub host: HostView,
    pub base_url: UrlView,
}

impl View for Client {
    type V = ClientView;

    open spec fn view(&self) -> ClientView {
        ClientView { host: self.host@, base_url: self.base_url@ }
    }
}

/// The addressing of a client that uses a local transport.
pub open spec fn local_client(host: HostView) -> Result<ClientView, ErrorView> {
    match url_parsed(LOCAL_TRANSPORT_BASE_URL@) {
        Ok(base_url) => Ok(ClientView { host, base_url }),
        Err(source) => Err(
            ErrorView::InvalidBaseUrl { value: LOCAL_TRANSPORT_BASE_URL@, source },
        ),
    }
}

/// The addressing of a client for `host`, on `platform`, which names itself
/// `os`.
pub open spec fn client_for(host: HostView, platform: Platform, os: Seq<char>) -> Result<
    ClientView,
    ErrorView,
> {
    match host {
        HostView::NamedPipe(_) => if platform == Platform::Windows {
            local_client(host)
        } else {
            Err(
                ErrorView::UnsupportedTransport {
                    transport: "Windows named pipe"@,
                    platform: os,
                },
            )
        },
        HostView::UnixSocket(_) => if platform == Platform::Unix {
            local_client(host)
        } else {
            Err(
                ErrorView::UnsupportedTransport {
                    transport: "Unix domain socket"@,
                    platform: os,
                },
            )
        },
        HostView::Http(url) => match as_base(url) {
            Ok(base_url) => Ok(ClientView { host: HostView::Http(base_url), base_url }),
            Err(error) => Err(error),
        },
    }
}

/// Whether `result` is the client or the error that `expected` says.
pub open spec fn client_is(
    result: Result<Client, Error>,
    expected: Result<ClientView, ErrorView>,
) -> bool {
    match (result, expected) {
        (Ok(client), Ok(view)) => client@ == view,
        (Err(error), Err(view)) => error@ == view,
        _ => false,
    }
}

impl Client {
    fn with_local_transport(host: Host) -> (res: Result<Self, Error>)
        ensures
            client_is(res, local_client(host@)),
    {
        match parse_url(LOCAL_TRANSPORT_BASE_URL) {
            Ok(base_url) => Ok(Client { host, base_url }),
            Err(source) => Err(
                Error::InvalidBaseUrl { value: LOCAL_TRANSPORT_BASE_URL.to_owned(), source },
            ),
        }
    }

    /// A client for the selected transport, on `platform`, which names itself
    /// `os`.
    pub fn new(host: Host, platform: Platform, os: &str) -> (res: Result<Self, Error>)
        ensures
            client_is(res, client_for(host@, platform, os@)),
    {
        match host {
            Host::NamedPipe(path) => Client::new_named_pipe(path, platform, os),
            Host::UnixSocket(path) => Client::new_unix_socket(path, platform, os),
            Host::Http(url) => Client::from_http_url(url),
        }
    }

    /// A client that sends requests through a Windows named pipe.
    pub fn new_named_pipe(path: String, platform: Platform, os: &str) -> (res: Result<Self, Error>)
        ensures
            client_is(res, client_for(HostView::NamedPipe(path@), platform, os@)),
    {
        match platform {
            Platform::Windows => Client::with_local_transport(Host::NamedPipe(path)),
            Platform::Unix => Err(
                Error::UnsupportedTransport {
                    transport: "Windows named pipe".to_owned(),
                    platform: os.to_owned(),
                },
            ),
        }
    }

    /// A client that sends requests through a Unix domain socket.
    pub fn new_unix_socket(path: String, platform: Platform, os: &str) -> (res: Result<Self, Error>)
        ensures
            client_is(res, client_for(HostView::UnixSocket(path@), platform, os@)),
    {
        match platform {
            Platform::Unix => Client::with_local_transport(Host::UnixSocket(path)),
            Platform::Windows => Err(
                Error::UnsupportedTransport {
                    transport: "Unix domain socket".to_owned(),
                    platform: os.to_owned(),
                },
            ),
        }
    }

    fn from_http_url(base_url: Url) -> (res: Result<Self, Error>)
        ensures
            client_is(res, client_for(HostView::Http(base_url@), Platform::Unix, Seq::empty())),
    {
        match normalize_base_url(base_url) {
            Ok(base_url) => Ok(Client { host: Host::Http(base_url.clone()), base_url }),
            Err(error) => Err(error),
        }
    }

    /// A client that sends requests to an HTTP(S) base URL.
    pub fn new_http(base_url: &str) -> (res: Result<Self, Error>)
        ensures
            match http_address(base_url@) {
                Ok(url) => client_is(
                    res,
                    client_for(HostView::Http(url), Platform::Unix, Seq::empty()),
                ),
                Err(expected) => res matches Err(error) && error@ == expected,
            },
    {
        match Host::http(base_url) {
            Ok(host) => Client::new(host, Platform::Unix, ""),
            Err(error) => Err(error),
        }
    }

    /// The transport that the client uses.
    pub fn host(&self) -> (res: &Host)
        ensures
            *res == self.host,
    {
        &self.host
    }

    /// The base URL of the client's requests.
    pub fn base_url(&self) -> (res: &Url)
        ensures
            *res == self.base_url,
    {
        &self.base_url
    }

    /// Resolves an API endpoint against the base URL.
    ///
    /// Leading slashes are taken as relative to the base path. An absolute
    /// endpoint is refused, and so is one that leads to another scheme, host or
    /// port, so that requests cannot bypass the controller by accident.
    pub fn endpoint(&self, endpoint: &str) -> (res: Result<Url, Error>)
        ensures
            settled_as(res, endpoint_url(self.base_url@, endpoint@)),
            res matches Ok(url) ==> url@.scheme == self.base_url@.scheme && url@.host
                == self.base_url@.host && url@.port == self.base_url@.port,
    {
        let relative: String = strip_slashes(endpoint);
        let absolute: bool = parse_url(endpoint).is_ok() || parse_url(relative.as_str()).is_ok();
        let joined: Result<Url, String> = join_url(self.base_url.text.as_str(), relative.as_str());
        assert(joined_view(joined) == url_joined(self.base_url@.text, without_slashes(endpoint@)));
        resolve_endpoint(&self.base_url, endpoint, absolute, joined)
    }
}

/// What is left of an endpoint begins with no slash, and only slashes before it
/// are gone.
pub proof fn only_leading_slashes_go(text: Seq<char>)
    ensures
        ({
            let rest = without_slashes(text);
            let gone = text.len() - rest.len();
            &&& gone >= 0
            &&& rest == text.skip(gone)
            &&& rest.len() > 0 ==> rest[0] != '/'
            &&& forall|i: int| 0 <= i < gone ==> #[trigger] text[i] == '/'
        }),
    decreases text.len(),
{
    if text.len() > 0 && text[0] == '/' {
        only_leading_slashes_go(text.skip(1));
        let rest = without_slashes(text);
        let gone = text.len() - rest.len();
        assert(text.skip(1).skip(gone - 1) =~= text.skip(gone));
        assert forall|i: int| 0 <= i < gone implies #[trigger] text[i] == '/' by {
            if i > 0 {
                assert(text.skip(1)[i - 1] == text[i]);
            }
        }
    } else {
        assert(text.skip(0) =~= text);
    }
}

/// Only a plain web address can be a base: one of the two schemes, without query
/// and fragment. One that ends in a slash is taken as it is.
pub proof fn a_base_is_a_plain_web_address(url: UrlView)
    ensures
        base_fault(url) is None <==> (url.scheme == "http"@ || url.scheme == "https"@)
            && !url.cannot_be_a_base && !url.has_query && !url.has_fragment,
        base_fault(url) matches Some(fault) ==> as_base(url) == Err::<UrlView, ErrorView>(fault),
        as_base(url) is Ok ==> base_fault(url) is None,
        base_fault(url) is None && url.path.len() > 0 && url.path.last() == '/' ==> as_base(url)
            == Ok::<UrlView, ErrorView>(url),
        base_fault(url) is None && url.path.len() > 0 && url.path.last() != '/' && as_base(url)
            is Ok ==> Ok::<UrlView, Seq<char>>(as_base(url)->Ok_0) == url_with_path(
            url.text,
            url.path + "/"@,
        ),
{
    reveal_strlit("/");
    if url.path.len() > 0 {
        let end = url.path.subrange(url.path.len() - 1, url.path.len() as int);
        assert(end[0] == url.path.last());
        if url.path.last() == '/' {
            assert(end =~= "/"@);
        }
        assert("/"@[0] == '/');
    }
}

/// An endpoint is found only below its base: what leads elsewhere is refused,
/// however it is written.
pub proof fn an_endpoint_stays_at_its_base(
    base: UrlView,
    endpoint: Seq<char>,
    absolute: bool,
    joined: Result<UrlView, Seq<char>>,
)
    ensures
        ({
            let res = resolved(base, endpoint, absolute, joined);
            &&& res is Ok <==> !absolute && joined is Ok && joined->Ok_0.scheme == base.scheme
                && joined->Ok_0.host == base.host && joined->Ok_0.port == base.port
            &&& res is Ok ==> res->Ok_0 == joined->Ok_0
            &&& res is Err && !absolute && joined is Err ==> res->Err_0 is InvalidEndpoint
            &&& res is Err && (absolute || joined is Ok) ==> res->Err_0 is AbsoluteEndpoint
            &&& url_parsed(endpoint) is Ok ==> endpoint_url(base, endpoint) is Err
            &&& endpoint_url(base, endpoint) matches Ok(url) ==> url.scheme == base.scheme
                && url.host == base.host && url.port == base.port
        }),
{
}

/// A local transport is there only on its platform. Every client is of the host
/// that it was made for, and one over HTTP talks to its base.
pub proof fn a_transport_needs_its_platform(
    path: Seq<char>,
    url: UrlView,
    platform: Platform,
    os: Seq<char>,
)
    ensures
        ({
            let pipe = client_for(HostView::NamedPipe(path), platform, os);
            let socket = client_for(HostView::UnixSocket(path), platform, os);
            let web = client_for(HostView::Http(url), platform, os);
            &&& platform != Platform::Windows ==> pipe is Err && pipe->Err_0 is UnsupportedTransport
            &&& platform != Platform::Unix ==> socket is Err
                && socket->Err_0 is UnsupportedTransport
            &&& pipe matches Err(error) ==> (error is UnsupportedTransport <==> platform
                != Platform::Windows)
            &&& socket matches Err(error) ==> (error is UnsupportedTransport <==> platform
                != Platform::Unix)
            &&& pipe matches Ok(client) ==> client.host == HostView::NamedPipe(path)
            &&& socket matches Ok(client) ==> client.host == HostView::UnixSocket(path)
            &&& web is Ok <==> as_base(url) is Ok
            &&& web matches Ok(client) ==> Ok::<UrlView, ErrorView>(client.base_url) == as_base(url)
                && client.host == HostView::Http(client.base_url)
            &&& web == client_for(HostView::Http(url), Platform::Unix, Seq::empty())
        }),
{
}

/// What is an address already is taken as it is; only a host with a port gets the
/// scheme that it lacks.
pub proof fn an_address_is_taken_as_it_is(value: Seq<char>)
    ensures
        url_parsed(value) is Ok ==> http_address(value) is Ok && http_address(value)->Ok_0
            == url_parsed(value)->Ok_0,
        url_parsed(value) is Err && is_address(value) && url_parsed("http://"@ + value) is Ok
            ==> http_address(value) is Ok && http_address(value)->Ok_0 == url_parsed(
            "http://"@ + value,
        )->Ok_0,
        http_address(value) is Err <==> url_parsed(value) is Err && !(is_address(value)
            && url_parsed("http://"@ + value) is Ok),
        http_address(value) matches Err(error) ==> error is InvalidBaseUrl,
{
}

} // verus!
