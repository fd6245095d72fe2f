//! The client side: what a response of the service amounts to.

use super::{get_name_string, ResponseCode, R};
use crate::clash;
use crate::clash::{join_url, parse_url, strip_slashes};
use crate::host::Url;
use crate::ipc;
use crate::platform::Platform;
use crate::state;
use crate::text;
use vstd::prelude::*;
use vstd::string::*;

verus! {

/// Synthetic base URL of requests over the local transport.
pub const LOCAL_TRANSPORT_BASE_URL: &'static str = "http://localhost/";

/// Why a request gave nothing. Failures of the transport and of the decoder are
/// kept as their messages.
#[derive(Debug, PartialEq, Eq)]
pub enum ClientError {
    BuildClient(String),
    Request { operation: &'static str, source: String },
    /// The status is kept as HTTP shows it, with its reason.
    HttpStatus { operation: &'static str, status: String, body: Option<String> },
    Decode { operation: &'static str, source: String },
    Server { operation: &'static str, code: ResponseCode, msg: String },
    EmptyData { operation: &'static str },
    WebSocket { operation: &'static str, source: String },
}

/// The content of a [`ClientError`].
pub enum ClientErrorView {
    BuildClient(Seq<char>),
    Request { operation: Seq<char>, source: Seq<char> },
    HttpStatus { operation: Seq<char>, status: Seq<char>, body: Option<Seq<char>> },
    Decode { operation: Seq<char>, source: Seq<char> },
    Server { operation: Seq<char>, code: ResponseCode, msg: Seq<char> },
    EmptyData { operation: Seq<char> },
    WebSocket { operation: Seq<char>, source: Seq<char> },
}

impl View for ClientError {
    type V = ClientErrorView;

    open spec fn view(&self) -> ClientErrorView {
        match *self {
            ClientError::BuildClient(source) => ClientErrorView::BuildClient(source@),
            ClientError::Request { operation, source } => ClientErrorView::Request {
                operation: operation@,
                source: source@,
            },
            ClientError::HttpStatus { operation, status, body } => ClientErrorView::HttpStatus {
                operation: operation@,
                status: status@,
                body: state::text_of(body),
            },
            ClientError::Decode { operation, source } => ClientErrorView::Decode {
                operation: operation@,
                source: source@,
            },
            ClientError::Server { operation, code, msg } => ClientErrorView::Server {
                operation: operation@,
                code,
                msg: msg@,
            },
            ClientError::EmptyData { operation } => ClientErrorView::EmptyData {
                operation: operation@,
            },
            ClientError::WebSocket { operation, source } => ClientErrorView::WebSocket {
                operation: operation@,
                source: source@,
            },
        }
    }
}

impl ClientErrorView {
    /// How the error reads in a message.
    pub open spec fn text(self) -> Seq<char> {
        match self {
            ClientErrorView::BuildClient(source) => "failed to build the IPC client: "@ + source,
            ClientErrorView::Request { operation, source } => "IPC request `"@ + operation
                + "` failed: "@ + source,
            ClientErrorView::HttpStatus { operation, status, .. } => "IPC request `"@ + operation
                + "` returned HTTP "@ + status,
            ClientErrorView::Decode { operation, source } =>
                "failed to decode the IPC response for `"@ + operation + "`: "@ + source,
            ClientErrorView::Server { operation, code, msg } => "IPC request `"@ + operation
                + "` failed with "@ + code.name() + ": "@ + msg,
            ClientErrorView::EmptyData { operation } => "IPC request `"@ + operation
                + "` succeeded but carried no data"@,
            ClientErrorView::WebSocket { operation, source } => "IPC WebSocket `"@ + operation
                + "` failed: "@ + source,
        }
    }
}

impl ClientError {
    /// The error as a message.
    pub fn message(&self) -> (res: String)
        ensures
            res@ == self@.text(),
    {
        match self {
            ClientError::BuildClient(source) => text::concat(
                "failed to build the IPC client: ",
                source.as_str(),
            ),
            ClientError::Request { operation, source } => text::concat4(
                "IPC request `",
                operation,
                "` failed: ",
                source.as_str(),
            ),
            ClientError::HttpStatus { operation, status, .. } => text::concat4(
                "IPC request `",
                operation,
                "` returned HTTP ",
                status.as_str(),
            ),
            ClientError::Decode { operation, source } => text::concat4(
                "failed to decode the IPC response for `",
                operation,
                "`: ",
                source.as_str(),
            ),
            ClientError::Server { operation, code, msg } => {
                let name: &str = match code {
                    ResponseCode::Success => "Ok",
                    ResponseCode::OtherError => "OtherError",
                };
                let mut res: String = text::concat4(
                    "IPC request `",
                    operation,
                    "` failed with ",
                    name,
                );
                res.append(": ");
                res.append(msg.as_str());
                res
            },
            ClientError::EmptyData { operation } => text::concat3(
                "IPC request `",
                operation,
                "` succeeded but carried no data",
            ),
            ClientError::WebSocket { operation, source } => text::concat4(
                "IPC WebSocket `",
                operation,
                "` failed: ",
                source.as_str(),
            ),
        }
    }
}

/// The addressing of a client: the local endpoint it connects to, and the base
/// URL of its requests. The authority of that URL is only there to satisfy the
/// protocol; nothing is routed by it.
#[derive(Debug, PartialEq, Eq)]
pub struct Client {
    pub path: String,
    pub base_url: Url,
}

impl Client {
    /// A client for the endpoint named by `placeholder`; none where the base URL
    /// is no URL.
    pub fn new(platform: Platform, placeholder: &str) -> (res: Option<Self>)
        ensures
            match res {
                Some(client) => client.path@ == ipc::local_name(platform, placeholder@)
                    && clash::url_parsed(LOCAL_TRANSPORT_BASE_URL@) == Ok::<_, Seq<char>>(
                    client.base_url@,
                ),
                None => clash::url_parsed(LOCAL_TRANSPORT_BASE_URL@) is Err,
            },
    {
        match parse_url(LOCAL_TRANSPORT_BASE_URL) {
            Ok(base_url) => Some(Client { path: get_name_string(platform, placeholder), base_url }),
            Err(_) => None,
        }
    }

    /// Where requests to `endpoint` go: leading slashes are taken as relative to
    /// the base. None where that is no URL.
    pub fn request(&self, endpoint: &str) -> (res: Option<Url>)
        ensures
            match res {
                Some(url) => clash::url_joined(
                    self.base_url.text@,
                    clash::without_slashes(endpoint@),
                ) == Ok::<_, Seq<char>>(url@),
                None => clash::url_joined(
                    self.base_url.text@,
                    clash::without_slashes(endpoint@),
                ) is Err,
            },
    {
        let relative: String = strip_slashes(endpoint);
        match join_url(self.base_url.text.as_str(), relative.as_str()) {
            Ok(url) => Some(url),
            Err(_) => None,
        }
    }
}

/// The code and the message of an envelope.
#[derive(Debug, PartialEq, Eq)]
pub struct Verdict {
    pub code: ResponseCode,
    pub msg: String,
}

/// What a response without success amounts to: the service reports failures with
/// the usual envelope; anything else is an HTTP failure, with its body where it
/// has one.
pub fn refused(
    operation: &'static str,
    status: String,
    envelope: Option<Verdict>,
    body: String,
) -> (res: ClientError)
    ensures
        res@ == match envelope {
            Some(verdict) if verdict.code != ResponseCode::Success => ClientErrorView::Server {
                operation: operation@,
                code: verdict.code,
                msg: verdict.msg@,
            },
            _ => ClientErrorView::HttpStatus {
                operation: operation@,
                status: status@,
                body: if body@.len() > 0 {
                    Some(body@)
                } else {
                    None
                },
            },
        },
{
    if let Some(verdict) = envelope {
        if verdict.code != ResponseCode::Success {
            return ClientError::Server {
                operation,
                code: verdict.code,
                msg: verdict.msg,
            };
        }
    }
    let body: Option<String> = if body.as_str().is_empty() {
        None
    } else {
        Some(body)
    };
    ClientError::HttpStatus { operation, status, body }
}

/// Unwraps the data of a decoded envelope: a code other than `Ok` and an
/// envelope without data are errors.
pub fn send_data<T>(operation: &'static str, decoded: Result<R<T>, String>) -> (res: Result<T, ClientError>)
    ensures
        match (decoded, res) {
            (Ok(envelope), Ok(data)) => envelope.code == ResponseCode::Success && envelope.data == Some(
                data,
            ),
            (Ok(envelope), Err(error)) => if envelope.code != ResponseCode::Success {
                error@ == ClientErrorView::Server {
                    operation: operation@,
                    code: envelope.code,
                    msg: envelope.msg@,
                }
            } else {
                envelope.data is None && error@ == ClientErrorView::EmptyData {
                    operation: operation@,
                }
            },
            (Err(source), Err(error)) => error@ == ClientErrorView::Decode {
                operation: operation@,
                source: source@,
            },
            _ => false,
        },
{
    match decoded {
        Ok(envelope) => {
            if envelope.code != ResponseCode::Success {
                return Err(
                    ClientError::Server {
                        operation,
                        code: envelope.code,
                        msg: envelope.msg,
                    },
                );
            }
            match envelope.data {
                Some(data) => Ok(data),
                None => Err(ClientError::EmptyData { operation }),
            }
        },
        Err(source) => Err(ClientError::Decode { operation, source }),
    }
}

/// Checks the code of a decoded envelope, whatever its data.
pub fn send_unit<T>(operation: &'static str, decoded: Result<R<T>, String>) -> (res: Result<
    (),
    ClientError,
>)
    ensures
        match (decoded, res) {
            (Ok(envelope), Ok(_)) => envelope.code == ResponseCode::Success,
            (Ok(envelope), Err(error)) => envelope.code != ResponseCode::Success && error@
                == ClientErrorView::Server {
                operation: operation@,
                code: envelope.code,
                msg: envelope.msg@,
            },
            (Err(source), Err(error)) => error@ == ClientErrorView::Decode {
                operation: operation@,
                source: source@,
            },
            _ => false,
        },
{
    match decoded {
        Ok(envelope) => {
            if envelope.code != ResponseCode::Success {
                return Err(
                    ClientError::Server {
                        operation,
                        code: envelope.code,
                        msg: envelope.msg,
                    },
                );
            }
            Ok(())
        },
        Err(source) => Err(ClientError::Decode { operation, source }),
    }
}

/// A message of the event connection.
#[derive(Debug, PartialEq, Eq)]
pub enum WireMessage {
    Binary(Vec<u8>),
    Text(Vec<u8>),
    /// A ping, a pong or a close.
    Control,
    Failed(String),
}

/// What a message of the event connection amounts to.
#[derive(Debug, PartialEq, Eq)]
pub enum WireStep {
    /// Decode an event from these bytes.
    Decode(Vec<u8>),
    /// It is no event.
    Skip,
    Fail(ClientError),
}

/// What a message of the event connection amounts to.
pub fn read_message(operation: &'static str, message: WireMessage) -> (res: WireStep)
    ensures
        match (message, res) {
            (WireMessage::Binary(bytes), WireStep::Decode(payload)) => payload == bytes,
            (WireMessage::Text(bytes), WireStep::Decode(payload)) => payload == bytes,
            (WireMessage::Control, WireStep::Skip) => true,
            (WireMessage::Failed(source), WireStep::Fail(error)) => error@
                == ClientErrorView::WebSocket { operation: operation@, source: source@ },
            _ => false,
        },
{
    match message {
        WireMessage::Binary(bytes) => WireStep::Decode(bytes),
        WireMessage::Text(bytes) => WireStep::Decode(bytes),
        WireMessage::Control => WireStep::Skip,
        WireMessage::Failed(source) => WireStep::Fail(
            ClientError::WebSocket { operation, source },
        ),
    }
}

} // verus!
