//! Single requests over a local stream: which responses are taken.

use crate::state;
use crate::text;
use vstd::prelude::*;
use vstd::string::*;

verus! {

/// Why a request over a local stream gave nothing. Failures of the layers below
/// are kept as their messages.
#[derive(Debug, PartialEq, Eq)]
pub enum ClientError {
    Io(String),
    Hyper(String),
    ParseFailed(String),
    Other(String),
}

/// The content of a [`ClientError`].
pub enum ClientErrorView {
    Io(Seq<char>),
    Hyper(Seq<char>),
    ParseFailed(Seq<char>),
    Other(Seq<char>),
}

impl View for ClientError {
    type V = ClientErrorView;

    open spec fn view(&self) -> ClientErrorView {
        match *self {
            ClientError::Io(source) => ClientErrorView::Io(source@),
            ClientError::Hyper(source) => ClientErrorView::Hyper(source@),
            ClientError::ParseFailed(source) => ClientErrorView::ParseFailed(source@),
            ClientError::Other(source) => ClientErrorView::Other(source@),
        }
    }
}

impl ClientErrorView {
    /// How the error reads in a message.
    pub open spec fn text(self) -> Seq<char> {
        match self {
            ClientErrorView::Io(source) => "An IO error occurred: "@ + source,
            ClientErrorView::Hyper(source) => "A network error occurred: "@ + source,
            ClientErrorView::ParseFailed(source) => "An error occurred: "@ + source,
            ClientErrorView::Other(source) => "An error occurred: "@ + source,
        }
    }
}

impl ClientError {
    /// The error as a message.
    pub fn message(&self) -> (res: String)
        ensures
            res@ == self@.text(),
    {
        match self {
            ClientError::Io(source) => text::concat("An IO error occurred: ", source.as_str()),
            ClientError::Hyper(source) => text::concat(
                "A network error occurred: ",
                source.as_str(),
            ),
            ClientError::ParseFailed(source) => text::concat("An error occurred: ", source.as_str()),
            ClientError::Other(source) => text::concat("An error occurred: ", source.as_str()),
        }
    }
}

/// Whether a status says that the client or the server failed.
pub open spec fn error_status(status: u16) -> bool {
    400 <= status < 600
}

/// Accepts a response by its status; `shown` is the response as a message shows
/// it.
pub fn send_request(status: u16, shown: &str) -> (res: Result<(), ClientError>)
    ensures
        match res {
            Ok(_) => !error_status(status),
            Err(error) => error_status(status) && error@ == ClientErrorView::Other(
                "Received an error response: "@ + shown@,
            ),
        },
{
    if status >= 400 && status < 600 {
        return Err(ClientError::Other(text::concat("Received an error response: ", shown)));
    }
    Ok(())
}

/// The length that a response announces: 0 where it announces none, or none that
/// is a number.
pub open spec fn announced_length(header: Option<Seq<char>>) -> usize {
    match header {
        Some(value) => match text::parsed_u64(value) {
            Some(length) => if length <= usize::MAX {
                length as usize
            } else {
                0
            },
            None => 0,
        },
        None => 0,
    }
}

/// The length that a response announces, which must not be 0. The header is none
/// where it is absent or not text.
pub fn content_length(header: &Option<String>) -> (res: Result<usize, ClientError>)
    ensures
        match res {
            Ok(length) => length == announced_length(state::text_of(*header)) && length > 0,
            Err(error) => announced_length(state::text_of(*header)) == 0 && error@
                == ClientErrorView::Other("No content in response"@),
        },
{
    let length: usize = match header {
        Some(value) => match text::parse_u64(value.as_str()) {
            Some(length) => if length <= usize::MAX as u64 {
                length as usize
            } else {
                0
            },
            None => 0,
        },
        None => 0,
    };
    if length == 0 {
        return Err(ClientError::Other("No content in response".to_owned()));
    }
    Ok(length)
}

/// Accepts a body of as many bytes as were announced.
pub fn cast_body(announced: usize, read: usize) -> (res: Result<(), ClientError>)
    ensures
        match res {
            Ok(_) => read == announced,
            Err(error) => read != announced && error@ == ClientErrorView::Other(
                "Failed to read the entire response"@,
            ),
        },
{
    if read != announced {
        return Err(ClientError::Other("Failed to read the entire response".to_owned()));
    }
    Ok(())
}

/// A status tells of an error exactly if it is one of the client's or the
/// server's.
pub proof fn an_error_has_its_class(status: u16)
    ensures
        error_status(status) <==> status / 100 == 4 || status / 100 == 5,
{
}

/// The length that a response announces is the one that is read; where none is
/// announced there is nothing to read.
pub proof fn an_announced_length_is_read(length: u64)
    requires
        length <= usize::MAX,
    ensures
        announced_length(Some(text::decimal(length as nat))) == length,
        announced_length(None) == 0,
{
    text::decimal_round_trip(length);
}

} // verus!
