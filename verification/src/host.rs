//! Where a core's external controller can be reached.

use crate::share::copy_text;
use vstd::prelude::*;

verus! {

/// An absolute URL in its serialised form, with the parts that decide how it
/// can be used.
#[derive(Debug, PartialEq, Eq)]
pub struct Url {
    pub text: String,
    pub scheme: String,
    pub host: Option<String>,
    /// The port, if it is not the default one of the scheme.
    pub port: Option<u16>,
    pub path: String,
    pub cannot_be_a_base: bool,
    pub has_query: bool,
    pub has_fragment: bool,
}

impl Clone for Url {
    fn clone(&self) -> (res: Self)
        ensures
            res == *self,
    {
        Url {
            text: self.text.clone(),
            scheme: self.scheme.clone(),
            host: copy_text(&self.host),
            port: self.port,
            path: self.path.clone(),
            cannot_be_a_base: self.cannot_be_a_base,
            has_query: self.has_query,
            has_fragment: self.has_fragment,
        }
    }
}

/// A controller endpoint.
#[derive(Debug, PartialEq, Eq)]
pub enum Host {
    NamedPipe(String),
    UnixSocket(String),
    Http(Url),
}

impl Clone for Host {
    fn clone(&self) -> (res: Self)
        ensures
            res == *self,
    {
        match self {
            Host::NamedPipe(path) => Host::NamedPipe(path.clone()),
            Host::UnixSocket(path) => Host::UnixSocket(path.clone()),
            Host::Http(url) => Host::Http(url.clone()),
        }
    }
}

} // verus!
