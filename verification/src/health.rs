//! Checking a core's health by asking its controller for the version.

use crate::clash;
use crate::clash::Client;
use crate::error::{Error, ErrorView};
use crate::host::Url;
use crate::platform::Platform;
use crate::share::copy_text;
use crate::spec::ResolvedController;
use vstd::prelude::*;
use vstd::string::*;

verus! {

/// A client of a controller: where it sends its requests, the secret that goes
/// with them, and how long one may take.
#[derive(Debug, PartialEq, Eq)]
pub struct ControllerClient {
    pub client: Client,
    pub secret: Option<String>,
    pub timeout_ms: u64,
}

/// Whether `result` is the client of a controller with a request timeout, on
/// `platform`, which names itself `os`.
pub open spec fn controls(
    result: Result<ControllerClient, Error>,
    controller: ResolvedController,
    timeout_ms: u64,
    platform: Platform,
    os: Seq<char>,
) -> bool {
    match (result, clash::client_for(controller.host@, platform, os)) {
        (Ok(built), Ok(client)) => built.client@ == client && built.secret == controller.secret
            && built.timeout_ms == timeout_ms,
        (Err(error), Err(cause)) => error@ == ErrorView::Api(cause.text()),
        _ => false,
    }
}

/// The client that probes a controller, whose requests take a second at most.
pub fn build_health_client(controller: &ResolvedController, platform: Platform, os: &str) -> (res:
    Result<ControllerClient, Error>)
    ensures
        controls(res, *controller, 1000, platform, os@),
{
    build_control_client(controller, 1000, platform, os)
}

/// The client that changes a core through its controller.
pub fn build_control_client(
    controller: &ResolvedController,
    timeout_ms: u64,
    platform: Platform,
    os: &str,
) -> (res: Result<ControllerClient, Error>)
    ensures
        controls(res, *controller, timeout_ms, platform, os@),
{
    match Client::new(controller.host.clone(), platform, os) {
        Ok(client) => Ok(
            ControllerClient { client, secret: copy_text(&controller.secret), timeout_ms },
        ),
        Err(error) => Err(Error::Api(error.message())),
    }
}

/// The check of one core.
#[derive(Debug, PartialEq, Eq)]
pub struct HealthCheck {
    pub client: ControllerClient,
}

impl HealthCheck {
    /// The check of the core behind a controller.
    pub fn new(controller: &ResolvedController, platform: Platform, os: &str) -> (res: Result<
        Self,
        Error,
    >)
        ensures
            controls(
                match res {
                    Ok(check) => Ok(check.client),
                    Err(error) => Err(error),
                },
                *controller,
                1000,
                platform,
                os@,
            ),
    {
        match build_health_client(controller, platform, os) {
            Ok(client) => Ok(HealthCheck { client }),
            Err(error) => Err(error),
        }
    }

    /// Where the version is asked for.
    pub fn version_url(&self) -> (res: Result<Url, clash::Error>)
        ensures
            clash::settled_as(
                res,
                clash::endpoint_url(self.client.client.base_url@, "/version"@),
            ),
    {
        self.client.client.endpoint("/version")
    }
}

} // verus!
