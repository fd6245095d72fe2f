//! What the service and its clients say to each other.

pub mod client;
pub mod events;
pub mod server;
pub mod stream;

use crate::platform::Platform;
use crate::share::copy_text;
use crate::state;
use crate::text;
use vstd::prelude::*;
use vstd::string::*;

verus! {

/// The endpoint that starts the core.
pub const CORE_START_ENDPOINT: &'static str = "/core/start";

/// The endpoint that stops the core.
pub const CORE_STOP_ENDPOINT: &'static str = "/core/stop";

/// The endpoint that tells the status.
pub const STATUS_ENDPOINT: &'static str = "/status";

/// Whether a request went well.
#[derive(Debug, Clone, Copy, PartialEq, Eq, Structural)]
pub enum ResponseCode {
    Success,
    OtherError,
}

impl Default for ResponseCode {
    fn default() -> (res: Self)
        ensures
            res == ResponseCode::Success,
    {
        ResponseCode::Success
    }
}

impl ResponseCode {
    /// The message that goes with a code by itself.
    pub open spec fn text(self) -> Seq<char> {
        match self {
            ResponseCode::Success => "ok"@,
            ResponseCode::OtherError => "other error"@,
        }
    }

    /// The name of the code.
    pub open spec fn name(self) -> Seq<char> {
        match self {
            ResponseCode::Success => "Ok"@,
            ResponseCode::OtherError => "OtherError"@,
        }
    }

    /// The message that goes with a code by itself.
    pub fn msg(&self) -> (res: &'static str)
        ensures
            res@ == self.text(),
    {
        match self {
            ResponseCode::Success => "ok",
            ResponseCode::OtherError => "other error",
        }
    }

    /// The number of the code.
    pub fn code(&self) -> (res: i32)
        ensures
            res == match *self {
                ResponseCode::Success => 0i32,
                ResponseCode::OtherError => -1i32,
            },
    {
        match self {
            ResponseCode::Success => 0,
            ResponseCode::OtherError => -1,
        }
    }
}

/// The envelope of every response.
#[derive(Debug, PartialEq, Eq)]
pub struct R<T> {
    pub code: ResponseCode,
    pub msg: String,
    pub data: Option<T>,
    pub ts: i64,
}

impl<T> R<T> {
    /// The envelope of a request that went well, at time `ts`.
    pub fn success(data: T, ts: i64) -> (res: Self)
        ensures
            res.code == ResponseCode::Success,
            res.msg@ == ResponseCode::Success.text(),
            res.data == Some(data),
            res.ts == ts,
    {
        R { code: ResponseCode::Success, msg: ResponseCode::Success.msg().to_owned(), data: Some(data), ts }
    }

    /// The envelope of a request that failed with `msg`, at time `ts`.
    pub fn other_error(msg: &str, ts: i64) -> (res: Self)
        ensures
            res.code == ResponseCode::OtherError,
            res.msg@ == msg@,
            res.data is None,
            res.ts == ts,
    {
        R { code: ResponseCode::OtherError, msg: msg.to_owned(), data: None, ts }
    }
}

/// A Clash-family core, with its release channel.
#[derive(Debug, Clone, Copy, PartialEq, Eq, Structural)]
pub enum ClashCoreType {
    Mihomo,
    MihomoAlpha,
    ClashRust,
    ClashRustAlpha,
    ClashPremium,
    Meow,
}

/// A core that a client can ask for.
#[derive(Debug, Clone, Copy, PartialEq, Eq, Structural)]
pub enum CoreType {
    Clash(ClashCoreType),
    SingBox,
}

/// A request to start a core.
#[derive(Debug, PartialEq, Eq)]
pub struct CoreStartReq {
    pub core_type: CoreType,
    pub config_file: String,
}

/// A request about the core that needs no more words.
#[derive(Debug, Clone, Copy, PartialEq, Eq, Structural)]
pub struct CoreReq {}

/// A request for the status.
#[derive(Debug, Clone, Copy, PartialEq, Eq, Structural)]
pub struct StatusReq {}

/// The state of the core as clients see it.
#[derive(Debug, PartialEq, Eq)]
pub enum CoreState {
    Running,
    Stopped(Option<String>),
}

/// The content of a [`CoreState`].
pub enum CoreStateView {
    Running,
    Stopped(Option<Seq<char>>),
}

impl View for CoreState {
    type V = CoreStateView;

    open spec fn view(&self) -> CoreStateView {
        match *self {
            CoreState::Running => CoreStateView::Running,
            CoreState::Stopped(reason) => CoreStateView::Stopped(state::text_of(reason)),
        }
    }
}

impl Clone for CoreState {
    fn clone(&self) -> (res: Self)
        ensures
            res == *self,
    {
        match self {
            CoreState::Running => CoreState::Running,
            CoreState::Stopped(reason) => CoreState::Stopped(copy_text(reason)),
        }
    }
}

impl Default for CoreState {
    fn default() -> (res: Self)
        ensures
            res == CoreState::Stopped(None),
    {
        CoreState::Stopped(None)
    }
}

/// What clients learn of the core.
#[derive(Debug, PartialEq, Eq)]
pub struct CoreInfos {
    pub core_type: Option<CoreType>,
    pub state: CoreState,
    pub state_changed_at: i64,
    pub config_path: Option<String>,
}

/// Where the service and its program keep their files.
#[derive(Debug, PartialEq, Eq)]
pub struct RuntimeInfos {
    pub service_data_dir: String,
    pub service_config_dir: String,
    pub nyanpasu_config_dir: String,
    pub nyanpasu_data_dir: String,
}

/// The answer to a request for the status.
#[derive(Debug, PartialEq, Eq)]
pub struct StatusResBody {
    pub version: String,
    pub core_infos: CoreInfos,
    pub runtime_infos: RuntimeInfos,
}

/// Whether the service is there and runs.
#[derive(Debug, Clone, Copy, PartialEq, Eq, Structural)]
pub enum ServiceStatus {
    NotInstalled,
    Stopped,
    Running,
}

/// What a client knows of the service.
#[derive(Debug, PartialEq, Eq)]
pub struct StatusInfo {
    /// The name of the client program.
    pub name: String,
    /// The version of the client program.
    pub version: String,
    pub status: ServiceStatus,
    pub server: Option<StatusResBody>,
}

/// The local endpoint that a placeholder stands for, on `platform`.
pub open spec fn local_name(platform: Platform, placeholder: Seq<char>) -> Seq<char> {
    match platform {
        Platform::Windows => "\\\\.\\pipe\\"@ + placeholder,
        Platform::Unix => "/var/run/"@ + placeholder + ".sock"@,
    }
}

/// The local endpoint that a placeholder stands for, on `platform`.
pub fn get_name_string(platform: Platform, placeholder: &str) -> (res: String)
    ensures
        res@ == local_name(platform, placeholder@),
{
    match platform {
        Platform::Windows => text::concat("\\\\.\\pipe\\", placeholder),
        Platform::Unix => text::concat3("/var/run/", placeholder, ".sock"),
    }
}

/// Every placeholder has an endpoint of its own, which holds it.
pub proof fn each_placeholder_has_its_endpoint(platform: Platform, a: Seq<char>, b: Seq<char>)
    ensures
        local_name(platform, a) == local_name(platform, b) ==> a == b,
        local_name(Platform::Windows, a).skip("\\\\.\\pipe\\"@.len() as int) == a,
        local_name(Platform::Unix, a).subrange(
            "/var/run/"@.len() as int,
            ("/var/run/"@.len() + a.len()) as int,
        ) == a,
{
    assert(local_name(Platform::Windows, a).skip("\\\\.\\pipe\\"@.len() as int) =~= a);
    assert(local_name(Platform::Windows, b).skip("\\\\.\\pipe\\"@.len() as int) =~= b);
    let lead = "/var/run/"@.len() as int;
    assert(local_name(Platform::Unix, a).subrange(lead, lead + a.len()) =~= a);
    assert(local_name(Platform::Unix, b).subrange(lead, lead + b.len()) =~= b);
    if local_name(Platform::Unix, a) == local_name(Platform::Unix, b) {
        assert(local_name(Platform::Unix, a).len() == lead + a.len() + ".sock"@.len());
        assert(local_name(Platform::Unix, b).len() == lead + b.len() + ".sock"@.len());
    }
}

} // verus!
