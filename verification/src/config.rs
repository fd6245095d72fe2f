//! Runtime configs: what they say of the controller and the DNS listener, and
//! how a managed config is derived from one.

use crate::clash;
use crate::error::{Error, ErrorView};
use crate::host::Host;
use crate::path;
use crate::platform::Platform;
use crate::runtime_store;
use crate::spec::ResolvedController;
use crate::state;
use crate::text;
use crate::yaml;
use crate::yaml::{Field, Node, Scalar};
use serde_yaml_ng::Mapping;
use vstd::prelude::*;
use vstd::string::*;

verus! {

/// Where a config puts its controller.
#[derive(Debug, PartialEq, Eq)]
pub enum RawController {
    Pipe(String),
    Unix(String),
    Http(String),
}

/// The content of a [`RawController`].
pub enum RawControllerView {
    Pipe(Seq<char>),
    Unix(Seq<char>),
    Http(Seq<char>),
}

impl View for RawController {
    type V = RawControllerView;

    open spec fn view(&self) -> RawControllerView {
        match *self {
            RawController::Pipe(path) => RawControllerView::Pipe(path@),
            RawController::Unix(path) => RawControllerView::Unix(path@),
            RawController::Http(address) => RawControllerView::Http(address@),
        }
    }
}

/// What the manager needs to know of a config.
#[derive(Debug, PartialEq, Eq)]
pub struct ConfigInfo {
    pub controller: Option<RawController>,
    pub secret: Option<String>,
    pub has_dns_listen: bool,
}

/// The content of a [`ConfigInfo`].
pub struct ConfigInfoView {
    pub controller: Option<RawControllerView>,
    pub secret: Option<Seq<char>>,
    pub has_dns_listen: bool,
}

impl View for ConfigInfo {
    type V = ConfigInfoView;

    open spec fn view(&self) -> ConfigInfoView {
        ConfigInfoView {
            controller: match self.controller {
                Some(controller) => Some(controller@),
                None => None,
            },
            secret: state::text_of(self.secret),
            has_dns_listen: self.has_dns_listen,
        }
    }
}

/// The text under `key`, if there is one that is not empty.
pub open spec fn text_entry(map: Map<Seq<char>, Node>, key: Seq<char>) -> Option<Seq<char>> {
    if map.dom().contains(key) {
        match map[key] {
            Node::Text(value) => if value.len() > 0 {
                Some(value)
            } else {
                None
            },
            _ => None,
        }
    } else {
        None
    }
}

fn str_value(document: &Mapping, key: &str) -> (res: Option<String>)
    ensures
        state::text_of(res) == text_entry(yaml::entries(*document), key@),
{
    match yaml::field(document, key) {
        Field::Text(value) => if value.as_str().is_empty() {
            None
        } else {
            Some(value)
        },
        _ => None,
    }
}

/// What a config with these entries says, on `platform`: the local endpoint
/// comes before the HTTP one.
pub open spec fn config_info(map: Map<Seq<char>, Node>, platform: Platform) -> ConfigInfoView {
    let local = match platform {
        Platform::Windows => match text_entry(map, "external-controller-pipe"@) {
            Some(path) => Some(RawControllerView::Pipe(path)),
            None => None,
        },
        Platform::Unix => match text_entry(map, "external-controller-unix"@) {
            Some(path) => Some(RawControllerView::Unix(path)),
            None => None,
        },
    };
    ConfigInfoView {
        controller: if local is Some {
            local
        } else {
            match text_entry(map, "external-controller"@) {
                Some(address) => Some(RawControllerView::Http(address)),
                None => None,
            }
        },
        secret: text_entry(map, "secret"@),
        has_dns_listen: map.dom().contains("dns"@) && map["dns"@] is Table && text_entry(
            map["dns"@]->Table_0,
            "listen"@,
        ) is Some,
    }
}

/// Reads what the manager needs to know from a config, on `platform`.
pub fn inspect_mapping(document: &Mapping, platform: Platform) -> (res: ConfigInfo)
    ensures
        res@ == config_info(yaml::entries(*document), platform),
{
    let local: Option<RawController> = match platform {
        Platform::Windows => match str_value(document, "external-controller-pipe") {
            Some(path) => Some(RawController::Pipe(path)),
            None => None,
        },
        Platform::Unix => match str_value(document, "external-controller-unix") {
            Some(path) => Some(RawController::Unix(path)),
            None => None,
        },
    };
    let controller: Option<RawController> = match local {
        Some(local) => Some(local),
        None => match str_value(document, "external-controller") {
            Some(address) => Some(RawController::Http(address)),
            None => None,
        },
    };
    let has_dns_listen: bool = match yaml::table(document, "dns") {
        Some(dns) => str_value(dns, "listen").is_some(),
        None => false,
    };
    ConfigInfo { controller, secret: str_value(document, "secret"), has_dns_listen }
}

/// Reads the text of a config.
pub fn load(raw: &str) -> (res: Result<Mapping, Error>)
    ensures
        match (res, yaml::parsed(raw@)) {
            (Ok(document), Ok(map)) => yaml::entries(document) == map,
            (Err(error), Err(message)) => error@ == ErrorView::Yaml(message),
            _ => false,
        },
{
    match yaml::parse(raw) {
        Ok(document) => Ok(document),
        Err(message) => Err(Error::Yaml(message)),
    }
}

/// Reads what the manager needs to know from the text of a config, on
/// `platform`.
pub fn inspect(raw: &str, platform: Platform) -> (res: Result<ConfigInfo, Error>)
    ensures
        match (res, yaml::parsed(raw@)) {
            (Ok(info), Ok(map)) => info@ == config_info(map, platform),
            (Err(error), Err(message)) => error@ == ErrorView::Yaml(message),
            _ => false,
        },
{
    match load(raw) {
        Ok(document) => Ok(inspect_mapping(&document, platform)),
        Err(error) => Err(error),
    }
}

/// Whether a host part stands for every address of the machine.
pub open spec fn wildcard(host: Seq<char>) -> bool {
    host == "0.0.0.0"@ || host == "::"@ || host == "[::]"@ || host == ""@
}

/// The address to probe for a bind address: the loopback one where the bind
/// address stands for every address of the machine.
pub open spec fn probed(address: Seq<char>) -> Seq<char> {
    match text::rfind(address, ':') {
        Some(at) => if wildcard(address.take(at)) {
            "127.0.0.1:"@ + address.skip(at + 1)
        } else {
            address
        },
        None => address,
    }
}

/// `0.0.0.0:9090`, `:9090`, and `[::]:9090` are bind addresses; they are probed
/// on the loopback.
pub fn probe_address(address: &str) -> (res: String)
    ensures
        res@ == probed(address@),
{
    proof {
        text::lemma_rfind_before(address@, ':', address@.len() as int);
    }
    match text::last_position(address, ':') {
        Some(at) => {
            let host: String = text::slice(address, 0, at);
            assert(host@ =~= address@.take(at as int));
            if text::same_text(host.as_str(), "0.0.0.0") || text::same_text(host.as_str(), "::")
                || text::same_text(host.as_str(), "[::]") || text::same_text(host.as_str(), "") {
                let total: usize = text::chars_of(address).len();
                let port: String = text::slice(address, at + 1, total);
                assert(port@ =~= address@.skip(at + 1));
                text::concat("127.0.0.1:", port.as_str())
            } else {
                address.to_owned()
            }
        },
        None => address.to_owned(),
    }
}

/// Probing the probed address leads no further.
pub proof fn probing_is_idempotent(address: Seq<char>)
    ensures
        probed(probed(address)) == probed(address),
{
    reveal_strlit("127.0.0.1:");
    reveal_strlit("0.0.0.0");
    reveal_strlit("::");
    reveal_strlit("[::]");
    reveal_strlit("");
    text::lemma_rfind_before(address, ':', address.len() as int);
    if let Some(at) = text::rfind(address, ':') {
        if wildcard(address.take(at)) {
            let port = address.skip(at + 1);
            let res = "127.0.0.1:"@ + port;
            assert forall|j: int| 0 <= j < port.len() implies #[trigger] port[j] != ':' by {
                assert(port[j] == address[at + 1 + j]);
            }
            text::lemma_rfind_before(res, ':', res.len() as int);
            assert(res[9] == ':');
            let last = text::rfind(res, ':')->0;
            if last > 9 {
                assert(res[last] == port[last - 10]);
            }
            assert(last == 9);
            assert(res.take(9)[0] == '1');
            assert("0.0.0.0"@[0] == '0');
            assert("::"@[0] == ':');
            assert("[::]"@[0] == '[');
            assert(""@.len() == 0);
            assert(!wildcard(res.take(9)));
        }
    }
}

/// The endpoint that a config's controller is reached at.
pub open spec fn resolved(info: ConfigInfoView) -> Result<clash::HostView, ErrorView> {
    match info.controller {
        None => Err(ErrorView::ControllerMissing),
        Some(RawControllerView::Pipe(path)) => Ok(clash::HostView::NamedPipe(path)),
        Some(RawControllerView::Unix(path)) => Ok(clash::HostView::UnixSocket(path)),
        Some(RawControllerView::Http(address)) => match clash::http_address(probed(address)) {
            Ok(url) => Ok(clash::HostView::Http(url)),
            Err(error) => Err(ErrorView::Api(error.text())),
        },
    }
}

/// Resolves the controller of a config; a config without one cannot be managed.
pub fn resolve_controller(info: &ConfigInfo) -> (res: Result<ResolvedController, Error>)
    ensures
        match (res, resolved(info@)) {
            (Ok(controller), Ok(host)) => controller.host@ == host && controller.secret
                == info.secret,
            (Err(error), Err(expected)) => error@ == expected,
            _ => false,
        },
{
    let host: Host = match &info.controller {
        None => {
            return Err(Error::ControllerMissing);
        },
        Some(RawController::Pipe(path)) => Host::named_pipe(path.as_str()),
        Some(RawController::Unix(path)) => Host::unix_socket(path.as_str()),
        Some(RawController::Http(address)) => {
            let probe: String = probe_address(address.as_str());
            match Host::http(probe.as_str()) {
                Ok(host) => host,
                Err(error) => {
                    return Err(Error::Api(error.message()));
                },
            }
        },
    };
    Ok(ResolvedController { host, secret: crate::share::copy_text(&info.secret) })
}

/// How far a derived config departs from the caller's.
#[derive(Debug, Clone, Copy, PartialEq, Eq, Structural)]
pub enum DeriveMode {
    /// Only the controller keys are rewritten.
    ControllerOnly,
    /// Every listener is disabled too, so that the new core can start beside
    /// the old one.
    ZeroListeners,
}

/// What has to be switched on again after the old core is gone.
#[derive(Debug, Clone, Copy, PartialEq, Eq, Structural)]
pub struct RestorePlan {
    pub port: Option<i64>,
    pub socks_port: Option<i64>,
    pub redir_port: Option<i64>,
    pub tproxy_port: Option<i64>,
    pub mixed_port: Option<i64>,
    pub tun_enabled: bool,
}

/// A change of the TUN section through the controller.
#[derive(Debug, Clone, Copy, PartialEq, Eq, Structural)]
pub struct TunPatch {
    pub enable: bool,
}

/// A change of the running config through the controller. What is not set is
/// left as it is.
#[derive(Debug, Clone, Copy, PartialEq, Eq, Structural)]
pub struct ConfigPatch {
    pub port: Option<i64>,
    pub socks_port: Option<i64>,
    pub redir_port: Option<i64>,
    pub tproxy_port: Option<i64>,
    pub mixed_port: Option<i64>,
    pub tun: Option<TunPatch>,
}

/// The plan that restores nothing.
pub open spec fn empty_plan() -> RestorePlan {
    RestorePlan {
        port: None,
        socks_port: None,
        redir_port: None,
        tproxy_port: None,
        mixed_port: None,
        tun_enabled: false,
    }
}

impl Default for RestorePlan {
    fn default() -> (res: Self)
        ensures
            res == empty_plan(),
    {
        RestorePlan {
            port: None,
            socks_port: None,
            redir_port: None,
            tproxy_port: None,
            mixed_port: None,
            tun_enabled: false,
        }
    }
}

impl RestorePlan {
    /// The patch that carries out the plan.
    pub fn to_patch(&self) -> (res: ConfigPatch)
        ensures
            res == (ConfigPatch {
                port: self.port,
                socks_port: self.socks_port,
                redir_port: self.redir_port,
                tproxy_port: self.tproxy_port,
                mixed_port: self.mixed_port,
                tun: if self.tun_enabled {
                    Some(TunPatch { enable: true })
                } else {
                    None
                },
            }),
    {
        ConfigPatch {
            port: self.port,
            socks_port: self.socks_port,
            redir_port: self.redir_port,
            tproxy_port: self.tproxy_port,
            mixed_port: self.mixed_port,
            tun: if self.tun_enabled {
                Some(TunPatch { enable: true })
            } else {
                None
            },
        }
    }

    /// Whether the plan restores nothing.
    pub fn is_empty(&self) -> (res: bool)
        ensures
            res == (*self == empty_plan()),
    {
        self.port.is_none() && self.socks_port.is_none() && self.redir_port.is_none()
            && self.tproxy_port.is_none() && self.mixed_port.is_none() && !self.tun_enabled
    }
}

/// `text` with every occurrence of `mark` replaced, from left to right.
pub open spec fn replaced(text: Seq<char>, mark: Seq<char>, by: Seq<char>) -> Seq<char>
    decreases text.len(),
{
    match text::find(text, mark) {
        Some(at) => if mark.len() > 0 && 0 <= at && at + mark.len() <= text.len() {
            text.take(at) + by + replaced(text.skip(at + mark.len()), mark, by)
        } else {
            text
        },
        None => text,
    }
}

fn replace_all(template: &str, mark: &str, by: &str) -> (res: String)
    requires
        mark@.len() > 0,
    ensures
        res@ == replaced(template@, mark@, by@),
{
    let width: usize = text::chars_of(mark).len();
    let mut rest: String = template.to_owned();
    let mut res: String = String::new();
    assert(res@ + replaced(rest@, mark@, by@) =~= replaced(template@, mark@, by@));
    loop
        invariant
            width == mark@.len(),
            width > 0,
            res@ + replaced(rest@, mark@, by@) == replaced(template@, mark@, by@),
        ensures
            res@ + rest@ == replaced(template@, mark@, by@),
        decreases rest@.len(),
    {
        proof {
            text::lemma_find_from(rest@, mark@, 0);
        }
        match text::position(rest.as_str(), mark) {
            Some(at) => {
                let ghost before = res@;
                let ghost whole = rest@;
                let total: usize = text::chars_of(rest.as_str()).len();
                let head: String = text::slice(rest.as_str(), 0, at);
                let tail: String = text::slice(rest.as_str(), at + width, total);
                assert(head@ =~= whole.take(at as int));
                assert(tail@ =~= whole.skip(at + width));
                res.append(head.as_str());
                res.append(by);
                rest = tail;
                assert(res@ + replaced(rest@, mark@, by@) =~= before + replaced(whole, mark@, by@));
            },
            None => {
                break;
            },
        }
    }
    res.append(rest.as_str());
    res
}

/// Whether `endpoint` is the local endpoint of `epoch`: the template filled in,
/// or the default of `platform`.
pub open spec fn endpoint_of(
    platform: Platform,
    derived_dir: Seq<char>,
    template: Option<Seq<char>>,
    epoch: u64,
    endpoint: Seq<char>,
) -> bool {
    match template {
        Some(template) => endpoint == replaced(template, "{epoch}"@, text::decimal(epoch as nat)),
        None => match platform {
            Platform::Windows => endpoint == "\\\\.\\pipe\\nyanpasu\\core-"@ + text::decimal(
                epoch as nat,
            ),
            Platform::Unix => endpoint == path::slash_joined(
                derived_dir,
                runtime_store::socket_name(epoch),
            ),
        },
    }
}

/// The local endpoint of an epoch.
pub fn managed_endpoint_path(
    platform: Platform,
    derived_dir: &str,
    template: &Option<String>,
    epoch: u64,
) -> (res: String)
    ensures
        endpoint_of(platform, derived_dir@, state::text_of(*template), epoch, res@),
{
    let digits: String = text::decimal_text(epoch);
    if let Some(template) = template {
        proof {
            reveal_strlit("{epoch}");
        }
        return replace_all(template.as_str(), "{epoch}", digits.as_str());
    }
    match platform {
        Platform::Windows => text::concat("\\\\.\\pipe\\nyanpasu\\core-", digits.as_str()),
        Platform::Unix => {
            let name: String = text::concat3("core-", digits.as_str(), ".sock");
            path::join_slash(derived_dir, name.as_str())
        },
    }
}

/// The port under `key` that is in use: an integer other than 0.
pub open spec fn port_in_use(map: Map<Seq<char>, Node>, key: Seq<char>) -> Option<i64> {
    if map.dom().contains(key) {
        match map[key] {
            Node::Integer(value) => if value != 0 {
                Some(value)
            } else {
                None
            },
            _ => None,
        }
    } else {
        None
    }
}

/// The entries with the listener under `key` disabled.
pub open spec fn zeroed(map: Map<Seq<char>, Node>, key: Seq<char>) -> Map<Seq<char>, Node> {
    if port_in_use(map, key) is Some {
        map.insert(key, Node::Integer(0))
    } else {
        map
    }
}

/// Disables the listener under `key`. Gives the port it had.
fn zero_listener(document: &mut Mapping, key: &str) -> (res: Option<i64>)
    ensures
        res == port_in_use(yaml::entries(*old(document)), key@),
        yaml::entries(*final(document)) == zeroed(yaml::entries(*old(document)), key@),
{
    match yaml::field(document, key) {
        Field::Integer(value) => {
            if value != 0 {
                yaml::put(document, key, Scalar::Integer(0));
                Some(value)
            } else {
                None
            }
        },
        _ => None,
    }
}

/// Whether the TUN device is enabled.
pub open spec fn tun_on(map: Map<Seq<char>, Node>) -> bool {
    map.dom().contains("tun"@) && match map["tun"@] {
        Node::Table(tun) => tun.dom().contains("enable"@) && tun["enable"@] == Node::Flag(true),
        _ => false,
    }
}

/// The entries with the TUN device disabled.
pub open spec fn tun_off(map: Map<Seq<char>, Node>) -> Map<Seq<char>, Node> {
    if tun_on(map) {
        map.insert(
            "tun"@,
            Node::Table(map["tun"@]->Table_0.insert("enable"@, Node::Flag(false))),
        )
    } else {
        map
    }
}

fn disable_tun(document: &mut Mapping) -> (res: bool)
    ensures
        res == tun_on(yaml::entries(*old(document))),
        yaml::entries(*final(document)) == tun_off(yaml::entries(*old(document))),
{
    let enabled: bool = match yaml::table(document, "tun") {
        Some(tun) => match yaml::field(tun, "enable") {
            Field::Flag(value) => value,
            _ => false,
        },
        None => false,
    };
    if enabled {
        yaml::put_in_table(document, "tun", "enable", false);
    }
    enabled
}

/// The entries with every listener disabled.
pub open spec fn silenced(map: Map<Seq<char>, Node>) -> Map<Seq<char>, Node> {
    tun_off(
        zeroed(
            zeroed(
                zeroed(
                    zeroed(zeroed(map, "port"@), "socks-port"@),
                    "redir-port"@,
                ),
                "tproxy-port"@,
            ),
            "mixed-port"@,
        ),
    )
}

/// The plan that undoes [`silenced`].
pub open spec fn plan_for(map: Map<Seq<char>, Node>) -> RestorePlan {
    RestorePlan {
        port: port_in_use(map, "port"@),
        socks_port: port_in_use(map, "socks-port"@),
        redir_port: port_in_use(map, "redir-port"@),
        tproxy_port: port_in_use(map, "tproxy-port"@),
        mixed_port: port_in_use(map, "mixed-port"@),
        tun_enabled: tun_on(map),
    }
}

proof fn lemma_listener_keys()
    ensures
        "port"@ != "socks-port"@,
        "port"@ != "redir-port"@,
        "port"@ != "tproxy-port"@,
        "port"@ != "mixed-port"@,
        "port"@ != "tun"@,
        "socks-port"@ != "redir-port"@,
        "socks-port"@ != "tproxy-port"@,
        "socks-port"@ != "mixed-port"@,
        "socks-port"@ != "tun"@,
        "redir-port"@ != "tproxy-port"@,
        "redir-port"@ != "mixed-port"@,
        "redir-port"@ != "tun"@,
        "tproxy-port"@ != "mixed-port"@,
        "tproxy-port"@ != "tun"@,
        "mixed-port"@ != "tun"@,
{
    reveal_strlit("port");
    reveal_strlit("socks-port");
    reveal_strlit("redir-port");
    reveal_strlit("tproxy-port");
    reveal_strlit("mixed-port");
    reveal_strlit("tun");
    assert("port"@.len() == 4);
    assert("tun"@.len() == 3);
    assert("tproxy-port"@.len() == 11);
    assert("socks-port"@.len() == 10);
    assert("redir-port"@.len() == 10);
    assert("mixed-port"@.len() == 10);
    assert("socks-port"@[0] == 's');
    assert("redir-port"@[0] == 'r');
    assert("mixed-port"@[0] == 'm');
}

/// The key of the local controller on `platform`.
pub open spec fn local_key(platform: Platform) -> Seq<char> {
    match platform {
        Platform::Windows => "external-controller-pipe"@,
        Platform::Unix => "external-controller-unix"@,
    }
}

/// The entries with nothing but the local controller at `endpoint`.
pub open spec fn controlled(
    map: Map<Seq<char>, Node>,
    platform: Platform,
    endpoint: Seq<char>,
) -> Map<Seq<char>, Node> {
    map.remove("external-controller"@).remove("external-controller-pipe"@).remove(
        "external-controller-unix"@,
    ).insert(local_key(platform), Node::Text(endpoint))
}

/// The entries of a derived config.
pub open spec fn derived(
    map: Map<Seq<char>, Node>,
    mode: DeriveMode,
    platform: Platform,
    endpoint: Seq<char>,
) -> Map<Seq<char>, Node> {
    controlled(
        if mode == DeriveMode::ZeroListeners {
            silenced(map)
        } else {
            map
        },
        platform,
        endpoint,
    )
}

/// Rewrites a config for the manager: its controller becomes the local one at
/// `endpoint`, and for [`DeriveMode::ZeroListeners`] every listener is disabled
/// and remembered.
pub fn derive_mapping(
    document: &mut Mapping,
    mode: DeriveMode,
    platform: Platform,
    endpoint: &str,
) -> (res: (ResolvedController, RestorePlan))
    ensures
        yaml::entries(*final(document)) == derived(
            yaml::entries(*old(document)),
            mode,
            platform,
            endpoint@,
        ),
        res.0.host@ == match platform {
            Platform::Windows => clash::HostView::NamedPipe(endpoint@),
            Platform::Unix => clash::HostView::UnixSocket(endpoint@),
        },
        state::text_of(res.0.secret) == text_entry(yaml::entries(*old(document)), "secret"@),
        res.1 == if mode == DeriveMode::ZeroListeners {
            plan_for(yaml::entries(*old(document)))
        } else {
            empty_plan()
        },
{
    let ghost before = yaml::entries(*document);
    let mut restore: RestorePlan = RestorePlan::default();
    if mode == DeriveMode::ZeroListeners {
        restore.port = zero_listener(document, "port");
        restore.socks_port = zero_listener(document, "socks-port");
        restore.redir_port = zero_listener(document, "redir-port");
        restore.tproxy_port = zero_listener(document, "tproxy-port");
        restore.mixed_port = zero_listener(document, "mixed-port");
        restore.tun_enabled = disable_tun(document);
        proof {
            lemma_listener_keys();
        }
        assert(restore == plan_for(before));
    }
    yaml::remove(document, "external-controller");
    yaml::remove(document, "external-controller-pipe");
    yaml::remove(document, "external-controller-unix");
    let key: &str = match platform {
        Platform::Windows => "external-controller-pipe",
        Platform::Unix => "external-controller-unix",
    };
    yaml::put(document, key, Scalar::Text(endpoint.to_owned()));
    proof {
        lemma_secret_is_no_listener();
    }
    let secret: Option<String> = str_value(document, "secret");
    let host: Host = match platform {
        Platform::Windows => Host::named_pipe(endpoint),
        Platform::Unix => Host::unix_socket(endpoint),
    };
    (ResolvedController { host, secret }, restore)
}

proof fn lemma_secret_is_no_listener()
    ensures
        "secret"@ != "port"@,
        "secret"@ != "socks-port"@,
        "secret"@ != "redir-port"@,
        "secret"@ != "tproxy-port"@,
        "secret"@ != "mixed-port"@,
        "secret"@ != "tun"@,
        "secret"@ != "external-controller"@,
        "secret"@ != "external-controller-pipe"@,
        "secret"@ != "external-controller-unix"@,
{
    reveal_strlit("secret");
    reveal_strlit("port");
    reveal_strlit("socks-port");
    reveal_strlit("redir-port");
    reveal_strlit("tproxy-port");
    reveal_strlit("mixed-port");
    reveal_strlit("tun");
    reveal_strlit("external-controller");
    reveal_strlit("external-controller-pipe");
    reveal_strlit("external-controller-unix");
    assert("secret"@.len() == 6);
    assert("port"@.len() == 4);
    assert("socks-port"@.len() == 10);
    assert("redir-port"@.len() == 10);
    assert("tproxy-port"@.len() == 11);
    assert("mixed-port"@.len() == 10);
    assert("tun"@.len() == 3);
    assert("external-controller"@.len() == 19);
    assert("external-controller-pipe"@.len() == 24);
    assert("external-controller-unix"@.len() == 24);
}

/// A config that was derived for an epoch: its text, its controller, and what
/// has to be restored later.
#[derive(Debug, PartialEq, Eq)]
pub struct DerivedConfig {
    pub path: String,
    pub contents: String,
    pub controller: ResolvedController,
    pub restore: RestorePlan,
}

/// The file name of the derived config of an epoch.
pub open spec fn derived_name(epoch: u64) -> Seq<char> {
    "epoch-"@ + text::decimal(epoch as nat) + ".yaml"@
}

/// Derives the config of an epoch from the text of the caller's config. A text
/// that is no mapping, or a mapping that has no text, is an error.
pub fn derive(
    raw: &str,
    derived_dir: &str,
    template: &Option<String>,
    epoch: u64,
    mode: DeriveMode,
    platform: Platform,
) -> (res: Result<DerivedConfig, Error>)
    ensures
        yaml::parsed(raw@) matches Err(message) ==> res matches Err(error) && error@
            == ErrorView::Yaml(message),
        yaml::parsed(raw@) matches Ok(map) ==> exists|document: Mapping, endpoint: Seq<char>|
            #![trigger yaml::rendered(document), endpoint_of(platform, derived_dir@, state::text_of(*template), epoch, endpoint)]
            {
                &&& endpoint_of(
                    platform,
                    derived_dir@,
                    state::text_of(*template),
                    epoch,
                    endpoint,
                )
                &&& yaml::entries(document) == derived(map, mode, platform, endpoint)
                &&& match (res, yaml::rendered(document)) {
                    (Ok(config), Ok(contents)) => {
                        &&& config.contents@ == contents
                        &&& path::under(derived_dir@, derived_name(epoch), config.path@)
                        &&& platform == Platform::Unix ==> config.path@ == path::slash_joined(
                            derived_dir@,
                            derived_name(epoch),
                        )
                        &&& config.controller.host@ == match platform {
                            Platform::Windows => clash::HostView::NamedPipe(endpoint),
                            Platform::Unix => clash::HostView::UnixSocket(endpoint),
                        }
                        &&& state::text_of(config.controller.secret) == text_entry(map, "secret"@)
                        &&& config.restore == if mode == DeriveMode::ZeroListeners {
                            plan_for(map)
                        } else {
                            empty_plan()
                        }
                    },
                    (Err(error), Err(message)) => error@ == ErrorView::Yaml(message),
                    _ => false,
                }
            },
{
    let mut document: Mapping = match load(raw) {
        Ok(document) => document,
        Err(error) => {
            return Err(error);
        },
    };
    let endpoint: String = managed_endpoint_path(platform, derived_dir, template, epoch);
    let (controller, restore): (ResolvedController, RestorePlan) = derive_mapping(
        &mut document,
        mode,
        platform,
        endpoint.as_str(),
    );
    let digits: String = text::decimal_text(epoch);
    let name: String = text::concat3("epoch-", digits.as_str(), ".yaml");
    proof {
        runtime_store::derived_names_are_plain(epoch);
        path::a_slash_joins(derived_dir@, derived_name(epoch));
    }
    let path: String = match platform {
        Platform::Unix => path::join_slash(derived_dir, name.as_str()),
        Platform::Windows => path::join(derived_dir, name.as_str()),
    };
    match yaml::render(&document) {
        Ok(contents) => Ok(DerivedConfig { path, contents, controller, restore }),
        Err(message) => Err(Error::Yaml(message)),
    }
}

/// Whether `key` is one of those that deriving a config rewrites.
pub open spec fn rewritten(key: Seq<char>) -> bool {
    key == "port"@ || key == "socks-port"@ || key == "redir-port"@ || key == "tproxy-port"@ || key
        == "mixed-port"@ || key == "tun"@ || key == "external-controller"@ || key
        == "external-controller-pipe"@ || key == "external-controller-unix"@
}

/// Entries that have nothing to do with listeners and controllers survive as
/// they are.
pub proof fn unrelated_entries_survive(
    map: Map<Seq<char>, Node>,
    mode: DeriveMode,
    platform: Platform,
    endpoint: Seq<char>,
    key: Seq<char>,
)
    requires
        !rewritten(key),
    ensures
        derived(map, mode, platform, endpoint).dom().contains(key) <==> map.dom().contains(key),
        map.dom().contains(key) ==> derived(map, mode, platform, endpoint)[key] == map[key],
{
}

/// A derived config has the local controller and no other.
pub proof fn the_derived_controller_is_the_local_one(
    map: Map<Seq<char>, Node>,
    mode: DeriveMode,
    platform: Platform,
    endpoint: Seq<char>,
)
    requires
        endpoint.len() > 0,
    ensures
        ({
            let after = derived(map, mode, platform, endpoint);
            &&& !after.dom().contains("external-controller"@)
            &&& config_info(after, platform).controller == Some(
                match platform {
                    Platform::Windows => RawControllerView::Pipe(endpoint),
                    Platform::Unix => RawControllerView::Unix(endpoint),
                },
            )
            &&& match platform {
                Platform::Windows => !after.dom().contains("external-controller-unix"@),
                Platform::Unix => !after.dom().contains("external-controller-pipe"@),
            }
        }),
{
    reveal_strlit("external-controller");
    reveal_strlit("external-controller-pipe");
    reveal_strlit("external-controller-unix");
    assert("external-controller"@.len() == 19);
    assert("external-controller-pipe"@.len() == 24);
    assert("external-controller-unix"@.len() == 24);
    assert("external-controller-pipe"@[20] == 'p');
    assert("external-controller-unix"@[20] == 'u');
}

/// The entries after a restore plan was carried out on them.
pub open spec fn restored(map: Map<Seq<char>, Node>, plan: RestorePlan) -> Map<Seq<char>, Node> {
    let ports = reopened(
        reopened(
            reopened(
                reopened(
                    reopened(map, "port"@, plan.port),
                    "socks-port"@,
                    plan.socks_port,
                ),
                "redir-port"@,
                plan.redir_port,
            ),
            "tproxy-port"@,
            plan.tproxy_port,
        ),
        "mixed-port"@,
        plan.mixed_port,
    );
    if plan.tun_enabled {
        ports.insert(
            "tun"@,
            Node::Table(ports["tun"@]->Table_0.insert("enable"@, Node::Flag(true))),
        )
    } else {
        ports
    }
}

/// The entries with the listener under `key` open at `port` again, if there is
/// one to be opened.
pub open spec fn reopened(map: Map<Seq<char>, Node>, key: Seq<char>, port: Option<i64>) -> Map<
    Seq<char>,
    Node,
> {
    match port {
        Some(value) => map.insert(key, Node::Integer(value)),
        None => map,
    }
}

/// Every listener is off in a config that was silenced.
pub proof fn silenced_configs_listen_nowhere(map: Map<Seq<char>, Node>)
    ensures
        plan_for(silenced(map)) == empty_plan(),
{
    lemma_listener_keys();
}

/// Carrying out the restore plan gives back what the listeners were.
pub proof fn restoring_undoes_silencing(map: Map<Seq<char>, Node>)
    ensures
        restored(silenced(map), plan_for(map)) == map,
{
    lemma_listener_keys();
    let quiet = silenced(map);
    let back = restored(quiet, plan_for(map));
    if tun_on(map) {
        let tun = map["tun"@]->Table_0;
        assert(quiet["tun"@]->Table_0 == tun.insert("enable"@, Node::Flag(false)));
        assert(tun.insert("enable"@, Node::Flag(false)).insert("enable"@, Node::Flag(true)) =~= tun);
    }
    assert(back =~= map);
}

/// A listener that is open is closed by silencing, and its port is what the plan
/// keeps; one that is closed, or no number, is left alone.
pub proof fn an_open_port_is_closed_and_kept(map: Map<Seq<char>, Node>, key: Seq<char>, value: i64)
    requires
        map.dom().contains(key),
        map[key] == Node::Integer(value),
    ensures
        value != 0 ==> port_in_use(map, key) == Some(value),
        value == 0 ==> port_in_use(map, key) is None,
        zeroed(map, key).dom().contains(key) && zeroed(map, key)[key] == Node::Integer(0),
        zeroed(map, key).dom() == map.dom(),
        forall|other: Seq<char>|
            other != key && map.dom().contains(other) ==> #[trigger] zeroed(map, key)[other]
                == map[other],
{
    assert(zeroed(map, key).dom() =~= map.dom());
}

/// What is no number is not a listener that could be closed.
pub proof fn what_is_no_port_is_left_alone(map: Map<Seq<char>, Node>, key: Seq<char>)
    requires
        !map.dom().contains(key) || !(map[key] is Integer),
    ensures
        port_in_use(map, key) is None,
        zeroed(map, key) == map,
{
}

/// Every listener that was open is closed in a silenced config, whatever its
/// port, and the plan has its port; a tunnel that was on is off.
pub proof fn silencing_closes_every_listener(map: Map<Seq<char>, Node>, value: i64)
    requires
        value != 0,
    ensures
        ({
            let quiet = silenced(map);
            let plan = plan_for(map);
            &&& map.dom().contains("port"@) && map["port"@] == Node::Integer(value)
                ==> quiet["port"@] == Node::Integer(0) && plan.port == Some(value)
            &&& map.dom().contains("socks-port"@) && map["socks-port"@] == Node::Integer(value)
                ==> quiet["socks-port"@] == Node::Integer(0) && plan.socks_port == Some(value)
            &&& map.dom().contains("redir-port"@) && map["redir-port"@] == Node::Integer(value)
                ==> quiet["redir-port"@] == Node::Integer(0) && plan.redir_port == Some(value)
            &&& map.dom().contains("tproxy-port"@) && map["tproxy-port"@] == Node::Integer(value)
                ==> quiet["tproxy-port"@] == Node::Integer(0) && plan.tproxy_port == Some(value)
            &&& map.dom().contains("mixed-port"@) && map["mixed-port"@] == Node::Integer(value)
                ==> quiet["mixed-port"@] == Node::Integer(0) && plan.mixed_port == Some(value)
            &&& quiet.dom() == map.dom()
        }),
{
    lemma_listener_keys();
    assert(silenced(map).dom() =~= map.dom());
}

/// A tunnel that is on is turned off, and nothing else of it changes.
pub proof fn a_tunnel_is_turned_off(map: Map<Seq<char>, Node>, tun: Map<Seq<char>, Node>)
    requires
        map.dom().contains("tun"@),
        map["tun"@] == Node::Table(tun),
    ensures
        plan_for(map).tun_enabled <==> tun.dom().contains("enable"@) && tun["enable"@]
            == Node::Flag(true),
        plan_for(map).tun_enabled ==> silenced(map)["tun"@] == Node::Table(
            tun.insert("enable"@, Node::Flag(false)),
        ),
        !plan_for(map).tun_enabled ==> silenced(map)["tun"@] == Node::Table(tun),
{
    lemma_listener_keys();
}

/// A text entry is one that is there, is a text and says something.
pub proof fn a_text_entry_says_something(map: Map<Seq<char>, Node>, key: Seq<char>)
    ensures
        text_entry(map, key) matches Some(value) ==> value.len() > 0 && map.dom().contains(key)
            && map[key] == Node::Text(value),
        map.dom().contains(key) && map[key] is Text && map[key]->Text_0.len() > 0 ==> text_entry(
            map,
            key,
        ) == Some(map[key]->Text_0),
        text_entry(map, key) is None <==> !(map.dom().contains(key) && map[key] is Text
            && map[key]->Text_0.len() > 0),
{
}

/// The controller of the platform's own transport comes before one over HTTP,
/// the other platform's does not count, and there is none without either.
pub proof fn the_local_controller_comes_first(map: Map<Seq<char>, Node>, platform: Platform)
    ensures
        ({
            let info = config_info(map, platform);
            let pipe = text_entry(map, "external-controller-pipe"@);
            let socket = text_entry(map, "external-controller-unix"@);
            let web = text_entry(map, "external-controller"@);
            let local = if platform == Platform::Windows {
                pipe
            } else {
                socket
            };
            &&& platform == Platform::Windows && pipe is Some ==> info.controller == Some(
                RawControllerView::Pipe(pipe->0),
            )
            &&& platform == Platform::Unix && socket is Some ==> info.controller == Some(
                RawControllerView::Unix(socket->0),
            )
            &&& local is None && web is Some ==> info.controller == Some(
                RawControllerView::Http(web->0),
            )
            &&& info.controller is None <==> local is None && web is None
            &&& info.secret == text_entry(map, "secret"@)
            &&& info.has_dns_listen ==> map.dom().contains("dns"@) && map["dns"@] is Table
                && text_entry(map["dns"@]->Table_0, "listen"@) is Some
            &&& map.dom().contains("dns"@) && map["dns"@] is Table && text_entry(
                map["dns"@]->Table_0,
                "listen"@,
            ) is Some ==> info.has_dns_listen
        }),
{
}

/// A core that listens on every address is probed on this machine, at its port;
/// any other address is probed as it is.
pub proof fn a_wildcard_is_probed_on_this_machine(host: Seq<char>, port: Seq<char>)
    requires
        forall|i: int| 0 <= i < port.len() ==> #[trigger] port[i] != ':',
    ensures
        host == "0.0.0.0"@ || host == "::"@ || host == "[::]"@ || host == ""@ ==> probed(
            host + ":"@ + port,
        ) == "127.0.0.1:"@ + port,
        !(host == "0.0.0.0"@ || host == "::"@ || host == "[::]"@ || host == ""@) ==> probed(
            host + ":"@ + port,
        ) == host + ":"@ + port,
        probed(port) == port,
{
    reveal_strlit(":");
    let address = host + ":"@ + port;
    text::lemma_rfind_before(address, ':', address.len() as int);
    text::lemma_rfind_before(port, ':', port.len() as int);
    assert(address[host.len() as int] == ':');
    let at = text::rfind(address, ':')->0;
    if at > host.len() {
        assert(address[at] == port[at - host.len() - 1]);
    }
    assert(address.take(at) =~= host);
    assert(address.skip(at + 1) =~= port);
}

/// A controller leads to the host that it names; without one there is none.
pub proof fn a_controller_names_its_host(info: ConfigInfoView)
    ensures
        info.controller is None ==> resolved(info) == Err::<clash::HostView, ErrorView>(
            ErrorView::ControllerMissing,
        ),
        info.controller matches Some(RawControllerView::Pipe(path)) ==> resolved(info) == Ok::<
            clash::HostView,
            ErrorView,
        >(clash::HostView::NamedPipe(path)),
        info.controller matches Some(RawControllerView::Unix(path)) ==> resolved(info) == Ok::<
            clash::HostView,
            ErrorView,
        >(clash::HostView::UnixSocket(path)),
        info.controller matches Some(RawControllerView::Http(_)) ==> (resolved(info) is Ok
            ==> resolved(info)->Ok_0 is Http),
{
}

/// A template without the mark is the endpoint of every epoch; one with it gets
/// the number of the epoch in its place.
pub proof fn a_template_gets_its_epoch(
    platform: Platform,
    derived_dir: Seq<char>,
    lead: Seq<char>,
    tail: Seq<char>,
    epoch: u64,
    endpoint: Seq<char>,
)
    requires
        text::find(lead + "{epoch}"@ + tail, "{epoch}"@) == Some(lead.len() as int),
        endpoint_of(platform, derived_dir, Some(lead + "{epoch}"@ + tail), epoch, endpoint),
        text::find(tail, "{epoch}"@) is None,
    ensures
        endpoint == lead + text::decimal(epoch as nat) + tail,
{
    let template = lead + "{epoch}"@ + tail;
    reveal_strlit("{epoch}");
    assert("{epoch}"@.len() == 7);
    assert(template.take(lead.len() as int) =~= lead);
    assert(template.skip((lead.len() + 7) as int) =~= tail);
    assert(replaced(tail, "{epoch}"@, text::decimal(epoch as nat)) == tail);
}

/// The default pipes of two epochs are different ones.
pub proof fn each_epoch_has_its_pipe(a: u64, b: u64, dir: Seq<char>, endpoint: Seq<char>)
    requires
        endpoint_of(Platform::Windows, dir, None, a, endpoint),
        endpoint_of(Platform::Windows, dir, None, b, endpoint),
    ensures
        a == b,
{
    let lead = "\\\\.\\pipe\\nyanpasu\\core-"@;
    assert(endpoint.skip(lead.len() as int) =~= text::decimal(a as nat));
    assert(endpoint.skip(lead.len() as int) =~= text::decimal(b as nat));
    text::decimal_round_trip(a);
    text::decimal_round_trip(b);
}

} // verus!
