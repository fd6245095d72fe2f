//! The events that the service pushes, and which connection gets which.

use super::{CoreInfos, CoreState};
use crate::state;
use crate::text;
use vstd::prelude::*;
use vstd::string::*;

verus! {

/// The event endpoint.
pub const EVENT_URI: &'static str = "/ws/events";

/// The query parameter that asks for an event protocol.
pub const EVENT_VERSION_PARAM: &'static str = "v";

/// The value of that parameter for the second protocol.
pub const EVENT_VERSION_V2: &'static str = "2";

/// Which console stream a record arrived on.
#[derive(Debug, Clone, Copy, PartialEq, Eq, Structural)]
pub enum CoreLogStream {
    Stdout,
    Stderr,
}

/// Normalized severity. A core that panics and one that gives up both end, so
/// both are `Fatal`.
#[derive(Debug, Clone, Copy, PartialEq, Eq, Structural)]
pub enum CoreLogLevel {
    Trace,
    Debug,
    Info,
    Warning,
    Error,
    Fatal,
}

/// Which core printed the record.
#[derive(Debug, Clone, Copy, PartialEq, Eq, Structural)]
pub enum CoreLogKind {
    Mihomo,
    ClashRust,
    ClashPremium,
    Meow,
}

/// One structured field the core printed beside its message.
#[derive(Debug, PartialEq, Eq)]
pub struct CoreLogField {
    pub key: String,
    pub value: String,
}

/// One normalized core console record.
#[derive(Debug, PartialEq, Eq)]
pub struct CoreLogInfo {
    pub epoch: u64,
    pub kind: CoreLogKind,
    pub stream: CoreLogStream,
    pub level: CoreLogLevel,
    /// Unix milliseconds at which the service saw the record.
    pub at: i64,
    /// Unix milliseconds as the core reported them, when it reported any.
    pub timestamp_ms: Option<i64>,
    pub target: Option<String>,
    pub message: String,
    pub fields: Vec<CoreLogField>,
    /// Continuation lines were dropped after hitting a size limit.
    pub truncated: bool,
}

/// One record of the service's own log. The fields are kept as their text.
#[derive(Debug, PartialEq, Eq)]
pub struct TraceLog {
    pub timestamp: String,
    pub level: String,
    pub message: String,
    pub target: String,
    pub fields: Vec<CoreLogField>,
}

/// What the service pushes.
#[derive(Debug, PartialEq, Eq)]
pub enum Event {
    Log(TraceLog),
    /// The state, in which a core that starts or restarts shows as stopped.
    CoreStateChanged(CoreState),
    /// The full status, the same that a request for the status gets.
    CoreStatusChanged(CoreInfos),
    /// One core console record.
    CoreLog(CoreLogInfo),
}

impl Event {
    pub fn new_log(log: TraceLog) -> (res: Self)
        ensures
            res == Event::Log(log),
    {
        Event::Log(log)
    }

    pub fn new_core_state_changed(state: CoreState) -> (res: Self)
        ensures
            res == Event::CoreStateChanged(state),
    {
        Event::CoreStateChanged(state)
    }

    pub fn new_core_status_changed(infos: CoreInfos) -> (res: Self)
        ensures
            res == Event::CoreStatusChanged(infos),
    {
        Event::CoreStatusChanged(infos)
    }

    pub fn new_core_log(log: CoreLogInfo) -> (res: Self)
        ensures
            res == Event::CoreLog(log),
    {
        Event::CoreLog(log)
    }

    /// Whether the first protocol knows this kind of event.
    pub fn is_protocol_v1(&self) -> (res: bool)
        ensures
            res == (self is Log || self is CoreStateChanged),
    {
        match self {
            Event::Log(_) => true,
            Event::CoreStateChanged(_) => true,
            Event::CoreStatusChanged(_) => false,
            Event::CoreLog(_) => false,
        }
    }
}

/// The event protocol one connection speaks, settled once when it is made.
#[derive(Debug, Clone, Copy, PartialEq, Eq, Structural)]
pub enum EventProtocol {
    V1,
    V2,
}

/// The value of a query pair, if the pair has one and its key is `key`.
pub open spec fn value_of(pair: Seq<char>, key: Seq<char>) -> Option<Seq<char>> {
    match text::find(pair, "="@) {
        Some(at) => if pair.take(at) == key {
            Some(pair.skip(at + 1))
        } else {
            None
        },
        None => None,
    }
}

/// The value of the first pair with `key`.
pub open spec fn first_value(pairs: Seq<Seq<char>>, key: Seq<char>) -> Option<Seq<char>>
    decreases pairs.len(),
{
    if pairs.len() == 0 {
        None
    } else if value_of(pairs[0], key) is Some {
        value_of(pairs[0], key)
    } else {
        first_value(pairs.skip(1), key)
    }
}

/// The protocol that a raw query asks for: the second one if the first `v` is
/// exactly `2`, else the first one.
pub open spec fn protocol_asked(query: Option<Seq<char>>) -> EventProtocol {
    let raw = match query {
        Some(raw) => raw,
        None => ""@,
    };
    if first_value(text::split(raw, '&'), EVENT_VERSION_PARAM@) == Some(EVENT_VERSION_V2@) {
        EventProtocol::V2
    } else {
        EventProtocol::V1
    }
}

fn pair_value(pair: &str, key: &str) -> (res: Option<String>)
    ensures
        state::text_of(res) == value_of(pair@, key@),
{
    proof {
        reveal_strlit("=");
        text::lemma_find_from(pair@, "="@, 0);
    }
    match text::position(pair, "=") {
        Some(at) => {
            let name: String = text::slice(pair, 0, at);
            assert(name@ =~= pair@.take(at as int));
            if text::same_text(name.as_str(), key) {
                let total: usize = text::chars_of(pair).len();
                let value: String = text::slice(pair, at + 1, total);
                assert(value@ =~= pair@.skip(at + 1));
                Some(value)
            } else {
                None
            }
        },
        None => None,
    }
}

fn find_value(pairs: &Vec<String>, key: &str) -> (res: Option<String>)
    ensures
        state::text_of(res) == first_value(text::texts(pairs@), key@),
{
    let mut i: usize = 0;
    let ghost all = text::texts(pairs@);
    assert(all.skip(0) =~= all);
    while i < pairs.len()
        invariant
            i <= pairs.len(),
            all == text::texts(pairs@),
            first_value(all, key@) == first_value(all.skip(i as int), key@),
        decreases pairs.len() - i,
    {
        assert(all.skip(i as int)[0] == pairs@[i as int]@);
        assert(all.skip(i as int).skip(1) =~= all.skip(i + 1));
        let value: Option<String> = pair_value(pairs[i].as_str(), key);
        if value.is_some() {
            return value;
        }
        i = i + 1;
    }
    None
}

impl EventProtocol {
    /// Reads the version out of a raw query string. Never fails.
    ///
    /// Only the exact token `v=2` opts in; absent, empty, unknown and misspelled
    /// all answer the first protocol, which every client can decode. The first
    /// `v` wins, and percent-encoding is not decoded.
    pub fn from_query(query: Option<&str>) -> (res: Self)
        ensures
            res == protocol_asked(
                match query {
                    Some(raw) => Some(raw@),
                    None => None,
                },
            ),
    {
        let raw: &str = match query {
            Some(raw) => raw,
            None => "",
        };
        let pairs: Vec<String> = text::split_list(raw, '&');
        match find_value(&pairs, EVENT_VERSION_PARAM) {
            Some(value) => if text::same_text(value.as_str(), EVENT_VERSION_V2) {
                EventProtocol::V2
            } else {
                EventProtocol::V1
            },
            None => EventProtocol::V1,
        }
    }

    /// Whether a connection at this version may see `event`.
    pub open spec fn passes(self, event: Event) -> bool {
        self == EventProtocol::V2 || event is Log || event is CoreStateChanged
    }

    /// Whether a connection at this version may see `event`. Asked before the
    /// event is written, so that a connection never carries even the bytes of an
    /// event that it cannot decode.
    pub fn relays(self, event: &Event) -> (res: bool)
        ensures
            res == self.passes(*event),
    {
        match self {
            EventProtocol::V1 => event.is_protocol_v1(),
            EventProtocol::V2 => true,
        }
    }
}

/// What a query without any `v=` pair asks for: the first protocol.
pub proof fn a_query_without_the_parameter_gets_the_first_protocol(query: Seq<char>)
    requires
        forall|i: int|
            0 <= i < text::split(query, '&').len() ==> value_of(
                #[trigger] text::split(query, '&')[i],
                EVENT_VERSION_PARAM@,
            ) is None,
    ensures
        protocol_asked(Some(query)) == EventProtocol::V1,
        protocol_asked(None) == EventProtocol::V1,
{
    lemma_no_value(text::split(query, '&'), EVENT_VERSION_PARAM@);
    reveal_strlit("");
    reveal_strlit("=");
    let none = text::split(""@, '&');
    text::lemma_find_from(""@, seq!['&'], 0);
    assert(none =~= seq![""@]);
    text::lemma_find_from(""@, "="@, 0);
    assert(value_of(none[0], EVENT_VERSION_PARAM@) is None);
    lemma_no_value(none, EVENT_VERSION_PARAM@);
}

proof fn lemma_no_value(pairs: Seq<Seq<char>>, key: Seq<char>)
    requires
        forall|i: int| 0 <= i < pairs.len() ==> value_of(#[trigger] pairs[i], key) is None,
    ensures
        first_value(pairs, key) is None,
    decreases pairs.len(),
{
    if pairs.len() > 0 {
        let rest = pairs.skip(1);
        assert forall|i: int| 0 <= i < rest.len() implies value_of(#[trigger] rest[i], key)
            is None by {
            assert(rest[i] == pairs[i + 1]);
        }
        lemma_no_value(rest, key);
    }
}

/// A connection at the first protocol is never offered an event that only the
/// second one knows.
pub proof fn the_first_protocol_carries_only_its_own_events(event: Event)
    ensures
        EventProtocol::V1.passes(event) <==> (event is Log || event is CoreStateChanged),
        EventProtocol::V2.passes(event),
{
}

/// What happens on an event connection.
#[derive(Debug, PartialEq, Eq)]
pub enum SocketEvent {
    /// The connection was made.
    Connected,
    /// An event is there to be relayed.
    Arrived(Event),
    /// The connection was too slow and lost events.
    Lagged,
    /// There will be no more events.
    Closed,
}

/// What an event connection does next.
#[derive(Debug, PartialEq, Eq)]
pub enum SocketAction {
    /// Wait for the next event.
    Wait,
    /// Send the current status.
    SendSnapshot,
    /// Send the event.
    Send(Event),
    /// Go to the newest events, then send the current status.
    ResubscribeAndSendSnapshot,
    /// Go to the newest events, then wait for the next one.
    Resubscribe,
    Stop,
}

/// What an event connection does next: the second protocol is told the status
/// when it connects and after a loss, the first one is not.
pub fn handle_socket(protocol: EventProtocol, event: SocketEvent) -> (res: SocketAction)
    ensures
        res == match event {
            SocketEvent::Connected => if protocol == EventProtocol::V2 {
                SocketAction::SendSnapshot
            } else {
                SocketAction::Wait
            },
            SocketEvent::Arrived(event) => if protocol.passes(event) {
                SocketAction::Send(event)
            } else {
                SocketAction::Wait
            },
            SocketEvent::Lagged => if protocol == EventProtocol::V2 {
                SocketAction::ResubscribeAndSendSnapshot
            } else {
                SocketAction::Resubscribe
            },
            SocketEvent::Closed => SocketAction::Stop,
        },
        res is Stop <==> event is Closed,
        res matches SocketAction::Send(sent) ==> event == SocketEvent::Arrived(sent) && (protocol
            == EventProtocol::V2 || sent is Log || sent is CoreStateChanged),
        protocol == EventProtocol::V2 && event is Arrived ==> res is Send,
        res is SendSnapshot || res is ResubscribeAndSendSnapshot ==> protocol == EventProtocol::V2,
        res is Resubscribe || res is ResubscribeAndSendSnapshot <==> event is Lagged,
{
    match event {
        SocketEvent::Connected => if protocol == EventProtocol::V2 {
            SocketAction::SendSnapshot
        } else {
            SocketAction::Wait
        },
        SocketEvent::Arrived(event) => if protocol.relays(&event) {
            SocketAction::Send(event)
        } else {
            SocketAction::Wait
        },
        SocketEvent::Lagged => if protocol == EventProtocol::V2 {
            SocketAction::ResubscribeAndSendSnapshot
        } else {
            SocketAction::Resubscribe
        },
        SocketEvent::Closed => SocketAction::Stop,
    }
}

/// What came of writing an event.
#[derive(Debug, Clone, Copy, PartialEq, Eq, Structural)]
pub enum SendOutcome {
    /// The event has no serialised form; nothing was sent.
    NotSerialized,
    Sent,
    /// The connection is gone.
    Failed,
}

/// Whether a connection goes on after an event was written: an event that cannot
/// be serialised is no fault of the connection.
pub fn send_event(outcome: SendOutcome) -> (res: bool)
    ensures
        res == (outcome != SendOutcome::Failed),
{
    match outcome {
        SendOutcome::NotSerialized => true,
        SendOutcome::Sent => true,
        SendOutcome::Failed => false,
    }
}

proof fn lemma_first_value(pairs: Seq<Seq<char>>, key: Seq<char>) -> (at: int)
    ensures
        0 <= at <= pairs.len(),
        at == pairs.len() <==> first_value(pairs, key) is None,
        at < pairs.len() ==> first_value(pairs, key) == value_of(pairs[at], key) && value_of(
            pairs[at],
            key,
        ) is Some,
        forall|i: int| 0 <= i < at ==> value_of(#[trigger] pairs[i], key) is None,
    decreases pairs.len(),
{
    if pairs.len() == 0 || value_of(pairs[0], key) is Some {
        0
    } else {
        let rest = pairs.skip(1);
        let at = lemma_first_value(rest, key);
        assert forall|i: int| 0 <= i < at + 1 implies value_of(#[trigger] pairs[i], key)
            is None by {
            if i > 0 {
                assert(rest[i - 1] == pairs[i]);
            }
        }
        at + 1
    }
}

/// A pair has the value that follows its key and the first equals sign.
pub proof fn a_pair_has_what_follows_its_key(key: Seq<char>, value: Seq<char>, pair: Seq<char>)
    requires
        forall|i: int| 0 <= i < key.len() ==> #[trigger] key[i] != '=',
    ensures
        value_of(key + "="@ + value, key) == Some(value),
        value_of(pair, key) == Some(value) ==> pair == key + "="@ + value,
{
    reveal_strlit("=");
    let whole = key + "="@ + value;
    text::lemma_find_from(whole, "="@, 0);
    text::lemma_find_from(pair, "="@, 0);
    assert(whole.subrange(key.len() as int, (key.len() + 1) as int) =~= "="@);
    assert(text::occurs_at(whole, "="@, key.len() as int));
    let at = text::find(whole, "="@)->0;
    if at < key.len() {
        assert(whole.subrange(at, at + 1)[0] == '=');
        assert(whole[at] == key[at]);
    }
    assert(whole.take(key.len() as int) =~= key);
    assert(whole.skip((key.len() + 1) as int) =~= value);
    if value_of(pair, key) == Some(value) {
        let cut = text::find(pair, "="@)->0;
        assert(pair.subrange(cut, cut + 1) =~= "="@);
        assert(pair[cut] == pair.subrange(cut, cut + 1)[0]);
        assert(pair =~= key + "="@ + value);
    }
}

/// The second protocol is spoken exactly if the first pair of the query that
/// gives a version gives the second one.
pub proof fn the_first_version_asked_for_counts(query: Seq<char>, at: int)
    requires
        0 <= at < text::split(query, '&').len(),
        value_of(text::split(query, '&')[at], EVENT_VERSION_PARAM@) is Some,
        forall|i: int|
            0 <= i < at ==> value_of(#[trigger] text::split(query, '&')[i], EVENT_VERSION_PARAM@)
                is None,
    ensures
        protocol_asked(Some(query)) == EventProtocol::V2 <==> value_of(
            text::split(query, '&')[at],
            EVENT_VERSION_PARAM@,
        ) == Some("2"@),
        protocol_asked(Some(query)) != EventProtocol::V2 ==> protocol_asked(Some(query))
            == EventProtocol::V1,
{
    let first = lemma_first_value(text::split(query, '&'), EVENT_VERSION_PARAM@);
    if first < at {
        assert(value_of(text::split(query, '&')[first], EVENT_VERSION_PARAM@) is None);
    }
}

} // verus!
