use crate::json::{find_text, member, parse, parsed, quote, quoted, Json};
use crate::text::{contains, decimal, decimal_of, occurs_in};
use vstd::prelude::*;

verus! {

/// What a page address must contain to be the session page that is looked for.
pub const TARGET_MARKER: &'static str = ".iracing.com/web/racing";

/// The member of a discovery record that holds the page address.
pub const URL_FIELD: &'static str = "url";

/// The member of a discovery record that holds the control-channel address.
pub const SOCKET_FIELD: &'static str = "webSocketDebuggerUrl";

/// The protocol method that registers a script for every new document.
pub const ADD_SCRIPT_METHOD: &'static str = "Page.addScriptToEvaluateOnNewDocument";

/// The sequence number of the one command sent per channel.
pub const COMMAND_ID: u32 = 1;

/// One entry of the discovery service's answer.
#[derive(Debug, Clone, PartialEq, Eq)]
pub struct TabInfo {
    pub url: String,
    pub websocket_debugger_url: String,
}

/// What came of one discovery request.
#[derive(Debug, Clone, PartialEq, Eq)]
pub enum DiscoveryReply {
    /// No answer: connection refused, timed out, or broken off.
    Unreachable,
    /// An HTTP answer with its status code and body.
    Answered { status: u16, body: String },
}

/// Parameters of the script-registering command.
#[derive(Debug, Clone, PartialEq, Eq)]
pub struct ScriptParams {
    pub source: String,
    pub run_immediately: bool,
}

/// One outbound protocol message.
#[derive(Debug, Clone, PartialEq, Eq)]
pub struct CdpMessage {
    pub id: u32,
    pub method: String,
    pub params: ScriptParams,
}

/// A command ready to go out: where to connect, and the one text frame to send.
#[derive(Debug, Clone, PartialEq, Eq)]
pub struct Injection {
    pub address: String,
    pub frame: String,
}

/// The discovery client for one local port.
#[derive(Debug, Clone, Copy, PartialEq, Eq)]
pub struct CdpClient {
    pub port: u16,
}

/// The record that a JSON value stands for: an object whose `url` and
/// `webSocketDebuggerUrl` members are both strings. Other members are ignored.
pub open spec fn record(value: Json) -> Option<TabInfo> {
    match value {
        Json::Object(members) => match (
            member(members@, URL_FIELD@),
            member(members@, SOCKET_FIELD@),
        ) {
            (Some(Json::Text(url)), Some(Json::Text(socket))) => Some(
                TabInfo { url: url, websocket_debugger_url: socket },
            ),
            _ => None,
        },
        _ => None,
    }
}

/// The records of a discovery document: it must be an array, and every
/// element a record; one element that is not makes the whole document void.
pub open spec fn records(doc: Json) -> Option<Seq<TabInfo>> {
    match doc {
        Json::Array(items) => if forall|i: int|
            0 <= i < items@.len() ==> record(#[trigger] items@[i]) is Some {
            Some(Seq::new(items@.len(), |i: int| record(items@[i])->0))
        } else {
            None
        },
        _ => None,
    }
}

/// Whether a page address is that of the session page.
pub open spec fn is_target(url: Seq<char>) -> bool {
    occurs_in(url, TARGET_MARKER@)
}

/// The control-channel address of the first record whose page is the session
/// page.
pub open spec fn first_target(tabs: Seq<TabInfo>) -> Option<Seq<char>>
    decreases tabs.len(),
{
    if tabs.len() == 0 {
        None
    } else if is_target(tabs[0].url@) {
        Some(tabs[0].websocket_debugger_url@)
    } else {
        first_target(tabs.drop_first())
    }
}

/// The address that a discovery document yields.
pub open spec fn target_of(doc: Json) -> Option<Seq<char>> {
    match records(doc) {
        Some(tabs) => first_target(tabs),
        None => None,
    }
}

/// Whether a status code is in the success class.
pub open spec fn is_success(status: u16) -> bool {
    200 <= status < 300
}

/// The address that a discovery reply yields: none unless the service
/// answered with a success status and a body that reads as a list of records,
/// one of which is the session page.
pub open spec fn located(reply: DiscoveryReply) -> Option<Seq<char>> {
    match reply {
        DiscoveryReply::Unreachable => None,
        DiscoveryReply::Answered { status, body } => if is_success(status) {
            match parsed(body@) {
                Some(doc) => target_of(doc),
                None => None,
            }
        } else {
            None
        },
    }
}

/// The text of the discovery request's address for a port.
pub open spec fn discovery_url_text(port: u16) -> Seq<char> {
    "http://127.0.0.1:"@ + decimal(port as nat) + "/json"@
}

/// The text of a command frame, given the JSON literals of its method and of
/// its script.
pub open spec fn frame_text(
    id: u32,
    method_literal: Seq<char>,
    source_literal: Seq<char>,
    run_immediately: bool,
) -> Seq<char> {
    "{\"id\":"@ + decimal(id as nat) + ",\"method\":"@ + method_literal
        + ",\"params\":{\"source\":"@ + source_literal + ",\"runImmediately\":"@ + (
    if run_immediately {
        "true"@
    } else {
        "false"@
    }) + "}}"@
}

/// The frame that registers `source` as a script.
pub open spec fn script_frame(source: Seq<char>) -> Seq<char> {
    frame_text(COMMAND_ID, quoted(ADD_SCRIPT_METHOD@), quoted(source), true)
}

proof fn first_target_skip(tabs: Seq<TabInfo>, upto: int)
    requires
        0 <= upto <= tabs.len(),
        forall|k: int| 0 <= k < upto ==> !is_target(#[trigger] tabs[k].url@),
    ensures
        first_target(tabs) == first_target(tabs.subrange(upto, tabs.len() as int)),
    decreases upto,
{
    if upto == 0 {
        assert(tabs.subrange(0, tabs.len() as int) =~= tabs);
    } else {
        let rest = tabs.drop_first();
        assert(!is_target(tabs[0].url@));
        assert forall|k: int| 0 <= k < upto - 1 implies !is_target(#[trigger] rest[k].url@) by {
            assert(rest[k] == tabs[k + 1]);
        }
        first_target_skip(rest, upto - 1);
        assert(rest.subrange(upto - 1, rest.len() as int) =~= tabs.subrange(
            upto,
            tabs.len() as int,
        ));
    }
}

/// Reads one discovery record.
pub fn record_of(value: &Json) -> (tab: Option<TabInfo>)
    ensures
        tab == record(*value),
{
    match value {
        Json::Object(members) => {
            let url = find_text(members, URL_FIELD);
            let socket = find_text(members, SOCKET_FIELD);
            match (url, socket) {
                (Some(u), Some(s)) => Some(
                    TabInfo { url: u.clone(), websocket_debugger_url: s.clone() },
                ),
                _ => None,
            }
        },
        _ => None,
    }
}

/// Reads a discovery document as a list of records.
pub fn records_of(doc: &Json) -> (tabs: Option<Vec<TabInfo>>)
    ensures
        match records(*doc) {
            Some(list) => tabs is Some && tabs->0@ == list,
            None => tabs is None,
        },
{
    match doc {
        Json::Array(items) => {
            let mut out: Vec<TabInfo> = Vec::new();
            let mut i: usize = 0;
            while i < items.len()
                invariant
                    *doc == Json::Array(*items),
                    i <= items.len(),
                    out@.len() == i,
                    forall|k: int| 0 <= k < i ==> record(#[trigger] items@[k]) == Some(out@[k]),
                decreases items.len() - i,
            {
                match record_of(&items[i]) {
                    Some(tab) => {
                        out.push(tab);
                    },
                    None => {
                        assert(record(items@[i as int]) is None);
                        return None;
                    },
                }
                i += 1;
            }
            assert(out@ =~= Seq::new(items@.len(), |i: int| record(items@[i])->0));
            Some(out)
        },
        _ => None,
    }
}

/// Picks the control-channel address of the first record whose page address
/// contains the marker.
pub fn select_target(tabs: &Vec<TabInfo>) -> (address: Option<String>)
    ensures
        match first_target(tabs@) {
            Some(a) => address is Some && address->0@ == a,
            None => address is None,
        },
{
    let mut i: usize = 0;
    while i < tabs.len()
        invariant
            i <= tabs.len(),
            forall|k: int| 0 <= k < i ==> !is_target(#[trigger] tabs@[k].url@),
        decreases tabs.len() - i,
    {
        if contains(tabs[i].url.as_str(), TARGET_MARKER) {
            proof {
                first_target_skip(tabs@, i as int);
                assert(tabs@.subrange(i as int, tabs@.len() as int)[0] == tabs@[i as int]);
            }
            return Some(tabs[i].websocket_debugger_url.clone());
        }
        i += 1;
    }
    proof {
        first_target_skip(tabs@, i as int);
    }
    None
}

/// The address that a parsed discovery document yields.
pub fn target_in(doc: &Json) -> (address: Option<String>)
    ensures
        match target_of(*doc) {
            Some(a) => address is Some && address->0@ == a,
            None => address is None,
        },
{
    match records_of(doc) {
        Some(tabs) => select_target(&tabs),
        None => None,
    }
}

/// Puts a command frame together from the JSON literals of its method and of
/// its script.
pub fn assemble_frame(id: u32, method_literal: &str, source_literal: &str, run_immediately: bool) -> (frame: String)
    ensures
        frame@ == frame_text(id, method_literal@, source_literal@, run_immediately),
{
    let mut frame = String::from_str("{\"id\":");
    frame.append(decimal_of(id as u64).as_str());
    frame.append(",\"method\":");
    frame.append(method_literal);
    frame.append(",\"params\":{\"source\":");
    frame.append(source_literal);
    frame.append(",\"runImmediately\":");
    if run_immediately {
        frame.append("true");
    } else {
        frame.append("false");
    }
    frame.append("}}");
    frame
}

impl CdpMessage {
    /// The text of this message on the wire.
    pub open spec fn wire_text(&self) -> Seq<char> {
        frame_text(
            self.id,
            quoted(self.method@),
            quoted(self.params.source@),
            self.params.run_immediately,
        )
    }

    /// The command that registers `source` to run on every new document, and
    /// at once.
    pub fn add_script(source: &str) -> (msg: CdpMessage)
        ensures
            msg.id == COMMAND_ID,
            msg.method@ == ADD_SCRIPT_METHOD@,
            msg.params.source@ == source@,
            msg.params.run_immediately,
            msg.wire_text() == script_frame(source@),
    {
        CdpMessage {
            id: COMMAND_ID,
            method: String::from_str(ADD_SCRIPT_METHOD),
            params: ScriptParams { source: String::from_str(source), run_immediately: true },
        }
    }

    /// Serialises the message as one line of JSON.
    pub fn to_json(&self) -> (frame: Option<String>)
        ensures
            frame is Some,
            frame->0@ == self.wire_text(),
    {
        match quote(self.method.as_str()) {
            Some(method_literal) => match quote(self.params.source.as_str()) {
                Some(source_literal) => Some(
                    assemble_frame(
                        self.id,
                        method_literal.as_str(),
                        source_literal.as_str(),
                        self.params.run_immediately,
                    ),
                ),
                None => None,
            },
            None => None,
        }
    }
}

impl CdpClient {
    pub fn new(port: u16) -> (client: CdpClient)
        ensures
            client.port == port,
    {
        CdpClient { port }
    }

    /// The address to ask for the list of open pages.
    pub fn discovery_url(&self) -> (url: String)
        ensures
            url@ == discovery_url_text(self.port),
    {
        let mut url = String::from_str("http://127.0.0.1:");
        url.append(decimal_of(self.port as u64).as_str());
        url.append("/json");
        url
    }

    /// The control-channel address of the session page, as far as the reply
    /// to a discovery request shows one. Every failure gives `None`.
    pub fn get_websocket_url(&self, reply: &DiscoveryReply) -> (address: Option<String>)
        ensures
            match located(*reply) {
                Some(a) => address is Some && address->0@ == a,
                None => address is None,
            },
    {
        match reply {
            DiscoveryReply::Unreachable => None,
            DiscoveryReply::Answered { status, body } => {
                if 200 <= *status && *status < 300 {
                    match parse(body.as_str()) {
                        Some(doc) => target_in(&doc),
                        None => None,
                    }
                } else {
                    None
                }
            },
        }
    }

    /// Prepares the injection of `js_code` at `ws_url`: the address to
    /// connect to and the one frame to send there.
    pub fn inject_script(&self, ws_url: &str, js_code: &str) -> (injection: Option<Injection>)
        ensures
            injection is Some,
            injection->0.address@ == ws_url@,
            injection->0.frame@ == script_frame(js_code@),
    {
        let msg = CdpMessage::add_script(js_code);
        match msg.to_json() {
            Some(frame) => Some(Injection { address: String::from_str(ws_url), frame }),
            None => None,
        }
    }
}

/// Discovery that fails in any way yields no address: no answer, a status
/// outside the success class, a body that is no JSON, or a document that is
/// not a list of records.
pub proof fn failed_discovery_locates_nothing(status: u16, body: String)
    ensures
        located(DiscoveryReply::Unreachable) is None,
        !is_success(status) ==> located(DiscoveryReply::Answered { status, body }) is None,
        parsed(body@) is None ==> located(DiscoveryReply::Answered { status, body }) is None,
        parsed(body@) is Some && records(parsed(body@)->0) is None ==> located(
            DiscoveryReply::Answered { status, body },
        ) is None,
{
}

/// An object that lacks one of the two members is no record, and a list
/// that holds a value that is no record is void as a whole.
pub proof fn incomplete_record_voids_the_list(items: Vec<Json>, at: int, members: Vec<(String, Json)>)
    requires
        0 <= at < items@.len(),
        items@[at] == Json::Object(members),
        member(members@, URL_FIELD@) is None || member(members@, SOCKET_FIELD@) is None,
    ensures
        record(items@[at]) is None,
        records(Json::Array(items)) is None,
        target_of(Json::Array(items)) is None,
{
}

} // verus!
