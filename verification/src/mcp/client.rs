//! The client side of a connection to an upstream MCP server: its
//! connection state, the requests awaiting a response, and what is learnt
//! from the server. The embedding application owns the socket or HTTP
//! client and carries out the steps decided here.
use vstd::prelude::*;

use crate::config::{duration_of_secs, secs};
use crate::error::GatewayError;
use crate::json::{JsonModel, JsonValue};
use crate::mcp::transport::ParsedUrl;
use crate::mcp::{
    generate_request_id, methods, ClientCapabilities, ClientInfo, InitializeParams, InitializeResult,
    McpMessage, McpNotification, McpRequest, ServerCapabilities, ServerInfo,
};
use crate::table::str_eq;
use crate::text::{debug_quoted, str_debug};

verus! {

/// Connection state of a client.
#[derive(Debug, PartialEq, Eq)]
pub enum ConnectionState {
    Disconnected,
    Connecting,
    Connected,
    Initializing,
    Ready,
    Error(String),
}

/// How a state prints with `{:?}`.
pub open spec fn state_debug(s: ConnectionState) -> Seq<char> {
    match s {
        ConnectionState::Disconnected => "Disconnected"@,
        ConnectionState::Connecting => "Connecting"@,
        ConnectionState::Connected => "Connected"@,
        ConnectionState::Initializing => "Initializing"@,
        ConnectionState::Ready => "Ready"@,
        ConnectionState::Error(m) => "Error("@ + str_debug(m@) + ")"@,
    }
}

/// Whether requests may be sent in a state.
pub open spec fn may_send(s: ConnectionState) -> bool {
    s is Ready || s is Connected
}

impl ConnectionState {
    /// A copy of this state.
    pub fn copy(&self) -> (r: Self)
        ensures
            r == *self,
    {
        match self {
            ConnectionState::Disconnected => ConnectionState::Disconnected,
            ConnectionState::Connecting => ConnectionState::Connecting,
            ConnectionState::Connected => ConnectionState::Connected,
            ConnectionState::Initializing => ConnectionState::Initializing,
            ConnectionState::Ready => ConnectionState::Ready,
            ConnectionState::Error(m) => ConnectionState::Error(m.clone()),
        }
    }

    /// How this state prints with `{:?}`.
    pub fn debug_text(&self) -> (r: String)
        ensures
            r@ == state_debug(*self),
    {
        match self {
            ConnectionState::Disconnected => String::from_str("Disconnected"),
            ConnectionState::Connecting => String::from_str("Connecting"),
            ConnectionState::Connected => String::from_str("Connected"),
            ConnectionState::Initializing => String::from_str("Initializing"),
            ConnectionState::Ready => String::from_str("Ready"),
            ConnectionState::Error(m) => String::from_str("Error(").concat(
                debug_quoted(m.as_str()).as_str(),
            ).concat(")"),
        }
    }
}

/// How messages reach a server.
#[derive(Debug, Clone, Copy, PartialEq, Eq, Structural)]
pub enum Channel {
    WebSocket,
    Http,
}

/// The channel of a URL scheme.
pub open spec fn scheme_channel(scheme: Seq<char>) -> Option<Channel> {
    if scheme == "ws"@ || scheme == "wss"@ {
        Some(Channel::WebSocket)
    } else if scheme == "http"@ || scheme == "https"@ {
        Some(Channel::Http)
    } else {
        None
    }
}

/// What to do with a message received from the server.
#[derive(Debug)]
pub enum Incoming {
    /// The response to a pending request: hand it to the request's sender.
    Deliver(McpMessage),
    /// A response to no pending request.
    Unmatched,
    /// A notification from the server.
    Notification(McpMessage),
    /// A request from the server, which a client does not serve.
    Unexpected(McpMessage),
}

/// The position of the first pending id with this model, looking from
/// position `i` on.
pub open spec fn pending_from(pending: Seq<JsonModel>, id: JsonModel, i: int) -> Option<int>
    decreases pending.len() - i,
{
    if i < 0 || i >= pending.len() {
        None
    } else if pending[i] == id {
        Some(i)
    } else {
        pending_from(pending, id, i + 1)
    }
}

/// The position of the first pending id with this model.
pub open spec fn pending_index(pending: Seq<JsonModel>, id: JsonModel) -> Option<int> {
    pending_from(pending, id, 0)
}

proof fn lemma_pending_from_range(pending: Seq<JsonModel>, id: JsonModel, i: int)
    requires
        0 <= i,
    ensures
        pending_from(pending, id, i) matches Some(k) ==> i <= k < pending.len(),
    decreases pending.len() - i,
{
    if i < pending.len() && pending[i] != id {
        lemma_pending_from_range(pending, id, i + 1);
    }
}

/// A client of an upstream MCP server.
pub struct McpClient {
    server_id: String,
    server_url: ParsedUrl,
    state: ConnectionState,
    pending: Vec<JsonValue>,
    capabilities: Option<ServerCapabilities>,
    server_info: Option<ServerInfo>,
    request_timeout: core::time::Duration,
    ping_interval: core::time::Duration,
}

impl McpClient {
    pub closed spec fn state_view(&self) -> ConnectionState {
        self.state
    }

    /// The ids of the requests awaiting a response, oldest first.
    pub closed spec fn pending_view(&self) -> Seq<JsonModel> {
        self.pending@.map_values(|v: JsonValue| v@)
    }

    pub closed spec fn scheme_view(&self) -> Seq<char> {
        self.server_url.scheme@
    }

    pub closed spec fn server_id_view(&self) -> Seq<char> {
        self.server_id@
    }

    pub closed spec fn href_view(&self) -> Seq<char> {
        self.server_url.href@
    }

    pub closed spec fn capabilities_view(&self) -> Option<ServerCapabilities> {
        self.capabilities
    }

    pub closed spec fn server_info_view(&self) -> Option<ServerInfo> {
        self.server_info
    }

    pub closed spec fn request_timeout_view(&self) -> core::time::Duration {
        self.request_timeout
    }

    pub closed spec fn ping_interval_view(&self) -> core::time::Duration {
        self.ping_interval
    }

    /// Everything but the state and the pending requests is as in `other`.
    pub open spec fn same_server(&self, other: &Self) -> bool {
        &&& self.scheme_view() == other.scheme_view()
        &&& self.server_id_view() == other.server_id_view()
        &&& self.href_view() == other.href_view()
        &&& self.request_timeout_view() == other.request_timeout_view()
        &&& self.ping_interval_view() == other.ping_interval_view()
    }

    /// A disconnected client of the server at `server_url`; requests time
    /// out after 30 s and keep-alive pings go every 30 s.
    pub fn new(server_id: String, server_url: ParsedUrl) -> (r: Self)
        ensures
            r.state_view() == ConnectionState::Disconnected,
            r.pending_view().len() == 0,
            r.server_id_view() == server_id@,
            r.href_view() == server_url.href@,
            r.scheme_view() == server_url.scheme@,
            r.capabilities_view() is None,
            r.server_info_view() is None,
            r.request_timeout_view() == duration_of_secs(30),
            r.ping_interval_view() == duration_of_secs(30),
    {
        let r = McpClient {
            server_id,
            server_url,
            state: ConnectionState::Disconnected,
            pending: Vec::new(),
            capabilities: None,
            server_info: None,
            request_timeout: secs(30),
            ping_interval: secs(30),
        };
        assert(r.pending_view() =~= Seq::empty());
        r
    }

    fn channel(&self) -> (r: Result<Channel, GatewayError>)
        ensures
            match scheme_channel(self.scheme_view()) {
                Some(c) => r == Ok::<Channel, GatewayError>(c),
                None => r matches Err(GatewayError::McpProtocol(m)) && m@ == "Unsupported URL scheme: "@
                    + self.scheme_view(),
            },
    {
        let s = self.server_url.scheme.as_str();
        if str_eq(s, "ws") || str_eq(s, "wss") {
            Ok(Channel::WebSocket)
        } else if str_eq(s, "http") || str_eq(s, "https") {
            Ok(Channel::Http)
        } else {
            Err(GatewayError::McpProtocol(String::from_str("Unsupported URL scheme: ").concat(s)))
        }
    }

    /// Starts connecting: `None` when already connected or ready; else the
    /// client is connecting, over the channel its URL scheme names.
    pub fn connect(&mut self) -> (r: Result<Option<Channel>, GatewayError>)
        ensures
            final(self).same_server(old(self)),
            final(self).pending_view() == old(self).pending_view(),
            final(self).capabilities_view() == old(self).capabilities_view(),
            final(self).server_info_view() == old(self).server_info_view(),
            may_send(old(self).state_view()) ==> (r matches Ok(None) && final(self).state_view()
                == old(self).state_view()),
            !may_send(old(self).state_view()) ==> {
                &&& final(self).state_view() == ConnectionState::Connecting
                &&& match scheme_channel(old(self).scheme_view()) {
                    Some(c) => r == Ok::<Option<Channel>, GatewayError>(Some(c)),
                    None => r matches Err(GatewayError::McpProtocol(m)) && m@
                        == "Unsupported URL scheme: "@ + old(self).scheme_view(),
                }
            },
    {
        match self.state {
            ConnectionState::Connected | ConnectionState::Ready => {
                return Ok(None);
            },
            _ => {},
        }
        self.state = ConnectionState::Connecting;
        match self.channel() {
            Ok(c) => Ok(Some(c)),
            Err(e) => Err(e),
        }
    }

    /// Records that the channel is open.
    pub fn mark_connected(&mut self)
        ensures
            final(self).same_server(old(self)),
            final(self).state_view() == ConnectionState::Connected,
            final(self).pending_view() == old(self).pending_view(),
            final(self).capabilities_view() == old(self).capabilities_view(),
            final(self).server_info_view() == old(self).server_info_view(),
    {
        self.state = ConnectionState::Connected;
    }

    /// Starts a request: refused unless the client is connected or ready;
    /// else the request gets a fresh id, which is recorded as pending.
    pub fn begin_request(&mut self, method: &str, params: Option<JsonValue>) -> (r: Result<
        McpMessage,
        GatewayError,
    >)
        ensures
            final(self).same_server(old(self)),
            final(self).state_view() == old(self).state_view(),
            final(self).capabilities_view() == old(self).capabilities_view(),
            final(self).server_info_view() == old(self).server_info_view(),
            !may_send(old(self).state_view()) ==> {
                &&& r matches Err(GatewayError::McpProtocol(m)) && m@ == "Client not ready: "@ + state_debug(
                    old(self).state_view(),
                )
                &&& final(self).pending_view() == old(self).pending_view()
            },
            may_send(old(self).state_view()) ==> (r matches Ok(McpMessage::Request(req)) && {
                &&& req.method@ == method@
                &&& req.params == params
                &&& req.id matches JsonValue::String(s) && crate::mcp::is_uuid_v4_text(s@)
                &&& final(self).pending_view() == old(self).pending_view().push(req.id@)
            }),
    {
        match self.state {
            ConnectionState::Connected | ConnectionState::Ready => {},
            _ => {
                let msg = String::from_str("Client not ready: ").concat(self.state.debug_text().as_str());
                return Err(GatewayError::McpProtocol(msg));
            },
        }
        Ok(self.issue_request(method, params))
    }

    /// A request with a fresh id, which is recorded as pending.
    fn issue_request(&mut self, method: &str, params: Option<JsonValue>) -> (r: McpMessage)
        ensures
            final(self).same_server(old(self)),
            final(self).state_view() == old(self).state_view(),
            final(self).capabilities_view() == old(self).capabilities_view(),
            final(self).server_info_view() == old(self).server_info_view(),
            r matches McpMessage::Request(req) && {
                &&& req.method@ == method@
                &&& req.params == params
                &&& req.id matches JsonValue::String(s) && crate::mcp::is_uuid_v4_text(s@)
                &&& final(self).pending_view() == old(self).pending_view().push(req.id@)
            },
    {
        let id = generate_request_id();
        let ghost before = self.pending@;
        self.pending.push(id.deep_copy());
        assert(self.pending@.map_values(|v: JsonValue| v@) =~= before.map_values(|v: JsonValue| v@).push(
            id@,
        ));
        McpMessage::new_request(id, String::from_str(method), params)
    }

    /// Starts initialization: the client is initializing, and the
    /// initialize request, with the gateway's parameters and a fresh id, is
    /// recorded as pending and handed back to be sent.
    pub fn initialize_request(&mut self) -> (r: McpMessage)
        ensures
            final(self).same_server(old(self)),
            final(self).state_view() == ConnectionState::Initializing,
            final(self).capabilities_view() == old(self).capabilities_view(),
            final(self).server_info_view() == old(self).server_info_view(),
            r matches McpMessage::Request(req) && {
                &&& req.method@ == methods::INITIALIZE@
                &&& req.params matches Some(p) && p@ == gateway_initialize_json()
                &&& req.id matches JsonValue::String(s) && crate::mcp::is_uuid_v4_text(s@)
                &&& final(self).pending_view() == old(self).pending_view().push(req.id@)
            },
    {
        self.state = ConnectionState::Initializing;
        let ip = gateway_initialize_params();
        let params = ip.to_json();
        proof {
            assert(crate::mcp::codec::client_capabilities_json(ip.capabilities) =~= JsonModel::Object(
                Seq::empty(),
            ));
        }
        self.issue_request(methods::INITIALIZE, Some(params))
    }

    /// Takes in the answer to the initialize request. `parsed` is the
    /// answer's result read as an initialize result (or the reason it could
    /// not be), present exactly when the answer is a response with a result
    /// and no error.
    pub fn finish_initialize(&mut self, response: McpMessage, parsed: Option<Result<InitializeResult, String>>) -> (r:
        Result<(), GatewayError>)
        requires
            (parsed is Some) == (response matches McpMessage::Response(resp) && resp.error is None
                && resp.result is Some),
        ensures
            final(self).same_server(old(self)),
            final(self).pending_view() == old(self).pending_view(),
            match response {
                McpMessage::Response(resp) => match resp.error {
                    Some(e) => {
                        &&& r matches Err(GatewayError::McpProtocol(m)) && m@ == "Initialize failed: "@ + e.message@
                        &&& final(self).state_view() == old(self).state_view()
                        &&& final(self).capabilities_view() == old(self).capabilities_view()
                        &&& final(self).server_info_view() == old(self).server_info_view()
                    },
                    None => match parsed {
                        Some(Ok(ir)) => {
                            &&& r is Ok
                            &&& final(self).state_view() == ConnectionState::Ready
                            &&& final(self).capabilities_view() == Some(ir.capabilities)
                            &&& final(self).server_info_view() == Some(ir.server_info)
                        },
                        Some(Err(m)) => {
                            &&& r matches Err(GatewayError::Serialization(s)) && s@ == m@
                            &&& final(self).state_view() == old(self).state_view()
                            &&& final(self).capabilities_view() == old(self).capabilities_view()
                            &&& final(self).server_info_view() == old(self).server_info_view()
                        },
                        None => {
                            &&& r is Ok
                            &&& final(self).state_view() == ConnectionState::Ready
                            &&& final(self).capabilities_view() == old(self).capabilities_view()
                            &&& final(self).server_info_view() == old(self).server_info_view()
                        },
                    },
                },
                _ => {
                    &&& r is Ok
                    &&& final(self).state_view() == ConnectionState::Ready
                    &&& final(self).capabilities_view() == old(self).capabilities_view()
                    &&& final(self).server_info_view() == old(self).server_info_view()
                },
            },
    {
        if let McpMessage::Response(resp) = response {
            if let Some(e) = resp.error {
                let msg = String::from_str("Initialize failed: ").concat(e.message.as_str());
                return Err(GatewayError::McpProtocol(msg));
            }
            match parsed {
                Some(Ok(ir)) => {
                    self.capabilities = Some(ir.capabilities);
                    self.server_info = Some(ir.server_info);
                },
                Some(Err(m)) => {
                    return Err(GatewayError::Serialization(m));
                },
                None => {},
            }
        }
        self.state = ConnectionState::Ready;
        Ok(())
    }

    /// Sorts a message received from the server. A response to a pending
    /// request is delivered and its id is no longer pending.
    pub fn handle_incoming(&mut self, message: McpMessage) -> (r: Incoming)
        ensures
            final(self).same_server(old(self)),
            final(self).state_view() == old(self).state_view(),
            final(self).capabilities_view() == old(self).capabilities_view(),
            final(self).server_info_view() == old(self).server_info_view(),
            match message {
                McpMessage::Response(resp) => match pending_index(old(self).pending_view(), resp.id@) {
                    Some(i) => r == Incoming::Deliver(message) && final(self).pending_view()
                        == old(self).pending_view().remove(i),
                    None => r is Unmatched && final(self).pending_view() == old(self).pending_view(),
                },
                McpMessage::Notification(_) => r == Incoming::Notification(message)
                    && final(self).pending_view() == old(self).pending_view(),
                McpMessage::Request(_) => r == Incoming::Unexpected(message)
                    && final(self).pending_view() == old(self).pending_view(),
            },
    {
        let ghost old_view = self.pending_view();
        match message {
            McpMessage::Response(resp) => {
                proof {
                    lemma_pending_from_range(old_view, resp.id@, 0);
                }
                match self.find_pending(&resp.id) {
                    Some(i) => {
                        let ghost before = self.pending@;
                        self.pending.remove(i);
                        assert(self.pending@.map_values(|v: JsonValue| v@) =~= before.map_values(
                            |v: JsonValue| v@,
                        ).remove(i as int));
                        Incoming::Deliver(McpMessage::Response(resp))
                    },
                    None => Incoming::Unmatched,
                }
            },
            McpMessage::Notification(n) => Incoming::Notification(McpMessage::Notification(n)),
            McpMessage::Request(q) => Incoming::Unexpected(McpMessage::Request(q)),
        }
    }

    fn find_pending(&self, id: &JsonValue) -> (r: Option<usize>)
        ensures
            match pending_index(self.pending_view(), id@) {
                Some(i) => r matches Some(u) && u as int == i,
                None => r is None,
            },
            r matches Some(i) ==> i < self.pending@.len(),
    {
        let ghost p = self.pending_view();
        proof {
            lemma_pending_from_range(p, id@, 0);
        }
        let mut i: usize = 0;
        while i < self.pending.len()
            invariant
                p == self.pending_view(),
                i <= self.pending@.len(),
                pending_from(p, id@, 0) == pending_from(p, id@, i as int),
            decreases self.pending@.len() - i,
        {
            if self.pending[i].same_as(id) {
                return Some(i);
            }
            i = i + 1;
        }
        None
    }

    /// Records that the channel failed with `message`.
    pub fn on_stream_error(&mut self, message: String)
        ensures
            final(self).same_server(old(self)),
            final(self).state_view() == ConnectionState::Error(message),
            final(self).pending_view() == old(self).pending_view(),
            final(self).capabilities_view() == old(self).capabilities_view(),
            final(self).server_info_view() == old(self).server_info_view(),
    {
        self.state = ConnectionState::Error(message);
    }

    /// Records that the server closed the channel.
    pub fn on_stream_closed(&mut self)
        ensures
            final(self).same_server(old(self)),
            final(self).state_view() == ConnectionState::Disconnected,
            final(self).pending_view() == old(self).pending_view(),
            final(self).capabilities_view() == old(self).capabilities_view(),
            final(self).server_info_view() == old(self).server_info_view(),
    {
        self.state = ConnectionState::Disconnected;
    }

    /// The channel a message to the server goes over.
    pub fn send_channel(&self) -> (r: Result<Channel, GatewayError>)
        ensures
            match scheme_channel(self.scheme_view()) {
                Some(c) => r == Ok::<Channel, GatewayError>(c),
                None => r matches Err(GatewayError::McpProtocol(m)) && m@ == "Unsupported URL scheme: "@
                    + self.scheme_view(),
            },
    {
        self.channel()
    }

    /// A notification to the server.
    pub fn notification(method: &str, params: Option<JsonValue>) -> (r: McpMessage)
        ensures
            r matches McpMessage::Notification(n) && n.method@ == method@ && n.params == params,
    {
        McpMessage::new_notification(String::from_str(method), params)
    }

    /// Disconnects: the client is disconnected and nothing is pending any
    /// more. The shutdown notification returned is sent first, and a
    /// failure to send it is ignored.
    pub fn disconnect(&mut self) -> (r: McpMessage)
        ensures
            final(self).same_server(old(self)),
            final(self).state_view() == ConnectionState::Disconnected,
            final(self).pending_view().len() == 0,
            final(self).capabilities_view() == old(self).capabilities_view(),
            final(self).server_info_view() == old(self).server_info_view(),
            r matches McpMessage::Notification(n) && n.method@ == methods::SHUTDOWN@ && n.params is None,
    {
        self.state = ConnectionState::Disconnected;
        self.pending = Vec::new();
        assert(self.pending_view() =~= Seq::empty());
        Self::notification(methods::SHUTDOWN, None)
    }

    /// The current connection state.
    pub fn connection_state(&self) -> (r: ConnectionState)
        ensures
            r == self.state_view(),
    {
        self.state.copy()
    }

    /// Whether the client is ready to handle requests.
    pub fn is_ready(&self) -> (r: bool)
        ensures
            r == (self.state_view() is Ready),
    {
        match self.state {
            ConnectionState::Ready => true,
            _ => false,
        }
    }

    /// What the server announced it can do, once initialized.
    pub fn capabilities(&self) -> (r: &Option<ServerCapabilities>)
        ensures
            *r == self.capabilities_view(),
    {
        &self.capabilities
    }

    /// The server's name and version, once initialized.
    pub fn server_info(&self) -> (r: &Option<ServerInfo>)
        ensures
            *r == self.server_info_view(),
    {
        &self.server_info
    }

    pub fn server_id(&self) -> (r: &str)
        ensures
            r@ == self.server_id_view(),
    {
        self.server_id.as_str()
    }

    pub fn server_url(&self) -> (r: &ParsedUrl)
        ensures
            r.href@ == self.href_view(),
            r.scheme@ == self.scheme_view(),
    {
        &self.server_url
    }

    /// How long a request waits for its response.
    pub fn request_timeout(&self) -> (r: core::time::Duration)
        ensures
            r == self.request_timeout_view(),
    {
        self.request_timeout
    }

    /// How often a ready client pings the server.
    pub fn ping_interval(&self) -> (r: core::time::Duration)
        ensures
            r == self.ping_interval_view(),
    {
        self.ping_interval
    }
}

/// The parameters of the gateway's initialize request, as JSON.
pub open spec fn gateway_initialize_json() -> JsonModel {
    JsonModel::Object(
        seq![
            ("capabilities"@, JsonModel::Object(Seq::empty())),
            (
                "clientInfo"@,
                JsonModel::Object(
                    seq![
                        ("name"@, JsonModel::Str("mcp-gateway"@)),
                        ("version"@, JsonModel::Str(crate::VERSION@)),
                    ],
                ),
            ),
            ("protocolVersion"@, JsonModel::Str(crate::mcp::MCP_VERSION@)),
        ],
    )
}

/// The parameters the gateway introduces itself with: the protocol version
/// it speaks, no capabilities, and its name and version.
pub fn gateway_initialize_params() -> (r: InitializeParams)
    ensures
        r.protocol_version@ == crate::mcp::MCP_VERSION@,
        r.capabilities.experimental is None,
        r.capabilities.sampling is None,
        r.client_info.name@ == "mcp-gateway"@,
        r.client_info.version@ == crate::VERSION@,
{
    InitializeParams {
        protocol_version: String::from_str(crate::mcp::MCP_VERSION),
        capabilities: ClientCapabilities { experimental: None, sampling: None },
        client_info: ClientInfo {
            name: String::from_str("mcp-gateway"),
            version: String::from_str(crate::VERSION),
        },
    }
}

/// The result a response carries: refused with the server's message when
/// it carries an error, refused as malformed when it is no response or
/// carries neither.
pub fn response_result(response: McpMessage) -> (r: Result<JsonValue, GatewayError>)
    ensures
        match response {
            McpMessage::Response(resp) => match resp.error {
                Some(e) => r matches Err(GatewayError::McpProtocol(m)) && m == e.message,
                None => match resp.result {
                    Some(v) => r == Ok::<JsonValue, GatewayError>(v),
                    None => r matches Err(GatewayError::McpProtocol(m)) && m@ == "Invalid response format"@,
                },
            },
            _ => r matches Err(GatewayError::McpProtocol(m)) && m@ == "Invalid response format"@,
        },
{
    if let McpMessage::Response(resp) = response {
        if let Some(e) = resp.error {
            return Err(GatewayError::McpProtocol(e.message));
        }
        if let Some(v) = resp.result {
            return Ok(v);
        }
    }
    Err(GatewayError::McpProtocol(String::from_str("Invalid response format")))
}

/// A fresh request's response, once delivered, removes exactly that request
/// from the pending ones.
pub proof fn law_delivery_removes_the_request(pending: Seq<JsonModel>, id: JsonModel)
    requires
        !pending.contains(id),
    ensures
        pending_index(pending.push(id), id) == Some(pending.len() as int),
        pending.push(id).remove(pending.len() as int) == pending,
{
    let p = pending.push(id);
    assert forall|j: int| 0 <= j < pending.len() implies p[j] != id by {
        assert(p[j] == pending[j]);
    }
    lemma_pending_first(p, id, 0, pending.len() as int);
    assert(p.remove(pending.len() as int) =~= pending);
}

proof fn lemma_pending_first(p: Seq<JsonModel>, id: JsonModel, from: int, k: int)
    requires
        0 <= from <= k < p.len(),
        p[k] == id,
        forall|j: int| from <= j < k ==> p[j] != id,
    ensures
        pending_from(p, id, from) == Some(k),
    decreases k - from,
{
    if from < k {
        lemma_pending_first(p, id, from + 1, k);
    }
}

/// A client reaches its server over a WebSocket for the `ws` and `wss`
/// schemes and over HTTP for `http` and `https`; no other scheme has a
/// channel. These are the schemes for which the transport factory builds a
/// WebSocket or an HTTP transport.
pub proof fn law_web_schemes_have_channels(scheme: Seq<char>)
    ensures
        (scheme_channel(scheme) == Some(Channel::WebSocket)) == (scheme == "ws"@ || scheme == "wss"@),
        (scheme_channel(scheme) == Some(Channel::Http)) == (scheme == "http"@ || scheme == "https"@),
        scheme_channel(scheme) is None == !(scheme == "ws"@ || scheme == "wss"@ || scheme == "http"@
            || scheme == "https"@),
        (scheme_channel(scheme) == Some(Channel::WebSocket)) == (crate::mcp::transport::scheme_transport(scheme)
            == Some(crate::mcp::transport::TransportType::WebSocket)),
        (scheme_channel(scheme) == Some(Channel::Http)) == (crate::mcp::transport::scheme_transport(scheme)
            == Some(crate::mcp::transport::TransportType::Http)),
{
    reveal_strlit("ws");
    reveal_strlit("wss");
    reveal_strlit("http");
    reveal_strlit("https");
    reveal_strlit("unix");
    if scheme == "unix"@ {
        assert("unix"@.len() != "ws"@.len());
        assert("unix"@[0] != "http"@[0]);
        assert("unix"@.len() != "wss"@.len());
        assert("unix"@.len() != "https"@.len());
    }
    assert("ws"@ != "http"@) by { assert("ws"@.len() != "http"@.len()); }
    assert("ws"@ != "https"@) by { assert("ws"@.len() != "https"@.len()); }
    assert("wss"@ != "http"@) by { assert("wss"@.len() != "http"@.len()); }
    assert("wss"@ != "https"@) by { assert("wss"@.len() != "https"@.len()); }
}

} // verus!
