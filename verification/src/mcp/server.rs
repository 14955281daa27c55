//! The server side of the gateway: the MCP connections of its clients,
//! what each message from a client leads to, and how messages that the
//! gateway does not answer itself are routed to upstream servers. The
//! embedding application owns the sockets and the upstream clients and
//! carries out the steps decided here.
use vstd::prelude::*;

use crate::error::{message_of, GatewayError};
use crate::json::{copy_entries, entries_model, JsonModel, JsonValue};
use crate::mcp::protocol::{
    check_outcome, initialize_result_json, initialize_result_model, message_problem, validate_message,
    McpProtocol,
};
use crate::mcp::{
    error_codes, error_is, methods, new_uuid_v4_string, ClientCapabilities, ClientInfo,
    InitializeParams, McpError, McpMessage, McpNotification, McpRequest, SamplingCapabilities,
};
use crate::table::str_eq;

verus! {

/// An MCP connection of a client.
#[derive(Debug)]
pub struct ConnectionHandle {
    pub connection_id: String,
    pub client_info: Option<ClientInfo>,
    pub capabilities: Option<ClientCapabilities>,
    pub initialized: bool,
}

/// What is known of a connection.
#[derive(Debug)]
pub struct ConnectionInfo {
    pub connection_id: String,
    pub client_info: Option<ClientInfo>,
    pub capabilities: Option<ClientCapabilities>,
    pub initialized: bool,
}

/// Two sets of client capabilities that agree.
pub open spec fn same_capabilities(a: ClientCapabilities, b: ClientCapabilities) -> bool {
    &&& a.sampling is Some == b.sampling is Some
    &&& match (a.experimental, b.experimental) {
        (Some(x), Some(y)) => entries_model(x@) == entries_model(y@),
        (None, None) => true,
        _ => false,
    }
}

/// Two optional sets of client capabilities that agree.
pub open spec fn same_opt_capabilities(a: Option<ClientCapabilities>, b: Option<ClientCapabilities>) -> bool {
    match (a, b) {
        (Some(x), Some(y)) => same_capabilities(x, y),
        (None, None) => true,
        _ => false,
    }
}

/// `info` describes connection `h`.
pub open spec fn describes(info: ConnectionInfo, h: ConnectionHandle) -> bool {
    &&& info.connection_id == h.connection_id
    &&& info.client_info == h.client_info
    &&& same_opt_capabilities(info.capabilities, h.capabilities)
    &&& info.initialized == h.initialized
}

fn copy_client_info(c: &Option<ClientInfo>) -> (r: Option<ClientInfo>)
    ensures
        r == *c,
{
    match c {
        Some(i) => Some(ClientInfo { name: i.name.clone(), version: i.version.clone() }),
        None => None,
    }
}

fn copy_capabilities(c: &Option<ClientCapabilities>) -> (r: Option<ClientCapabilities>)
    ensures
        same_opt_capabilities(r, *c),
{
    match c {
        Some(caps) => Some(
            ClientCapabilities {
                experimental: match &caps.experimental {
                    Some(e) => Some(copy_entries(e)),
                    None => None,
                },
                sampling: match &caps.sampling {
                    Some(_) => Some(SamplingCapabilities {  }),
                    None => None,
                },
            },
        ),
        None => None,
    }
}

fn info_of(h: &ConnectionHandle) -> (r: ConnectionInfo)
    ensures
        describes(r, *h),
{
    ConnectionInfo {
        connection_id: h.connection_id.clone(),
        client_info: copy_client_info(&h.client_info),
        capabilities: copy_capabilities(&h.capabilities),
        initialized: h.initialized,
    }
}

/// The position of the connection `id`, looking from position `i` on.
pub open spec fn conn_from(s: Seq<ConnectionHandle>, id: Seq<char>, i: int) -> Option<int>
    decreases s.len() - i,
{
    if i < 0 || i >= s.len() {
        None
    } else if s[i].connection_id@ == id {
        Some(i)
    } else {
        conn_from(s, id, i + 1)
    }
}

/// The position of the connection `id`.
pub open spec fn conn_index(s: Seq<ConnectionHandle>, id: Seq<char>) -> Option<int> {
    conn_from(s, id, 0)
}

/// No two connections share an id.
pub open spec fn ids_distinct(s: Seq<ConnectionHandle>) -> bool {
    forall|i: int, j: int|
        0 <= i < s.len() && 0 <= j < s.len() && i != j ==> #[trigger] s[i].connection_id@
            != #[trigger] s[j].connection_id@
}

proof fn lemma_conn_from(s: Seq<ConnectionHandle>, id: Seq<char>, i: int)
    requires
        0 <= i,
    ensures
        conn_from(s, id, i) matches Some(k) ==> i <= k < s.len() && s[k].connection_id@ == id,
        conn_from(s, id, i) is None ==> forall|j: int| i <= j < s.len() ==> s[j].connection_id@ != id,
    decreases s.len() - i,
{
    if i < s.len() && s[i].connection_id@ != id {
        lemma_conn_from(s, id, i + 1);
    }
}

/// What a message from a client leads to, once it is handled.
#[derive(Debug)]
pub enum ServerAction {
    /// Send this answer to the client.
    Reply(McpMessage),
    /// Hand the message to the message router.
    Route(McpMessage),
}

/// What happened on a client's WebSocket.
#[derive(Debug)]
pub enum ConnectionEvent {
    /// A text frame holding an MCP message. `raw_id` is the `id` member of
    /// the frame's JSON, if it has one; `init_params` is what reading the
    /// parameters of an `initialize` request gave, present exactly for an
    /// `initialize` request that has parameters.
    Message {
        message: McpMessage,
        raw_id: Option<JsonValue>,
        init_params: Option<Result<InitializeParams, String>>,
    },
    /// A text frame that holds no MCP message.
    Unparsable,
    /// A binary frame.
    Binary,
    /// A ping, with its payload.
    Ping(Vec<u8>),
    /// A pong.
    Pong,
    /// The client closed the connection.
    Close,
    /// The socket failed.
    Failed,
}

/// What to do after an event on a client's WebSocket.
#[derive(Debug)]
pub enum ServerStep {
    /// Send this message to the client.
    Reply(McpMessage),
    /// Hand this message to the message router.
    Route(McpMessage),
    /// Answer a ping with this payload.
    Pong(Vec<u8>),
    /// Nothing to do.
    Ignore,
    /// Stop reading: the connection is gone.
    Close,
}

/// Whether a message is an `initialize` request that carries parameters.
pub open spec fn is_initialize_with_params(m: McpMessage) -> bool {
    m matches McpMessage::Request(req) && req.method@ == methods::INITIALIZE@ && req.params is Some
}

/// The empty object that answers `ping` and `shutdown`.
pub open spec fn empty_result(id: JsonValue, m: McpMessage) -> bool {
    m matches McpMessage::Response(resp) && resp.id == id && resp.error is None && (resp.result matches Some(
        v,
    ) && v@ == JsonModel::Object(Seq::empty()))
}

/// The gateway's MCP server: the protocol state it announces and the
/// connections of its clients.
pub struct McpServer {
    server_id: String,
    protocol: McpProtocol,
    connections: Vec<ConnectionHandle>,
}

impl McpServer {
    pub closed spec fn server_id_view(&self) -> Seq<char> {
        self.server_id@
    }

    pub closed spec fn protocol_view(&self) -> McpProtocol {
        self.protocol
    }

    /// The connections, in the order they were opened.
    pub closed spec fn connections_view(&self) -> Seq<ConnectionHandle> {
        self.connections@
    }

    /// No two connections share an id.
    pub open spec fn wf(&self) -> bool {
        ids_distinct(self.connections_view())
    }

    /// Whether connection `id` is open.
    pub open spec fn has_connection(&self, id: Seq<char>) -> bool {
        conn_index(self.connections_view(), id) is Some
    }

    /// A server without connections, announcing itself as
    /// `<server_id>-gateway` at the crate's version.
    pub fn new(server_id: String) -> (r: Self)
        ensures
            r.wf(),
            r.connections_view().len() == 0,
            r.server_id_view() == server_id@,
            r.protocol_view().server_info_view().name@ == server_id@ + "-gateway"@,
            r.protocol_view().server_info_view().version@ == crate::VERSION@,
            !r.protocol_view().initialized_view(),
    {
        let name = server_id.clone().concat("-gateway");
        McpServer {
            server_id,
            protocol: McpProtocol::new(name, String::from_str(crate::VERSION)),
            connections: Vec::new(),
        }
    }

    fn find(&self, id: &str) -> (r: Option<usize>)
        ensures
            match conn_index(self.connections_view(), id@) {
                Some(k) => r matches Some(u) && u as int == k,
                None => r is None,
            },
            r matches Some(u) ==> u < self.connections@.len(),
    {
        proof {
            lemma_conn_from(self.connections@, id@, 0);
        }
        let mut i: usize = 0;
        while i < self.connections.len()
            invariant
                i <= self.connections@.len(),
                conn_index(self.connections@, id@) == conn_from(self.connections@, id@, i as int),
            decreases self.connections@.len() - i,
        {
            if str_eq(self.connections[i].connection_id.as_str(), id) {
                return Some(i);
            }
            i = i + 1;
        }
        None
    }

    /// Opens a connection under a fresh random id, which is returned. A
    /// connection that had that id already is replaced.
    pub fn open_connection(&mut self) -> (r: String)
        requires
            old(self).wf(),
        ensures
            final(self).wf(),
            crate::mcp::is_uuid_v4_text(r@),
            final(self).server_id_view() == old(self).server_id_view(),
            final(self).protocol_view() == old(self).protocol_view(),
            ({
                let fresh = ConnectionHandle {
                    connection_id: r,
                    client_info: None,
                    capabilities: None,
                    initialized: false,
                };
                match conn_index(old(self).connections_view(), r@) {
                    Some(k) => final(self).connections_view() == old(self).connections_view().update(k, fresh),
                    None => final(self).connections_view() == old(self).connections_view().push(fresh),
                }
            }),
    {
        let id = new_uuid_v4_string();
        let handle = ConnectionHandle {
            connection_id: id.clone(),
            client_info: None,
            capabilities: None,
            initialized: false,
        };
        let ghost before = self.connections@;
        match self.find(id.as_str()) {
            Some(k) => {
                proof {
                    lemma_conn_from(before, id@, 0);
                }
                self.connections.set(k, handle);
                proof {
                    let after = self.connections@;
                    assert forall|i: int, j: int|
                        0 <= i < after.len() && 0 <= j < after.len() && i != j implies #[trigger] after[i].connection_id@
                            != #[trigger] after[j].connection_id@ by {
                        assert(before[i].connection_id@ != before[j].connection_id@);
                    }
                }
            },
            None => {
                proof {
                    lemma_conn_from(before, id@, 0);
                }
                self.connections.push(handle);
                proof {
                    let after = self.connections@;
                    assert forall|i: int, j: int|
                        0 <= i < after.len() && 0 <= j < after.len() && i != j implies #[trigger] after[i].connection_id@
                            != #[trigger] after[j].connection_id@ by {
                        if i < before.len() && j < before.len() {
                            assert(before[i].connection_id@ != before[j].connection_id@);
                        }
                    }
                }
            },
        }
        id
    }

    /// Forgets connection `id`, if it is open.
    pub fn remove_connection(&mut self, id: &str)
        requires
            old(self).wf(),
        ensures
            final(self).wf(),
            final(self).server_id_view() == old(self).server_id_view(),
            final(self).protocol_view() == old(self).protocol_view(),
            match conn_index(old(self).connections_view(), id@) {
                Some(k) => final(self).connections_view() == old(self).connections_view().remove(k),
                None => final(self).connections_view() == old(self).connections_view(),
            },
    {
        match self.find(id) {
            Some(k) => {
                let ghost before = self.connections@;
                self.connections.remove(k);
                proof {
                    let after = self.connections@;
                    assert forall|i: int, j: int|
                        0 <= i < after.len() && 0 <= j < after.len() && i != j implies #[trigger] after[i].connection_id@
                            != #[trigger] after[j].connection_id@ by {
                        let i2 = if i < k { i } else { i + 1 };
                        let j2 = if j < k { j } else { j + 1 };
                        assert(after[i] == before[i2]);
                        assert(after[j] == before[j2]);
                        assert(before[i2].connection_id@ != before[j2].connection_id@);
                    }
                }
            },
            None => {},
        }
    }

    /// Closes connection `id`; refused when it is not open.
    pub fn close_connection(&mut self, id: &str) -> (r: Result<(), GatewayError>)
        requires
            old(self).wf(),
        ensures
            final(self).wf(),
            final(self).server_id_view() == old(self).server_id_view(),
            final(self).protocol_view() == old(self).protocol_view(),
            match conn_index(old(self).connections_view(), id@) {
                Some(k) => r is Ok && final(self).connections_view() == old(self).connections_view().remove(k),
                None => r matches Err(GatewayError::NotFound(m)) && m@ == "Connection "@ + id@
                    && final(self).connections_view() == old(self).connections_view(),
            },
    {
        match self.find(id) {
            Some(_) => {
                self.remove_connection(id);
                Ok(())
            },
            None => Err(GatewayError::NotFound(String::from_str("Connection ").concat(id))),
        }
    }

    /// The number of open connections.
    pub fn connection_count(&self) -> (r: usize)
        ensures
            r == self.connections_view().len(),
    {
        self.connections.len()
    }

    /// What is known of connection `id`, if it is open.
    pub fn get_connection_info(&self, id: &str) -> (r: Option<ConnectionInfo>)
        ensures
            match conn_index(self.connections_view(), id@) {
                Some(k) => r matches Some(info) && describes(info, self.connections_view()[k]),
                None => r is None,
            },
    {
        match self.find(id) {
            Some(k) => Some(info_of(&self.connections[k])),
            None => None,
        }
    }

    /// What is known of every open connection.
    pub fn list_connections(&self) -> (r: Vec<ConnectionInfo>)
        ensures
            r@.len() == self.connections_view().len(),
            forall|i: int| 0 <= i < r@.len() ==> describes(#[trigger] r@[i], self.connections_view()[i]),
    {
        let mut out: Vec<ConnectionInfo> = Vec::new();
        let mut i: usize = 0;
        while i < self.connections.len()
            invariant
                i <= self.connections@.len(),
                out@.len() == i,
                forall|j: int| 0 <= j < i ==> describes(#[trigger] out@[j], self.connections@[j]),
            decreases self.connections@.len() - i,
        {
            out.push(info_of(&self.connections[i]));
            i = i + 1;
        }
        out
    }

    /// The ids of the open connections, to which a broadcast goes.
    pub fn connection_ids(&self) -> (r: Vec<String>)
        ensures
            r@.len() == self.connections_view().len(),
            forall|i: int| 0 <= i < r@.len() ==> #[trigger] r@[i] == self.connections_view()[i].connection_id,
    {
        let mut out: Vec<String> = Vec::new();
        let mut i: usize = 0;
        while i < self.connections.len()
            invariant
                i <= self.connections@.len(),
                out@.len() == i,
                forall|j: int| 0 <= j < i ==> #[trigger] out@[j] == self.connections@[j].connection_id,
            decreases self.connections@.len() - i,
        {
            out.push(self.connections[i].connection_id.clone());
            i = i + 1;
        }
        out
    }

    /// Whether a message may be sent to connection `id`: refused when it is
    /// not open.
    pub fn send_message(&self, id: &str) -> (r: Result<(), GatewayError>)
        ensures
            self.has_connection(id@) ==> r is Ok,
            !self.has_connection(id@) ==> (r matches Err(GatewayError::NotFound(m)) && m@ == "Connection "@
                + id@),
    {
        match self.find(id) {
            Some(_) => Ok(()),
            None => Err(GatewayError::NotFound(String::from_str("Connection ").concat(id))),
        }
    }
}

/// The answer to a request that goes wrong in the server: an internal error
/// that carries the error's message.
pub open spec fn internal_error_reply(id: JsonValue, e: GatewayError, m: McpMessage) -> bool {
    internal_error_text_reply(id, message_of(e), m)
}

/// An internal-error answer to request `id` that carries `text`.
pub open spec fn internal_error_text_reply(id: JsonValue, text: Seq<char>, m: McpMessage) -> bool {
    m matches McpMessage::Response(resp) && resp.id == id && resp.result is None && (resp.error matches Some(
        err,
    ) && error_is(err, error_codes::INTERNAL_ERROR, "Internal error: "@ + text))
}


/// Connection `id` learnt the client's name, version and capabilities from
/// `p` and is initialized; the other connections are as they were.
pub open spec fn learnt(old: Seq<ConnectionHandle>, new: Seq<ConnectionHandle>, id: Seq<char>, p: InitializeParams) -> bool {
    match conn_index(old, id) {
        Some(k) => {
            &&& new.len() == old.len()
            &&& forall|j: int| 0 <= j < old.len() && j != k ==> #[trigger] new[j] == old[j]
            &&& new[k].connection_id == old[k].connection_id
            &&& new[k].client_info == Some(p.client_info)
            &&& new[k].capabilities == Some(p.capabilities)
            &&& new[k].initialized
        },
        None => new == old,
    }
}

/// `m` answers request `rid` with the result of a successful `initialize`.
pub open spec fn initialize_reply(rid: JsonValue, protocol: McpProtocol, m: McpMessage) -> bool {
    m matches McpMessage::Response(resp) && resp.id == rid && resp.error is None && (resp.result matches Some(
        v,
    ) && v@ == initialize_result_model(protocol.capabilities_view(), protocol.server_info_view()))
}

/// `m` answers request `rid` that had no parameters where they are needed.
pub open spec fn missing_params_reply(rid: JsonValue, m: McpMessage) -> bool {
    m matches McpMessage::Response(resp) && resp.id == rid && resp.result is None && (resp.error matches Some(e)
        && error_is(e, error_codes::INVALID_PARAMS, "Invalid params: "@ + "Initialize params required"@))
}

/// `r` refuses to answer connection `id`, which is not open.
pub open spec fn not_open(id: Seq<char>, r: Result<ServerAction, GatewayError>) -> bool {
    r matches Err(GatewayError::NotFound(m)) && m@ == "Connection "@ + id
}

/// What handling a message from connection `id` does to the connections
/// (`old` before, `new` after) and what it gives (`r`). `init` is what
/// reading the parameters of an `initialize` request gave.
pub open spec fn message_handled(
    old: Seq<ConnectionHandle>,
    new: Seq<ConnectionHandle>,
    protocol: McpProtocol,
    id: Seq<char>,
    message: McpMessage,
    init: Option<Result<InitializeParams, String>>,
    r: Result<ServerAction, GatewayError>,
) -> bool {
    match message_problem(message) {
        Some(p) => new == old && (r matches Err(GatewayError::McpProtocol(s)) && s@ == p),
        None => match message {
            McpMessage::Request(req) => if req.method@ == methods::INITIALIZE@ {
                match init {
                    None => new == old && if conn_index(old, id) is Some {
                        r matches Ok(ServerAction::Reply(m)) && missing_params_reply(req.id, m)
                    } else {
                        not_open(id, r)
                    },
                    Some(Err(e)) => new == old && (r matches Err(GatewayError::McpProtocol(s)) && s@
                        == "Invalid initialize params: "@ + e@),
                    Some(Ok(p)) => learnt(old, new, id, p) && if conn_index(old, id) is Some {
                        r matches Ok(ServerAction::Reply(m)) && initialize_reply(req.id, protocol, m)
                    } else {
                        not_open(id, r)
                    },
                }
            } else if req.method@ == methods::PING@ || req.method@ == methods::SHUTDOWN@ {
                new == old && if conn_index(old, id) is Some {
                    r matches Ok(ServerAction::Reply(m)) && empty_result(req.id, m)
                } else {
                    not_open(id, r)
                }
            } else {
                new == old && r == Ok::<ServerAction, GatewayError>(ServerAction::Route(message))
            },
            _ => new == old && r == Ok::<ServerAction, GatewayError>(ServerAction::Route(message)),
        },
    }
}

/// The step that follows handling a message: its answer, its routing, or,
/// for a failure, the error answer (see `error_reply`).
pub open spec fn step_after(
    handled: Result<ServerAction, GatewayError>,
    raw_id: Option<JsonValue>,
    open: bool,
    step: ServerStep,
) -> bool {
    match handled {
        Ok(ServerAction::Reply(m)) => step == ServerStep::Reply(m),
        Ok(ServerAction::Route(m)) => step == ServerStep::Route(m),
        Err(e) => match raw_id {
            Some(rid) => if open {
                step matches ServerStep::Reply(m) && internal_error_reply(rid, e, m)
            } else {
                step is Ignore
            },
            None => step is Ignore,
        },
    }
}

impl McpServer {
    /// Answers an `initialize` request of connection `id`. `parsed` is what
    /// reading the request's parameters gave, present exactly when it has
    /// parameters. The connection learns the client's name, version and
    /// capabilities and is initialized.
    pub fn handle_initialize_request(
        &mut self,
        id: &str,
        request: McpRequest,
        parsed: Option<Result<InitializeParams, String>>,
    ) -> (r: Result<McpMessage, GatewayError>)
        requires
            old(self).wf(),
            (parsed is Some) == (request.params is Some),
        ensures
            final(self).wf(),
            final(self).server_id_view() == old(self).server_id_view(),
            final(self).protocol_view() == old(self).protocol_view(),
            match parsed {
                None => final(self).connections_view() == old(self).connections_view() && (r matches Ok(
                    McpMessage::Response(resp),
                ) && resp.id == request.id && resp.result is None && (resp.error matches Some(e)
                    && error_is(e, error_codes::INVALID_PARAMS, "Invalid params: "@ + "Initialize params required"@))),
                Some(Err(m)) => final(self).connections_view() == old(self).connections_view() && (r matches Err(
                    GatewayError::McpProtocol(s),
                ) && s@ == "Invalid initialize params: "@ + m@),
                Some(Ok(p)) => {
                    &&& r matches Ok(McpMessage::Response(resp)) && resp.id == request.id && resp.error is None
                        && (resp.result matches Some(v) && v@ == initialize_result_model(
                        old(self).protocol_view().capabilities_view(),
                        old(self).protocol_view().server_info_view(),
                    ))
                    &&& match conn_index(old(self).connections_view(), id@) {
                        Some(k) => final(self).connections_view().len() == old(self).connections_view().len()
                            && (forall|j: int| 0 <= j < old(self).connections_view().len() && j != k ==> #[trigger] final(self).connections_view()[j] == old(self).connections_view()[j])
                            && final(self).connections_view()[k].connection_id == old(self).connections_view()[k].connection_id
                            && final(self).connections_view()[k].client_info == Some(p.client_info)
                            && final(self).connections_view()[k].capabilities == Some(p.capabilities)
                            && final(self).connections_view()[k].initialized,
                        None => final(self).connections_view() == old(self).connections_view(),
                    }
                },
            },
    {
        let params = match parsed {
            None => {
                let e = McpError::invalid_params("Initialize params required");
                return Ok(McpMessage::new_error_response(request.id, e));
            },
            Some(Err(m)) => {
                return Err(
                    GatewayError::McpProtocol(String::from_str("Invalid initialize params: ").concat(m.as_str())),
                );
            },
            Some(Ok(p)) => p,
        };
        match self.find(id) {
            Some(k) => {
                let ghost before = self.connections@;
                let old_id = self.connections[k].connection_id.clone();
                let handle = ConnectionHandle {
                    connection_id: old_id,
                    client_info: Some(params.client_info),
                    capabilities: Some(params.capabilities),
                    initialized: true,
                };
                self.connections.set(k, handle);
                proof {
                    let after = self.connections@;
                    assert forall|i: int, j: int|
                        0 <= i < after.len() && 0 <= j < after.len() && i != j implies #[trigger] after[i].connection_id@
                            != #[trigger] after[j].connection_id@ by {
                        assert(before[i].connection_id@ != before[j].connection_id@);
                    }
                }
            },
            None => {},
        }
        let result = initialize_result_json(self.protocol.capabilities(), self.protocol.server_info());
        Ok(McpMessage::new_response(request.id, Some(result)))
    }

    /// Handles a message from connection `id`: it is checked (see
    /// `validate_message`); `initialize`, `ping` and `shutdown` requests are
    /// answered here, every other message goes to the router. An answer
    /// needs the connection to be open. `init_params` is as for
    /// `handle_initialize_request`, present only for an `initialize`
    /// request with parameters.
    pub fn handle_message(
        &mut self,
        id: &str,
        message: McpMessage,
        init_params: Option<Result<InitializeParams, String>>,
    ) -> (r: Result<ServerAction, GatewayError>)
        requires
            old(self).wf(),
            (init_params is Some) == is_initialize_with_params(message),
        ensures
            final(self).wf(),
            final(self).server_id_view() == old(self).server_id_view(),
            final(self).protocol_view() == old(self).protocol_view(),
            message_handled(
                old(self).connections_view(),
                final(self).connections_view(),
                old(self).protocol_view(),
                id@,
                message,
                init_params,
                r,
            ),
    {
        match validate_message(&message) {
            Ok(()) => {},
            Err(e) => {
                return Err(e);
            },
        }
        match message {
            McpMessage::Request(request) => {
                let method = request.method.as_str();
                if str_eq(method, methods::INITIALIZE) {
                    let ghost before = self.connections@;
                    let response = match self.handle_initialize_request(id, request, init_params) {
                        Ok(m) => m,
                        Err(e) => {
                            return Err(e);
                        },
                    };
                    proof {
                        lemma_conn_from(before, id@, 0);
                        lemma_conn_from(self.connections@, id@, 0);
                        if let Some(k) = conn_index(before, id@) {
                            assert(self.connections@[k].connection_id@ == id@);
                        }
                    }
                    match self.send_message(id) {
                        Ok(()) => {},
                        Err(e) => {
                            return Err(e);
                        },
                    }
                    Ok(ServerAction::Reply(response))
                } else if str_eq(method, methods::PING) || str_eq(method, methods::SHUTDOWN) {
                    let response = McpMessage::new_response(request.id, Some(crate::json::empty_object()));
                    match self.send_message(id) {
                        Ok(()) => {},
                        Err(e) => {
                            return Err(e);
                        },
                    }
                    Ok(ServerAction::Reply(response))
                } else {
                    Ok(ServerAction::Route(McpMessage::Request(request)))
                }
            },
            other => Ok(ServerAction::Route(other)),
        }
    }

    /// The answer that reports a failure to handle a message: when the
    /// frame had an id and the connection is open, an internal error that
    /// carries the failure's message; else nothing.
    pub fn error_reply(&self, id: &str, raw_id: Option<JsonValue>, error: GatewayError) -> (r: ServerStep)
        ensures
            match raw_id {
                Some(rid) => if self.has_connection(id@) {
                    r matches ServerStep::Reply(m) && internal_error_reply(rid, error, m)
                } else {
                    r is Ignore
                },
                None => r is Ignore,
            },
    {
        match raw_id {
            Some(rid) => {
                if self.send_message(id).is_ok() {
                    let text = error.message();
                    let e = McpError::internal_error(text.as_str());
                    ServerStep::Reply(McpMessage::new_error_response(rid, e))
                } else {
                    ServerStep::Ignore
                }
            },
            None => ServerStep::Ignore,
        }
    }

    /// What an event on the WebSocket of connection `id` leads to. A closed
    /// or failed socket ends the connection.
    pub fn on_event(&mut self, id: &str, event: ConnectionEvent) -> (r: ServerStep)
        requires
            old(self).wf(),
            event matches ConnectionEvent::Message { message, init_params, .. } ==> (init_params is Some)
                == is_initialize_with_params(message),
        ensures
            final(self).wf(),
            final(self).server_id_view() == old(self).server_id_view(),
            final(self).protocol_view() == old(self).protocol_view(),
            match event {
                ConnectionEvent::Unparsable => final(self).connections_view() == old(self).connections_view()
                    && if old(self).has_connection(id@) {
                    r matches ServerStep::Reply(McpMessage::Response(resp)) && resp.id == JsonValue::Null
                        && resp.result is None && (resp.error matches Some(e) && error_is(
                        e,
                        error_codes::PARSE_ERROR,
                        "Parse error"@,
                    ))
                } else {
                    r is Ignore
                },
                ConnectionEvent::Binary => r is Ignore && final(self).connections_view() == old(
                    self,
                ).connections_view(),
                ConnectionEvent::Pong => r is Ignore && final(self).connections_view() == old(self).connections_view(),
                ConnectionEvent::Ping(data) => r == ServerStep::Pong(data) && final(self).connections_view()
                    == old(self).connections_view(),
                ConnectionEvent::Close | ConnectionEvent::Failed => r is Close && !final(self).has_connection(id@)
                    && match conn_index(old(self).connections_view(), id@) {
                    Some(k) => final(self).connections_view() == old(self).connections_view().remove(k),
                    None => final(self).connections_view() == old(self).connections_view(),
                },
                ConnectionEvent::Message { message, raw_id, init_params } => exists|h: Result<ServerAction, GatewayError>|
                    #[trigger] message_handled(
                        old(self).connections_view(),
                        final(self).connections_view(),
                        old(self).protocol_view(),
                        id@,
                        message,
                        init_params,
                        h,
                    ) && step_after(h, raw_id, final(self).has_connection(id@), r),
            },
    {
        match event {
            ConnectionEvent::Message { message, raw_id, init_params } => {
                let ghost before = self.connections@;
                let ghost m0 = message;
                let ghost i0 = init_params;
                let ghost r0 = raw_id;
                let handled = self.handle_message(id, message, init_params);
                let ghost h = handled;
                let step = match handled {
                    Ok(ServerAction::Reply(m)) => ServerStep::Reply(m),
                    Ok(ServerAction::Route(m)) => ServerStep::Route(m),
                    Err(e) => self.error_reply(id, raw_id, e),
                };
                assert(message_handled(before, self.connections@, self.protocol, id@, m0, i0, h));
                assert(step_after(h, r0, self.has_connection(id@), step));
                step
            },
            ConnectionEvent::Unparsable => {
                if self.send_message(id).is_ok() {
                    ServerStep::Reply(McpMessage::new_error_response(JsonValue::Null, McpError::parse_error()))
                } else {
                    ServerStep::Ignore
                }
            },
            ConnectionEvent::Binary => ServerStep::Ignore,
            ConnectionEvent::Pong => ServerStep::Ignore,
            ConnectionEvent::Ping(data) => ServerStep::Pong(data),
            ConnectionEvent::Close | ConnectionEvent::Failed => {
                let ghost before = self.connections@;
                proof {
                    lemma_conn_from(before, id@, 0);
                }
                self.remove_connection(id);
                proof {
                    let after = self.connections@;
                    lemma_conn_from(after, id@, 0);
                    if let Some(k) = conn_index(before, id@) {
                        assert forall|j: int| 0 <= j < after.len() implies after[j].connection_id@ != id@ by {
                            let j2 = if j < k { j } else { j + 1 };
                            assert(after[j] == before[j2]);
                            assert(before[j2].connection_id@ != before[k].connection_id@);
                        }
                    }
                    if let Some(k2) = conn_index(after, id@) {
                        assert(after[k2].connection_id@ == id@);
                    }
                }
                ServerStep::Close
            },
        }
    }
}

/// Where the router sends a message.
#[derive(Debug)]
pub enum RouteDecision {
    /// Send the request to this upstream client and answer with what it
    /// gives (see `forward_outcome`).
    Forward { client: String, request: McpRequest },
    /// Answer with this message.
    Reply(McpMessage),
    /// Send the notification to each of these upstream clients, ignoring
    /// failures.
    Notify { clients: Vec<String>, notification: McpNotification },
    /// Nothing to send: responses belong to the client that asked.
    Nothing,
}

/// The names of the ready clients, in order.
pub open spec fn ready_names(names: Seq<String>, ready: Seq<bool>) -> Seq<Seq<char>>
    decreases names.len(),
{
    if names.len() == 0 || ready.len() == 0 {
        Seq::empty()
    } else {
        let rest = ready_names(names.drop_last(), ready.drop_last());
        if ready.last() {
            rest.push(names.last()@)
        } else {
            rest
        }
    }
}

/// Routes messages between the gateway's clients and its upstream
/// servers, which it knows by name in the order they were added.
pub struct DefaultMessageRouter {
    upstream_clients: Vec<String>,
}

impl DefaultMessageRouter {
    /// The names of the upstream clients, in the order they were added.
    pub closed spec fn clients_view(&self) -> Seq<String> {
        self.upstream_clients@
    }

    pub fn new() -> (r: Self)
        ensures
            r.clients_view().len() == 0,
    {
        DefaultMessageRouter { upstream_clients: Vec::new() }
    }

    fn position(&self, name: &str) -> (r: Option<usize>)
        ensures
            match r {
                Some(i) => i < self.clients_view().len() && self.clients_view()[i as int]@ == name@
                    && forall|j: int| 0 <= j < i ==> self.clients_view()[j]@ != name@,
                None => forall|j: int| 0 <= j < self.clients_view().len() ==> self.clients_view()[j]@ != name@,
            },
    {
        let mut i: usize = 0;
        while i < self.upstream_clients.len()
            invariant
                i <= self.upstream_clients@.len(),
                forall|j: int| 0 <= j < i ==> self.upstream_clients@[j]@ != name@,
            decreases self.upstream_clients@.len() - i,
        {
            if str_eq(self.upstream_clients[i].as_str(), name) {
                return Some(i);
            }
            i = i + 1;
        }
        None
    }

    /// Adds an upstream client by name; a name already known keeps its place.
    pub fn add_upstream_client(&mut self, name: String)
        ensures
            (exists|j: int| 0 <= j < old(self).clients_view().len() && old(self).clients_view()[j]@ == name@)
                ==> final(self).clients_view() == old(self).clients_view(),
            !(exists|j: int| 0 <= j < old(self).clients_view().len() && old(self).clients_view()[j]@ == name@)
                ==> final(self).clients_view() == old(self).clients_view().push(name),
    {
        match self.position(name.as_str()) {
            Some(_) => {},
            None => self.upstream_clients.push(name),
        }
    }

    /// Removes the upstream client of that name, if any.
    pub fn remove_upstream_client(&mut self, name: &str)
        ensures
            (forall|j: int| 0 <= j < old(self).clients_view().len() ==> old(self).clients_view()[j]@ != name@)
                ==> final(self).clients_view() == old(self).clients_view(),
            (exists|j: int| 0 <= j < old(self).clients_view().len() && old(self).clients_view()[j]@ == name@)
                ==> exists|k: int|
                0 <= k < old(self).clients_view().len() && old(self).clients_view()[k]@ == name@ && (forall|
                    j: int,
                | 0 <= j < k ==> old(self).clients_view()[j]@ != name@) && final(self).clients_view()
                    == old(self).clients_view().remove(k),
    {
        match self.position(name) {
            Some(i) => {
                self.upstream_clients.remove(i);
            },
            None => {},
        }
    }

    /// Whether an upstream client of that name is known.
    pub fn has_upstream_client(&self, name: &str) -> (r: bool)
        ensures
            r == exists|j: int| 0 <= j < self.clients_view().len() && self.clients_view()[j]@ == name@,
    {
        self.position(name).is_some()
    }

    /// The names of the upstream clients.
    pub fn list_upstream_clients(&self) -> (r: Vec<String>)
        ensures
            r@ == self.clients_view(),
    {
        crate::config::copy_strings(&self.upstream_clients)
    }

    /// Where a message goes. `ready` tells, for each upstream client in
    /// order, whether it is ready. A request goes to the first upstream
    /// client when that one is ready, and is answered "method not found"
    /// otherwise; a notification goes to every ready upstream client.
    pub fn route_message(&self, message: McpMessage, ready: &Vec<bool>) -> (r: RouteDecision)
        requires
            ready@.len() == self.clients_view().len(),
        ensures
            match message {
                McpMessage::Request(req) => if self.clients_view().len() > 0 && ready@[0] {
                    r matches RouteDecision::Forward { client, request } && client == self.clients_view()[0]
                        && request == req
                } else {
                    r matches RouteDecision::Reply(McpMessage::Response(resp)) && resp.id == req.id
                        && resp.result is None && (resp.error matches Some(e) && error_is(
                        e,
                        error_codes::METHOD_NOT_FOUND,
                        "Method '"@ + req.method@ + "' not found"@,
                    ))
                },
                McpMessage::Notification(n) => r matches RouteDecision::Notify { clients, notification }
                    && notification == n && clients@.map_values(|c: String| c@) == ready_names(
                    self.clients_view(),
                    ready@,
                ),
                McpMessage::Response(_) => r is Nothing,
            },
    {
        match message {
            McpMessage::Request(req) => {
                if self.upstream_clients.len() > 0 && ready[0] {
                    RouteDecision::Forward { client: self.upstream_clients[0].clone(), request: req }
                } else {
                    let e = McpError::method_not_found(req.method.as_str());
                    RouteDecision::Reply(McpMessage::new_error_response(req.id, e))
                }
            },
            McpMessage::Notification(n) => {
                let mut clients: Vec<String> = Vec::new();
                let mut i: usize = 0;
                while i < self.upstream_clients.len()
                    invariant
                        i <= self.upstream_clients@.len(),
                        ready@.len() == self.upstream_clients@.len(),
                        clients@.map_values(|c: String| c@) == ready_names(
                            self.upstream_clients@.subrange(0, i as int),
                            ready@.subrange(0, i as int),
                        ),
                    decreases self.upstream_clients@.len() - i,
                {
                    proof {
                        let a = self.upstream_clients@.subrange(0, i + 1);
                        let b = ready@.subrange(0, i + 1);
                        assert(a.drop_last() =~= self.upstream_clients@.subrange(0, i as int));
                        assert(b.drop_last() =~= ready@.subrange(0, i as int));
                    }
                    if ready[i] {
                        let ghost before = clients@;
                        clients.push(self.upstream_clients[i].clone());
                        assert(clients@.map_values(|c: String| c@) =~= before.map_values(|c: String| c@).push(
                            self.upstream_clients@[i as int]@,
                        ));
                    }
                    i = i + 1;
                }
                proof {
                    assert(self.upstream_clients@.subrange(0, self.upstream_clients@.len() as int)
                        =~= self.upstream_clients@);
                    assert(ready@.subrange(0, ready@.len() as int) =~= ready@);
                }
                RouteDecision::Notify { clients, notification: n }
            },
            McpMessage::Response(_) => RouteDecision::Nothing,
        }
    }
}

/// The answer to a forwarded request: the upstream answer, or a server
/// error that carries the failure's message.
pub fn forward_outcome(request_id: JsonValue, outcome: Result<McpMessage, GatewayError>) -> (r: McpMessage)
    ensures
        match outcome {
            Ok(m) => r == m,
            Err(e) => r matches McpMessage::Response(resp) && resp.id == request_id && resp.result is None
                && (resp.error matches Some(err) && error_is(
                err,
                error_codes::SERVER_ERROR,
                "Server error: "@ + message_of(e),
            )),
        },
{
    match outcome {
        Ok(m) => m,
        Err(e) => {
            let text = e.message();
            McpMessage::new_error_response(request_id, McpError::server_error(text.as_str()))
        },
    }
}

/// Closing the connection that was just opened, under an id that no open
/// connection had, leaves the server with the connections it had before.
pub proof fn law_close_undoes_open(before: Seq<ConnectionHandle>, opened: ConnectionHandle)
    requires
        ids_distinct(before),
        conn_index(before, opened.connection_id@) is None,
    ensures
        conn_index(before.push(opened), opened.connection_id@) == Some(before.len() as int),
        before.push(opened).remove(before.len() as int) == before,
{
    let id = opened.connection_id@;
    let after = before.push(opened);
    lemma_conn_from(before, id, 0);
    lemma_conn_from(after, id, 0);
    assert(after[before.len() as int] == opened);
    if let Some(k) = conn_index(after, id) {
        if k < before.len() {
            assert(after[k] == before[k]);
        }
    }
    assert(after.remove(before.len() as int) =~= before);
}

/// The gateway answers `ping` and `shutdown` itself: on an open
/// connection, such a request is answered with an empty-object result that
/// carries the request's id, and is never routed upstream; the connections
/// stay as they were.
pub proof fn law_ping_and_shutdown_answered_locally(
    old: Seq<ConnectionHandle>,
    new: Seq<ConnectionHandle>,
    protocol: McpProtocol,
    id: Seq<char>,
    req: McpRequest,
    init: Option<Result<InitializeParams, String>>,
    r: Result<ServerAction, GatewayError>,
)
    requires
        req.method@ == methods::SHUTDOWN@ || req.method@ == methods::PING@,
        conn_index(old, id) is Some,
        message_handled(old, new, protocol, id, McpMessage::Request(req), init, r),
    ensures
        new == old,
        r matches Ok(ServerAction::Reply(McpMessage::Response(resp))) && resp.id == req.id
            && resp.error is None && (resp.result matches Some(v) && v@ == JsonModel::Object(
            Seq::empty(),
        )),
        !(r matches Ok(ServerAction::Route(_))),
{
    reveal_strlit("initialize");
    reveal_strlit("ping");
    reveal_strlit("shutdown");
    reveal_strlit("tools/call");
    reveal_strlit("resources/read");
    reveal_strlit("prompts/get");
    assert(methods::SHUTDOWN@.len() != methods::INITIALIZE@.len());
    assert(methods::SHUTDOWN@.len() != methods::TOOLS_CALL@.len());
    assert(methods::SHUTDOWN@.len() != methods::RESOURCES_READ@.len());
    assert(methods::SHUTDOWN@.len() != methods::PROMPTS_GET@.len());
    assert(methods::PING@.len() != methods::INITIALIZE@.len());
    assert(methods::PING@.len() != methods::TOOLS_CALL@.len());
    assert(methods::PING@.len() != methods::RESOURCES_READ@.len());
    assert(methods::PING@.len() != methods::PROMPTS_GET@.len());
    assert(message_problem(McpMessage::Request(req)) is None);
}

/// The step the server takes for a `ping` or `shutdown` from an open
/// connection is to answer it with an empty-object result carrying the
/// request's id; it is never routed upstream.
pub proof fn law_ping_and_shutdown_step(
    old: Seq<ConnectionHandle>,
    new: Seq<ConnectionHandle>,
    protocol: McpProtocol,
    id: Seq<char>,
    req: McpRequest,
    init: Option<Result<InitializeParams, String>>,
    handled: Result<ServerAction, GatewayError>,
    raw_id: Option<JsonValue>,
    open: bool,
    step: ServerStep,
)
    requires
        req.method@ == methods::SHUTDOWN@ || req.method@ == methods::PING@,
        conn_index(old, id) is Some,
        message_handled(old, new, protocol, id, McpMessage::Request(req), init, handled),
        step_after(handled, raw_id, open, step),
    ensures
        step matches ServerStep::Reply(McpMessage::Response(resp)) && resp.id == req.id && resp.error is None
            && (resp.result matches Some(v) && v@ == JsonModel::Object(Seq::empty())),
{
    law_ping_and_shutdown_answered_locally(old, new, protocol, id, req, init, handled);
}

} // verus!
