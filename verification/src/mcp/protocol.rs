//! The MCP protocol state machine of the gateway side of a connection, and
//! the structural validation of messages.
use vstd::prelude::*;

use crate::error::{message_of, GatewayError};
use crate::json::{empty_array, empty_object, JsonModel, JsonValue};
use crate::mcp::codec::{
    cursor_params_from, initialize_params_from, opt_json_model, prompt_json, prompts_get_params_from,
    prompts_list_result_json, resource_content_model, content_json, tool_call_result_json,
    prompts_get_result_json, prompt_message_json, resource_json, resources_list_result_json,
    resources_read_params_from, resources_read_result_json, server_capabilities_json, server_info_json,
    skip_none_str, tool_call_params_from, tool_json, tools_list_result_json,
};
use crate::mcp::{
    error_codes, error_is, is_notification_method, is_notification_method_spec, methods,
    InitializeParams, InitializeResult, LoggingCapabilities, McpError, McpMessage,
    McpNotification, McpRequest, McpResponse, PromptsCapabilities, PromptsGetParams,
    PromptsGetResult, PromptsListParams, ResourcesCapabilities, ResourcesListParams,
    ResourcesReadParams, ServerCapabilities, ServerInfo, ToolCallParams, ToolCallResult,
    ToolContent, ToolsCapabilities, ToolsListParams, MCP_VERSION, Prompt, PromptsListResult, Resource,
    ResourceContent, ResourcesListResult, ResourcesReadResult, Tool, ToolsListResult, PromptMessage,
};
use crate::table::str_eq;
use crate::text::{is_prefix, starts_with, suffix_from};

verus! {

/// An empty JSON object.
pub open spec fn empty_object_model() -> JsonModel {
    JsonModel::Object(Seq::empty())
}

/// An object with a single entry.
pub open spec fn single(key: Seq<char>, value: JsonModel) -> JsonModel {
    JsonModel::Object(seq![(key, value)])
}

/// The result of a successful `initialize`.
pub open spec fn initialize_result_model(caps: ServerCapabilities, info: ServerInfo) -> JsonModel {
    JsonModel::Object(
        seq![
            ("capabilities"@, server_capabilities_json(caps)),
            ("protocolVersion"@, JsonModel::Str(MCP_VERSION@)),
            ("serverInfo"@, server_info_json(info)),
        ],
    )
}

/// The result of a `tools/call`: the call is handed on upstream.
pub open spec fn tool_call_forwarded_model() -> JsonModel {
    JsonModel::Object(
        seq![
            (
                "content"@,
                JsonModel::Array(
                    seq![
                        JsonModel::Object(
                            seq![
                                ("text"@, JsonModel::Str("Tool call forwarded to upstream server"@)),
                                ("type"@, JsonModel::Str("text"@)),
                            ],
                        ),
                    ],
                ),
            ),
            ("isError"@, JsonModel::Bool(false)),
        ],
    )
}

/// The result of a `prompts/get`.
pub open spec fn prompt_get_model() -> JsonModel {
    JsonModel::Object(
        seq![
            ("description"@, JsonModel::Str("Gateway-managed prompt"@)),
            ("messages"@, JsonModel::Array(Seq::empty())),
        ],
    )
}

/// Optional parameters that, when present, read as `read` expects.
pub open spec fn optional_params_ok<X>(params: Option<JsonModel>, read: spec_fn(JsonModel) -> Option<X>) -> bool {
    match params {
        None => true,
        Some(p) => read(p) is Some,
    }
}

/// Required parameters that read as `read` expects.
pub open spec fn required_params_ok<X>(params: Option<JsonModel>, read: spec_fn(JsonModel) -> Option<X>) -> bool {
    match params {
        None => false,
        Some(p) => read(p) is Some,
    }
}

/// What a request does to a connection: whether the connection is
/// initialized afterwards, and the result of the request (`None` when it is
/// refused).
pub open spec fn request_effect(
    initialized: bool,
    caps: ServerCapabilities,
    info: ServerInfo,
    method: Seq<char>,
    params: Option<JsonModel>,
) -> (bool, Option<JsonModel>) {
    if method == methods::INITIALIZE@ {
        if required_params_ok(params, |p: JsonModel| initialize_params_from(p)) {
            (true, Some(initialize_result_model(caps, info)))
        } else {
            (initialized, None)
        }
    } else if method == methods::PING@ {
        (initialized, if initialized { Some(empty_object_model()) } else { None })
    } else if method == methods::SHUTDOWN@ {
        (false, Some(empty_object_model()))
    } else if method == methods::TOOLS_LIST@ {
        (initialized, if initialized && optional_params_ok(params, |p: JsonModel| cursor_params_from(p)) {
            Some(single("tools"@, JsonModel::Array(Seq::empty())))
        } else {
            None
        })
    } else if method == methods::TOOLS_CALL@ {
        (initialized, if initialized && required_params_ok(params, |p: JsonModel| tool_call_params_from(p)) {
            Some(tool_call_forwarded_model())
        } else {
            None
        })
    } else if method == methods::RESOURCES_LIST@ {
        (initialized, if initialized && optional_params_ok(params, |p: JsonModel| cursor_params_from(p)) {
            Some(single("resources"@, JsonModel::Array(Seq::empty())))
        } else {
            None
        })
    } else if method == methods::RESOURCES_READ@ {
        (initialized, if initialized && required_params_ok(params, |p: JsonModel| resources_read_params_from(p)) {
            Some(single("contents"@, JsonModel::Array(Seq::empty())))
        } else {
            None
        })
    } else if method == methods::PROMPTS_LIST@ {
        (initialized, if initialized && optional_params_ok(params, |p: JsonModel| cursor_params_from(p)) {
            Some(single("prompts"@, JsonModel::Array(Seq::empty())))
        } else {
            None
        })
    } else if method == methods::PROMPTS_GET@ {
        (initialized, if initialized && required_params_ok(params, |p: JsonModel| prompts_get_params_from(p)) {
            Some(prompt_get_model())
        } else {
            None
        })
    } else {
        (initialized, None)
    }
}

/// The MCP error that reports a gateway error to a client.
pub open spec fn mcp_error_for(e: GatewayError) -> (i32, Seq<char>) {
    match e {
        GatewayError::McpProtocol(_) => (error_codes::INVALID_REQUEST, "Invalid request"@),
        GatewayError::Authentication(_) => (error_codes::UNAUTHORIZED, "Unauthorized"@),
        GatewayError::Authorization(_) => (error_codes::FORBIDDEN, "Forbidden"@),
        GatewayError::RateLimit => (error_codes::RATE_LIMITED, "Rate limited"@),
        GatewayError::Timeout(_) => (error_codes::TIMEOUT, "Request timeout"@),
        GatewayError::NotFound(r) => if is_prefix("tool:"@, r@) {
            (error_codes::TOOL_NOT_FOUND, "Tool '"@ + r@.subrange(5, r@.len() as int) + "' not found"@)
        } else if is_prefix("resource:"@, r@) {
            (
                error_codes::RESOURCE_NOT_FOUND,
                "Resource '"@ + r@.subrange(9, r@.len() as int) + "' not found"@,
            )
        } else {
            (error_codes::INTERNAL_ERROR, "Internal error: "@ + ("Resource not found: "@ + r@))
        },
        _ => (error_codes::INTERNAL_ERROR, "Internal error: "@ + message_of(e)),
    }
}

/// The result of a successful `initialize`, announcing `caps` and `info`.
pub fn initialize_result_json(caps: &ServerCapabilities, info: &ServerInfo) -> (r: JsonValue)
    ensures
        r@ == initialize_result_model(*caps, *info),
{
    let mut es: Vec<(String, JsonValue)> = Vec::new();
    let c = caps.to_json();
    let version = crate::json::json_str(MCP_VERSION);
    let i = info.to_json();
    let ghost g = seq![("capabilities"@, c@), ("protocolVersion"@, version@), ("serverInfo"@, i@)];
    es.push((String::from_str("capabilities"), c));
    es.push((String::from_str("protocolVersion"), version));
    es.push((String::from_str("serverInfo"), i));
    proof {
        crate::json::lemma_object_model(es);
        assert(crate::json::entries_model(es@) =~= g);
    }
    JsonValue::Object(es)
}

/// The protocol state of the gateway side of an MCP connection.
pub struct McpProtocol {
    capabilities: ServerCapabilities,
    server_info: ServerInfo,
    initialized: bool,
}

impl McpProtocol {
    /// Whether the connection has been initialized.
    pub closed spec fn initialized_view(&self) -> bool {
        self.initialized
    }

    /// The capabilities announced to clients.
    pub closed spec fn capabilities_view(&self) -> ServerCapabilities {
        self.capabilities
    }

    /// The server information announced to clients.
    pub closed spec fn server_info_view(&self) -> ServerInfo {
        self.server_info
    }

    /// A connection that is not initialized yet, announcing logging,
    /// prompts, resources and tools, with list-change notifications and
    /// without resource subscriptions.
    pub fn new(name: String, version: String) -> (r: Self)
        ensures
            !r.initialized_view(),
            r.server_info_view().name == name,
            r.server_info_view().version == version,
            r.capabilities_view().experimental is None,
            r.capabilities_view().logging is Some,
            r.capabilities_view().prompts == Some(PromptsCapabilities { list_changed: Some(true) }),
            r.capabilities_view().resources == Some(
                ResourcesCapabilities { list_changed: Some(true), subscribe: Some(false) },
            ),
            r.capabilities_view().tools == Some(ToolsCapabilities { list_changed: Some(true) }),
    {
        McpProtocol {
            capabilities: ServerCapabilities {
                experimental: None,
                logging: Some(LoggingCapabilities {  }),
                prompts: Some(PromptsCapabilities { list_changed: Some(true) }),
                resources: Some(ResourcesCapabilities { list_changed: Some(true), subscribe: Some(false) }),
                tools: Some(ToolsCapabilities { list_changed: Some(true) }),
            },
            server_info: ServerInfo { name, version },
            initialized: false,
        }
    }

    pub fn is_initialized(&self) -> (r: bool)
        ensures
            r == self.initialized_view(),
    {
        self.initialized
    }

    pub fn capabilities(&self) -> (r: &ServerCapabilities)
        ensures
            *r == self.capabilities_view(),
    {
        &self.capabilities
    }

    pub fn server_info(&self) -> (r: &ServerInfo)
        ensures
            *r == self.server_info_view(),
    {
        &self.server_info
    }

    /// Processes an incoming message. A request is always answered, with its
    /// result or with an error; responses and notifications get no reply.
    pub fn process_message(&mut self, message: McpMessage) -> (r: Result<Option<McpMessage>, GatewayError>)
        ensures
            final(self).capabilities_view() == old(self).capabilities_view(),
            final(self).server_info_view() == old(self).server_info_view(),
            match message {
                McpMessage::Request(req) => {
                    let effect = request_effect(
                        old(self).initialized_view(),
                        old(self).capabilities_view(),
                        old(self).server_info_view(),
                        req.method@,
                        opt_json_model(req.params),
                    );
                    &&& final(self).initialized_view() == effect.0
                    &&& r matches Ok(Some(McpMessage::Response(resp)))
                    &&& resp.id == req.id
                    &&& match effect.1 {
                        Some(j) => resp.result matches Some(x) && x@ == j && resp.error is None,
                        None => resp.result is None && (resp.error matches Some(e) && error_is(
                            e,
                            error_codes::INVALID_REQUEST,
                            "Invalid request"@,
                        )),
                    }
                },
                _ => r matches Ok(None) && final(self).initialized_view() == old(
                    self,
                ).initialized_view(),
            },
    {
        match message {
            McpMessage::Request(request) => Ok(Some(self.handle_request(request))),
            McpMessage::Response(_) => Ok(None),
            McpMessage::Notification(_) => Ok(None),
        }
    }

    fn handle_request(&mut self, request: McpRequest) -> (r: McpMessage)
        ensures
            final(self).capabilities_view() == old(self).capabilities_view(),
            final(self).server_info_view() == old(self).server_info_view(),
            ({
                let effect = request_effect(
                    old(self).initialized_view(),
                    old(self).capabilities_view(),
                    old(self).server_info_view(),
                    request.method@,
                    opt_json_model(request.params),
                );
                &&& final(self).initialized_view() == effect.0
                &&& r matches McpMessage::Response(resp)
                &&& resp.id == request.id
                &&& match effect.1 {
                    Some(j) => resp.result matches Some(x) && x@ == j && resp.error is None,
                    None => resp.result is None && (resp.error matches Some(e) && error_is(
                        e,
                        error_codes::INVALID_REQUEST,
                        "Invalid request"@,
                    )),
                }
            }),
    {
        let method = request.method.as_str();
        let params = &request.params;
        let result = if str_eq(method, methods::INITIALIZE) {
            self.handle_initialize(params)
        } else if str_eq(method, methods::PING) {
            self.handle_ping()
        } else if str_eq(method, methods::SHUTDOWN) {
            self.handle_shutdown()
        } else if str_eq(method, methods::TOOLS_LIST) {
            self.handle_tools_list(params)
        } else if str_eq(method, methods::TOOLS_CALL) {
            self.handle_tools_call(params)
        } else if str_eq(method, methods::RESOURCES_LIST) {
            self.handle_resources_list(params)
        } else if str_eq(method, methods::RESOURCES_READ) {
            self.handle_resources_read(params)
        } else if str_eq(method, methods::PROMPTS_LIST) {
            self.handle_prompts_list(params)
        } else if str_eq(method, methods::PROMPTS_GET) {
            self.handle_prompts_get(params)
        } else {
            let msg = String::from_str("Method '").concat(method).concat("' not found");
            Err(GatewayError::McpProtocol(msg))
        };
        let id = request.id;
        match result {
            Ok(data) => McpMessage::new_response(id, Some(data)),
            Err(err) => {
                let mcp_error = self.gateway_error_to_mcp_error(err);
                McpMessage::new_error_response(id, mcp_error)
            },
        }
    }

    fn handle_initialize(&mut self, params: &Option<JsonValue>) -> (r: Result<JsonValue, GatewayError>)
        ensures
            final(self).capabilities_view() == old(self).capabilities_view(),
            final(self).server_info_view() == old(self).server_info_view(),
            required_params_ok(opt_json_model(*params), |p: JsonModel| initialize_params_from(p)) ==> {
                &&& final(self).initialized_view()
                &&& r matches Ok(j) && j@ == initialize_result_model(
                    old(self).capabilities_view(),
                    old(self).server_info_view(),
                )
            },
            !required_params_ok(opt_json_model(*params), |p: JsonModel| initialize_params_from(p)) ==> {
                &&& final(self).initialized_view() == old(self).initialized_view()
                &&& r matches Err(GatewayError::McpProtocol(_))
            },
    {
        let _params: InitializeParams = match params {
            Some(p) => match InitializeParams::from_json(p) {
                Some(x) => x,
                None => {
                    return Err(
                        GatewayError::McpProtocol(String::from_str("Invalid initialize params")),
                    );
                },
            },
            None => {
                return Err(GatewayError::McpProtocol(String::from_str("Initialize params required")));
            },
        };
        self.initialized = true;
        Ok(initialize_result_json(&self.capabilities, &self.server_info))
    }

    fn handle_ping(&self) -> (r: Result<JsonValue, GatewayError>)
        ensures
            self.initialized_view() ==> (r matches Ok(j) && j@ == empty_object_model()),
            !self.initialized_view() ==> r matches Err(GatewayError::McpProtocol(_)),
    {
        if !self.initialized {
            return Err(GatewayError::McpProtocol(String::from_str("Not initialized")));
        }
        Ok(empty_object())
    }

    fn handle_shutdown(&mut self) -> (r: Result<JsonValue, GatewayError>)
        ensures
            !final(self).initialized_view(),
            final(self).capabilities_view() == old(self).capabilities_view(),
            final(self).server_info_view() == old(self).server_info_view(),
            r matches Ok(j) && j@ == empty_object_model(),
    {
        self.initialized = false;
        Ok(empty_object())
    }

    fn check_initialized(&self) -> (r: Result<(), GatewayError>)
        ensures
            self.initialized_view() ==> r is Ok,
            !self.initialized_view() ==> r matches Err(GatewayError::McpProtocol(_)),
    {
        if !self.initialized {
            return Err(GatewayError::McpProtocol(String::from_str("Connection not initialized")));
        }
        Ok(())
    }

    fn handle_tools_list(&self, params: &Option<JsonValue>) -> (r: Result<JsonValue, GatewayError>)
        ensures
            self.initialized_view() && optional_params_ok(
                opt_json_model(*params),
                |p: JsonModel| cursor_params_from(p),
            ) ==> (r matches Ok(j) && j@ == single("tools"@, JsonModel::Array(Seq::empty()))),
            !(self.initialized_view() && optional_params_ok(
                opt_json_model(*params),
                |p: JsonModel| cursor_params_from(p),
            )) ==> r matches Err(GatewayError::McpProtocol(_)),
    {
        match self.check_initialized() {
            Ok(()) => {},
            Err(e) => {
                return Err(e);
            },
        }
        match params {
            Some(p) => {
                if ToolsListParams::from_json(p).is_none() {
                    return Err(GatewayError::McpProtocol(String::from_str("Invalid params")));
                }
            },
            None => {},
        }
        let result = crate::mcp::ToolsListResult { tools: Vec::new(), next_cursor: None };
        let j = result.to_json();
        assert(result.tools@.map_values(|t: crate::mcp::Tool| crate::mcp::codec::tool_json(t)) =~= Seq::<JsonModel>::empty());
        assert(crate::mcp::codec::skip_none_str("nextCursor"@, result.next_cursor) + seq![
            ("tools"@, JsonModel::Array(result.tools@.map_values(|t: crate::mcp::Tool| crate::mcp::codec::tool_json(t)))),
        ] =~= seq![("tools"@, JsonModel::Array(Seq::empty()))]);
        Ok(j)
    }

    fn handle_tools_call(&self, params: &Option<JsonValue>) -> (r: Result<JsonValue, GatewayError>)
        ensures
            self.initialized_view() && required_params_ok(
                opt_json_model(*params),
                |p: JsonModel| tool_call_params_from(p),
            ) ==> (r matches Ok(j) && j@ == tool_call_forwarded_model()),
            !(self.initialized_view() && required_params_ok(
                opt_json_model(*params),
                |p: JsonModel| tool_call_params_from(p),
            )) ==> r matches Err(GatewayError::McpProtocol(_)),
    {
        match self.check_initialized() {
            Ok(()) => {},
            Err(e) => {
                return Err(e);
            },
        }
        match params {
            Some(p) => {
                if ToolCallParams::from_json(p).is_none() {
                    return Err(GatewayError::McpProtocol(String::from_str("Invalid params")));
                }
            },
            None => {
                return Err(GatewayError::McpProtocol(String::from_str("Params required")));
            },
        }
        let mut content: Vec<ToolContent> = Vec::new();
        content.push(ToolContent::Text { text: String::from_str("Tool call forwarded to upstream server") });
        let result = ToolCallResult { content, is_error: Some(false) };
        let j = result.to_json();
        assert(result.content@.map_values(|c: ToolContent| crate::mcp::codec::content_json(c)) =~= seq![
            JsonModel::Object(
                seq![
                    ("text"@, JsonModel::Str("Tool call forwarded to upstream server"@)),
                    ("type"@, JsonModel::Str("text"@)),
                ],
            ),
        ]);
        assert(seq![
            (
                "content"@,
                JsonModel::Array(result.content@.map_values(|c: ToolContent| crate::mcp::codec::content_json(c))),
            ),
        ] + crate::mcp::codec::skip_none_bool("isError"@, result.is_error) =~= seq![
            (
                "content"@,
                JsonModel::Array(result.content@.map_values(|c: ToolContent| crate::mcp::codec::content_json(c))),
            ),
            ("isError"@, JsonModel::Bool(false)),
        ]);
        Ok(j)
    }

    fn handle_resources_list(&self, params: &Option<JsonValue>) -> (r: Result<JsonValue, GatewayError>)
        ensures
            self.initialized_view() && optional_params_ok(
                opt_json_model(*params),
                |p: JsonModel| cursor_params_from(p),
            ) ==> (r matches Ok(j) && j@ == single("resources"@, JsonModel::Array(Seq::empty()))),
            !(self.initialized_view() && optional_params_ok(
                opt_json_model(*params),
                |p: JsonModel| cursor_params_from(p),
            )) ==> r matches Err(GatewayError::McpProtocol(_)),
    {
        match self.check_initialized() {
            Ok(()) => {},
            Err(e) => {
                return Err(e);
            },
        }
        match params {
            Some(p) => {
                if ResourcesListParams::from_json(p).is_none() {
                    return Err(GatewayError::McpProtocol(String::from_str("Invalid params")));
                }
            },
            None => {},
        }
        let result = crate::mcp::ResourcesListResult { resources: Vec::new(), next_cursor: None };
        let j = result.to_json();
        assert(result.resources@.map_values(|x: crate::mcp::Resource| crate::mcp::codec::resource_json(x)) =~= Seq::<JsonModel>::empty());
        assert(crate::mcp::codec::skip_none_str("nextCursor"@, result.next_cursor) + seq![
            ("resources"@, JsonModel::Array(result.resources@.map_values(|x: crate::mcp::Resource| crate::mcp::codec::resource_json(x)))),
        ] =~= seq![("resources"@, JsonModel::Array(Seq::empty()))]);
        Ok(j)
    }

    fn handle_resources_read(&self, params: &Option<JsonValue>) -> (r: Result<JsonValue, GatewayError>)
        ensures
            self.initialized_view() && required_params_ok(
                opt_json_model(*params),
                |p: JsonModel| resources_read_params_from(p),
            ) ==> (r matches Ok(j) && j@ == single("contents"@, JsonModel::Array(Seq::empty()))),
            !(self.initialized_view() && required_params_ok(
                opt_json_model(*params),
                |p: JsonModel| resources_read_params_from(p),
            )) ==> r matches Err(GatewayError::McpProtocol(_)),
    {
        match self.check_initialized() {
            Ok(()) => {},
            Err(e) => {
                return Err(e);
            },
        }
        match params {
            Some(p) => {
                if ResourcesReadParams::from_json(p).is_none() {
                    return Err(GatewayError::McpProtocol(String::from_str("Invalid params")));
                }
            },
            None => {
                return Err(GatewayError::McpProtocol(String::from_str("Params required")));
            },
        }
        let result = crate::mcp::ResourcesReadResult { contents: Vec::new() };
        let j = result.to_json();
        assert(result.contents@.map_values(|c: crate::mcp::ResourceContent| crate::mcp::codec::resource_content_model(c)) =~= Seq::empty());
        Ok(j)
    }

    fn handle_prompts_list(&self, params: &Option<JsonValue>) -> (r: Result<JsonValue, GatewayError>)
        ensures
            self.initialized_view() && optional_params_ok(
                opt_json_model(*params),
                |p: JsonModel| cursor_params_from(p),
            ) ==> (r matches Ok(j) && j@ == single("prompts"@, JsonModel::Array(Seq::empty()))),
            !(self.initialized_view() && optional_params_ok(
                opt_json_model(*params),
                |p: JsonModel| cursor_params_from(p),
            )) ==> r matches Err(GatewayError::McpProtocol(_)),
    {
        match self.check_initialized() {
            Ok(()) => {},
            Err(e) => {
                return Err(e);
            },
        }
        match params {
            Some(p) => {
                if PromptsListParams::from_json(p).is_none() {
                    return Err(GatewayError::McpProtocol(String::from_str("Invalid params")));
                }
            },
            None => {},
        }
        let result = crate::mcp::PromptsListResult { prompts: Vec::new(), next_cursor: None };
        let j = result.to_json();
        assert(result.prompts@.map_values(|p: crate::mcp::Prompt| crate::mcp::codec::prompt_json(p)) =~= Seq::<JsonModel>::empty());
        assert(crate::mcp::codec::skip_none_str("nextCursor"@, result.next_cursor) + seq![
            ("prompts"@, JsonModel::Array(result.prompts@.map_values(|p: crate::mcp::Prompt| crate::mcp::codec::prompt_json(p)))),
        ] =~= seq![("prompts"@, JsonModel::Array(Seq::empty()))]);
        Ok(j)
    }

    fn handle_prompts_get(&self, params: &Option<JsonValue>) -> (r: Result<JsonValue, GatewayError>)
        ensures
            self.initialized_view() && required_params_ok(
                opt_json_model(*params),
                |p: JsonModel| prompts_get_params_from(p),
            ) ==> (r matches Ok(j) && j@ == prompt_get_model()),
            !(self.initialized_view() && required_params_ok(
                opt_json_model(*params),
                |p: JsonModel| prompts_get_params_from(p),
            )) ==> r matches Err(GatewayError::McpProtocol(_)),
    {
        match self.check_initialized() {
            Ok(()) => {},
            Err(e) => {
                return Err(e);
            },
        }
        match params {
            Some(p) => {
                if PromptsGetParams::from_json(p).is_none() {
                    return Err(GatewayError::McpProtocol(String::from_str("Invalid params")));
                }
            },
            None => {
                return Err(GatewayError::McpProtocol(String::from_str("Params required")));
            },
        }
        let result = PromptsGetResult {
            description: Some(String::from_str("Gateway-managed prompt")),
            messages: Vec::new(),
        };
        let j = result.to_json();
        assert(result.messages@.map_values(|m: crate::mcp::PromptMessage| crate::mcp::codec::prompt_message_json(m)) =~= Seq::empty());
        Ok(j)
    }

    /// The MCP error that reports `error` to a client.
    pub fn gateway_error_to_mcp_error(&self, error: GatewayError) -> (r: McpError)
        ensures
            error_is(r, mcp_error_for(error).0, mcp_error_for(error).1),
    {
        match error {
            GatewayError::McpProtocol(_) => McpError::invalid_request(),
            GatewayError::Authentication(_) => McpError::unauthorized(),
            GatewayError::Authorization(_) => McpError::forbidden(),
            GatewayError::RateLimit => McpError::rate_limited(),
            GatewayError::Timeout(_) => McpError::timeout(),
            GatewayError::NotFound(resource) => {
                if starts_with(resource.as_str(), "tool:") {
                    proof {
                        reveal_strlit("tool:");
                    }
                    let name = suffix_from(resource.as_str(), 5);
                    McpError::tool_not_found(name.as_str())
                } else if starts_with(resource.as_str(), "resource:") {
                    proof {
                        reveal_strlit("resource:");
                    }
                    let uri = suffix_from(resource.as_str(), 9);
                    McpError::resource_not_found(uri.as_str())
                } else {
                    let msg = String::from_str("Resource not found: ").concat(resource.as_str());
                    McpError::internal_error(msg.as_str())
                }
            },
            _ => {
                let msg = error.message();
                McpError::internal_error(msg.as_str())
            },
        }
    }
}

/// Methods whose requests must carry parameters.
pub open spec fn requires_params(method: Seq<char>) -> bool {
    ||| method == methods::INITIALIZE@
    ||| method == methods::TOOLS_CALL@
    ||| method == methods::RESOURCES_READ@
    ||| method == methods::PROMPTS_GET@
}

/// What is structurally wrong with a request, if anything.
pub open spec fn request_problem(method: Seq<char>, has_params: bool) -> Option<Seq<char>> {
    if method.len() == 0 {
        Some("Request method cannot be empty"@)
    } else if requires_params(method) && !has_params {
        Some("Method '"@ + method + "' requires parameters"@)
    } else {
        None
    }
}

/// What is structurally wrong with a response, if anything.
pub open spec fn response_problem(has_result: bool, has_error: bool) -> Option<Seq<char>> {
    if has_result && has_error {
        Some("Response cannot have both result and error"@)
    } else if !has_result && !has_error {
        Some("Response must have either result or error"@)
    } else {
        None
    }
}

/// What is structurally wrong with a notification, if anything.
pub open spec fn notification_problem(method: Seq<char>) -> Option<Seq<char>> {
    if method.len() == 0 {
        Some("Notification method cannot be empty"@)
    } else if !is_notification_method_spec(method) {
        Some("Invalid notification method: "@ + method)
    } else {
        None
    }
}

/// What is structurally wrong with a message, if anything.
pub open spec fn message_problem(message: McpMessage) -> Option<Seq<char>> {
    match message {
        McpMessage::Request(req) => request_problem(req.method@, req.params is Some),
        McpMessage::Response(resp) => response_problem(resp.result is Some, resp.error is Some),
        McpMessage::Notification(n) => notification_problem(n.method@),
    }
}

/// The outcome of a structural check: `Ok` when there is no problem, else a
/// protocol error that names it.
pub open spec fn check_outcome(r: Result<(), GatewayError>, problem: Option<Seq<char>>) -> bool {
    match problem {
        None => r is Ok,
        Some(m) => r matches Err(GatewayError::McpProtocol(s)) && s@ == m,
    }
}

/// Checks the structure of a message.
pub fn validate_message(message: &McpMessage) -> (r: Result<(), GatewayError>)
    ensures
        check_outcome(r, message_problem(*message)),
{
    match message {
        McpMessage::Request(req) => validate_request(req),
        McpMessage::Response(resp) => validate_response(resp),
        McpMessage::Notification(n) => validate_notification(n),
    }
}

/// Checks that a request names a method, and carries parameters where its
/// method needs them.
pub fn validate_request(request: &McpRequest) -> (r: Result<(), GatewayError>)
    ensures
        check_outcome(r, request_problem(request.method@, request.params is Some)),
{
    let method = request.method.as_str();
    if method.is_empty() {
        return Err(GatewayError::McpProtocol(String::from_str("Request method cannot be empty")));
    }
    if str_eq(method, methods::INITIALIZE) || str_eq(method, methods::TOOLS_CALL) || str_eq(
        method,
        methods::RESOURCES_READ,
    ) || str_eq(method, methods::PROMPTS_GET) {
        if request.params.is_none() {
            let msg = String::from_str("Method '").concat(method).concat("' requires parameters");
            return Err(GatewayError::McpProtocol(msg));
        }
    }
    Ok(())
}

/// Checks that a response carries exactly one of a result and an error.
pub fn validate_response(response: &McpResponse) -> (r: Result<(), GatewayError>)
    ensures
        check_outcome(r, response_problem(response.result is Some, response.error is Some)),
{
    if response.result.is_some() && response.error.is_some() {
        return Err(
            GatewayError::McpProtocol(String::from_str("Response cannot have both result and error")),
        );
    }
    if response.result.is_none() && response.error.is_none() {
        return Err(
            GatewayError::McpProtocol(String::from_str("Response must have either result or error")),
        );
    }
    Ok(())
}

/// Checks that a notification names a method of the `notifications/`
/// namespace.
pub fn validate_notification(notification: &McpNotification) -> (r: Result<(), GatewayError>)
    ensures
        check_outcome(r, notification_problem(notification.method@)),
{
    let method = notification.method.as_str();
    if method.is_empty() {
        return Err(
            GatewayError::McpProtocol(String::from_str("Notification method cannot be empty")),
        );
    }
    if !is_notification_method(method) {
        let msg = String::from_str("Invalid notification method: ").concat(method);
        return Err(GatewayError::McpProtocol(msg));
    }
    Ok(())
}

/// Before initialization, every request but `initialize` and `shutdown` is
/// refused, and leaves the connection uninitialized.
pub proof fn law_requests_need_initialization(
    caps: ServerCapabilities,
    info: ServerInfo,
    method: Seq<char>,
    params: Option<JsonModel>,
)
    requires
        method != methods::INITIALIZE@,
        method != methods::SHUTDOWN@,
    ensures
        request_effect(false, caps, info, method, params) == (false, None::<JsonModel>),
{
}

/// A successful `initialize` initializes the connection, after which a
/// `ping` is answered with an empty object.
pub proof fn law_initialize_then_ping(
    initialized: bool,
    caps: ServerCapabilities,
    info: ServerInfo,
    params: Option<JsonModel>,
    ping_params: Option<JsonModel>,
)
    requires
        request_effect(initialized, caps, info, methods::INITIALIZE@, params).1 is Some,
    ensures
        request_effect(initialized, caps, info, methods::INITIALIZE@, params).0,
        request_effect(
            request_effect(initialized, caps, info, methods::INITIALIZE@, params).0,
            caps,
            info,
            methods::PING@,
            ping_params,
        ) == (true, Some(empty_object_model())),
{
    assert(methods::PING@ != methods::INITIALIZE@) by {
        reveal_strlit("ping");
        reveal_strlit("initialize");
        assert(methods::PING@.len() != methods::INITIALIZE@.len());
    }
}

/// `shutdown` always succeeds and ends initialization: a `ping` after it is
/// refused.
pub proof fn law_shutdown_ends_session(
    initialized: bool,
    caps: ServerCapabilities,
    info: ServerInfo,
    params: Option<JsonModel>,
    ping_params: Option<JsonModel>,
)
    ensures
        request_effect(initialized, caps, info, methods::SHUTDOWN@, params) == (false, Some(
            empty_object_model(),
        )),
        request_effect(false, caps, info, methods::PING@, ping_params) == (false, None::<JsonModel>),
{
    assert(methods::SHUTDOWN@ != methods::INITIALIZE@) by {
        reveal_strlit("shutdown");
        reveal_strlit("initialize");
        assert(methods::SHUTDOWN@.len() != methods::INITIALIZE@.len());
    }
    assert(methods::SHUTDOWN@ != methods::PING@) by {
        reveal_strlit("shutdown");
        reveal_strlit("ping");
        assert(methods::SHUTDOWN@.len() != methods::PING@.len());
    }
    assert(methods::PING@ != methods::INITIALIZE@) by {
        reveal_strlit("ping");
        reveal_strlit("initialize");
        assert(methods::PING@.len() != methods::INITIALIZE@.len());
    }
}

/// Only `initialize` and `shutdown` change whether a connection is
/// initialized.
pub proof fn law_other_requests_keep_initialization(
    initialized: bool,
    caps: ServerCapabilities,
    info: ServerInfo,
    method: Seq<char>,
    params: Option<JsonModel>,
)
    requires
        method != methods::INITIALIZE@,
        method != methods::SHUTDOWN@,
    ensures
        request_effect(initialized, caps, info, method, params).0 == initialized,
{
}

/// The names of the methods a connection answers are distinct.
proof fn lemma_method_names_distinct()
    ensures
        methods::RESOURCES_READ@ != methods::INITIALIZE@,
        methods::RESOURCES_READ@ != methods::PING@,
        methods::RESOURCES_READ@ != methods::SHUTDOWN@,
        methods::RESOURCES_READ@ != methods::TOOLS_LIST@,
        methods::RESOURCES_READ@ != methods::TOOLS_CALL@,
        methods::RESOURCES_READ@ != methods::RESOURCES_LIST@,
        methods::TOOLS_LIST@ != methods::INITIALIZE@,
        methods::TOOLS_LIST@ != methods::PING@,
        methods::TOOLS_LIST@ != methods::SHUTDOWN@,
        methods::RESOURCES_LIST@ != methods::INITIALIZE@,
        methods::RESOURCES_LIST@ != methods::PING@,
        methods::RESOURCES_LIST@ != methods::SHUTDOWN@,
        methods::RESOURCES_LIST@ != methods::TOOLS_LIST@,
        methods::RESOURCES_LIST@ != methods::TOOLS_CALL@,
        methods::PROMPTS_LIST@ != methods::INITIALIZE@,
        methods::PROMPTS_LIST@ != methods::PING@,
        methods::PROMPTS_LIST@ != methods::SHUTDOWN@,
        methods::PROMPTS_LIST@ != methods::TOOLS_LIST@,
        methods::PROMPTS_LIST@ != methods::TOOLS_CALL@,
        methods::PROMPTS_LIST@ != methods::RESOURCES_LIST@,
        methods::PROMPTS_LIST@ != methods::RESOURCES_READ@,
{
    reveal_strlit("initialize");
    reveal_strlit("ping");
    reveal_strlit("shutdown");
    reveal_strlit("tools/list");
    reveal_strlit("tools/call");
    reveal_strlit("resources/list");
    reveal_strlit("resources/read");
    reveal_strlit("prompts/list");
    assert(methods::RESOURCES_READ@[10] != methods::RESOURCES_LIST@[10]);
    assert(methods::TOOLS_LIST@[0] != methods::INITIALIZE@[0]);
    assert(methods::RESOURCES_READ@.len() != methods::INITIALIZE@.len());
    assert(methods::RESOURCES_READ@.len() != methods::PING@.len());
    assert(methods::RESOURCES_READ@.len() != methods::SHUTDOWN@.len());
    assert(methods::RESOURCES_READ@.len() != methods::TOOLS_LIST@.len());
    assert(methods::RESOURCES_READ@.len() != methods::TOOLS_CALL@.len());
    assert(methods::TOOLS_LIST@.len() != methods::PING@.len());
    assert(methods::TOOLS_LIST@.len() != methods::SHUTDOWN@.len());
    assert(methods::RESOURCES_LIST@.len() != methods::INITIALIZE@.len());
    assert(methods::RESOURCES_LIST@.len() != methods::PING@.len());
    assert(methods::RESOURCES_LIST@.len() != methods::SHUTDOWN@.len());
    assert(methods::RESOURCES_LIST@.len() != methods::TOOLS_LIST@.len());
    assert(methods::RESOURCES_LIST@.len() != methods::TOOLS_CALL@.len());
    assert(methods::PROMPTS_LIST@.len() != methods::INITIALIZE@.len());
    assert(methods::PROMPTS_LIST@.len() != methods::PING@.len());
    assert(methods::PROMPTS_LIST@.len() != methods::SHUTDOWN@.len());
    assert(methods::PROMPTS_LIST@.len() != methods::TOOLS_LIST@.len());
    assert(methods::PROMPTS_LIST@.len() != methods::TOOLS_CALL@.len());
    assert(methods::PROMPTS_LIST@.len() != methods::RESOURCES_LIST@.len());
    assert(methods::PROMPTS_LIST@.len() != methods::RESOURCES_READ@.len());
}

/// On an initialized connection, a `resources/read` request whose
/// parameters name a resource is answered with a resources-read result
/// (an object whose only key is `contents`, holding no contents), and the
/// connection stays initialized.
pub proof fn law_resources_read_answers_contents(
    caps: ServerCapabilities,
    info: ServerInfo,
    params: JsonModel,
    answer: ResourcesReadResult,
)
    requires
        resources_read_params_from(params) is Some,
        answer.contents@.len() == 0,
    ensures
        request_effect(true, caps, info, methods::RESOURCES_READ@, Some(params)) == (true, Some(
            resources_read_result_json(answer),
        )),
        request_effect(true, caps, info, methods::RESOURCES_READ@, Some(params)).1 == Some(
            JsonModel::Object(seq![("contents"@, JsonModel::Array(Seq::empty()))]),
        ),
{
    lemma_method_names_distinct();
    assert(answer.contents@.map_values(|c: ResourceContent| resource_content_model(c)) =~= Seq::empty());
}

/// On an initialized connection, the listing requests (with no parameters
/// or a readable cursor) are answered with the listing result of their own
/// kind, holding no items and no next cursor: `tools/list` with a tools
/// list, `resources/list` with a resources list, `prompts/list` with a
/// prompts list.
pub proof fn law_listings_answer_their_kind(
    caps: ServerCapabilities,
    info: ServerInfo,
    params: Option<JsonModel>,
    tools: ToolsListResult,
    resources: ResourcesListResult,
    prompts: PromptsListResult,
)
    requires
        optional_params_ok(params, |p: JsonModel| cursor_params_from(p)),
        tools.tools@.len() == 0 && tools.next_cursor is None,
        resources.resources@.len() == 0 && resources.next_cursor is None,
        prompts.prompts@.len() == 0 && prompts.next_cursor is None,
    ensures
        request_effect(true, caps, info, methods::TOOLS_LIST@, params) == (true, Some(
            tools_list_result_json(tools),
        )),
        request_effect(true, caps, info, methods::RESOURCES_LIST@, params) == (true, Some(
            resources_list_result_json(resources),
        )),
        request_effect(true, caps, info, methods::PROMPTS_LIST@, params) == (true, Some(
            prompts_list_result_json(prompts),
        )),
{
    lemma_method_names_distinct();
    assert(tools.tools@.map_values(|t: Tool| tool_json(t)) =~= Seq::empty());
    assert(resources.resources@.map_values(|x: Resource| resource_json(x)) =~= Seq::empty());
    assert(prompts.prompts@.map_values(|p: Prompt| prompt_json(p)) =~= Seq::empty());
    assert(skip_none_str("nextCursor"@, tools.next_cursor) + seq![("tools"@, JsonModel::Array(Seq::empty()))]
        =~= seq![("tools"@, JsonModel::Array(Seq::empty()))]);
    assert(skip_none_str("nextCursor"@, resources.next_cursor) + seq![
        ("resources"@, JsonModel::Array(Seq::empty())),
    ] =~= seq![("resources"@, JsonModel::Array(Seq::empty()))]);
    assert(skip_none_str("nextCursor"@, prompts.next_cursor) + seq![("prompts"@, JsonModel::Array(Seq::empty()))]
        =~= seq![("prompts"@, JsonModel::Array(Seq::empty()))]);
}

/// On an initialized connection, a `tools/call` with readable parameters
/// is answered with a tool-call result holding the single text that the
/// call was forwarded upstream, marked as no error; a `prompts/get` with
/// readable parameters is answered with a prompt result described as
/// gateway-managed and holding no messages. Any `initialize` with readable
/// parameters is answered with the initialize result that announces the
/// protocol version and the connection's capabilities and server info.
pub proof fn law_calls_answer_their_kind(
    initialized: bool,
    caps: ServerCapabilities,
    info: ServerInfo,
    call_params: JsonModel,
    call: ToolCallResult,
    prompt_params: JsonModel,
    prompt: PromptsGetResult,
    init_params: JsonModel,
    init: InitializeResult,
)
    requires
        tool_call_params_from(call_params) is Some,
        call.content@.len() == 1,
        call.content@[0] matches ToolContent::Text { text } && text@ == "Tool call forwarded to upstream server"@,
        call.is_error == Some(false),
        prompts_get_params_from(prompt_params) is Some,
        prompt.description matches Some(d) && d@ == "Gateway-managed prompt"@,
        prompt.messages@.len() == 0,
        initialize_params_from(init_params) is Some,
        init.protocol_version@ == MCP_VERSION@,
        init.capabilities == caps,
        init.server_info == info,
    ensures
        request_effect(true, caps, info, methods::TOOLS_CALL@, Some(call_params)) == (true, Some(
            tool_call_result_json(call),
        )),
        request_effect(true, caps, info, methods::PROMPTS_GET@, Some(prompt_params)) == (true, Some(
            prompts_get_result_json(prompt),
        )),
        request_effect(initialized, caps, info, methods::INITIALIZE@, Some(init_params)) == (true, Some(
            crate::mcp::codec::initialize_result_json(init),
        )),
{
    reveal_strlit("initialize");
    reveal_strlit("ping");
    reveal_strlit("shutdown");
    reveal_strlit("tools/list");
    reveal_strlit("tools/call");
    reveal_strlit("resources/list");
    reveal_strlit("resources/read");
    reveal_strlit("prompts/list");
    reveal_strlit("prompts/get");
    assert(methods::TOOLS_CALL@[0] != methods::INITIALIZE@[0]);
    assert(methods::TOOLS_CALL@[6] != methods::TOOLS_LIST@[6]);
    assert(methods::TOOLS_CALL@.len() != methods::PING@.len());
    assert(methods::TOOLS_CALL@.len() != methods::SHUTDOWN@.len());
    assert(methods::PROMPTS_GET@.len() != methods::INITIALIZE@.len());
    assert(methods::PROMPTS_GET@.len() != methods::PING@.len());
    assert(methods::PROMPTS_GET@.len() != methods::SHUTDOWN@.len());
    assert(methods::PROMPTS_GET@.len() != methods::TOOLS_LIST@.len());
    assert(methods::PROMPTS_GET@.len() != methods::TOOLS_CALL@.len());
    assert(methods::PROMPTS_GET@.len() != methods::RESOURCES_LIST@.len());
    assert(methods::PROMPTS_GET@.len() != methods::RESOURCES_READ@.len());
    assert(methods::PROMPTS_GET@.len() != methods::PROMPTS_LIST@.len());
    assert(call.content@.map_values(|c: ToolContent| content_json(c)) =~= seq![
        JsonModel::Object(
            seq![
                ("text"@, JsonModel::Str("Tool call forwarded to upstream server"@)),
                ("type"@, JsonModel::Str("text"@)),
            ],
        ),
    ]);
    assert(tool_call_result_json(call) == tool_call_forwarded_model()) by {
        if let JsonModel::Object(a) = tool_call_result_json(call) {
            if let JsonModel::Object(b) = tool_call_forwarded_model() {
                assert(a =~= b);
            }
        }
    }
    assert(prompt.messages@.map_values(|m: PromptMessage| prompt_message_json(m)) =~= Seq::empty());
}

/// How gateway errors are reported to an MCP client: an unauthenticated
/// caller gets `UNAUTHORIZED`, a forbidden one `FORBIDDEN`, a malformed
/// request `INVALID_REQUEST`, too many requests `RATE_LIMITED` and a timeout
/// `TIMEOUT`, whatever the message; a tool or resource that is not found is
/// reported as such, naming it.
pub proof fn law_mcp_errors_for_gateway_errors(message: String, name: Seq<char>, e: GatewayError)
    ensures
        mcp_error_for(GatewayError::Authentication(message)).0 == error_codes::UNAUTHORIZED,
        mcp_error_for(GatewayError::Authorization(message)).0 == error_codes::FORBIDDEN,
        mcp_error_for(GatewayError::McpProtocol(message)).0 == error_codes::INVALID_REQUEST,
        mcp_error_for(GatewayError::RateLimit).0 == error_codes::RATE_LIMITED,
        mcp_error_for(GatewayError::Timeout(message)).0 == error_codes::TIMEOUT,
        e matches GatewayError::NotFound(r) && r@ == "tool:"@ + name ==> mcp_error_for(e) == (
            error_codes::TOOL_NOT_FOUND,
            "Tool '"@ + name + "' not found"@,
        ),
        e matches GatewayError::NotFound(r) && r@ == "resource:"@ + name ==> mcp_error_for(e) == (
            error_codes::RESOURCE_NOT_FOUND,
            "Resource '"@ + name + "' not found"@,
        ),
{
    reveal_strlit("tool:");
    reveal_strlit("resource:");
    if let GatewayError::NotFound(r) = e {
        if r@ == "tool:"@ + name {
            assert(r@.subrange(0, 5) =~= "tool:"@);
            assert(r@.subrange(5, r@.len() as int) =~= name);
        }
        if r@ == "resource:"@ + name {
            assert(r@.subrange(0, 9) =~= "resource:"@);
            assert(r@.subrange(9, r@.len() as int) =~= name);
            assert(!is_prefix("tool:"@, r@)) by {
                assert(r@[0] != "tool:"@[0]);
            }
        }
    }
}

} // verus!
