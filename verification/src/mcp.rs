//! The protocol engine: the session that `initialize` opens, the methods,
//! and the calls of tools.

use crate::host::{replies_view, HostReply, HostReplyView, HostRequest, HostRequestView};
use crate::json::{items_view, str_eq, Json, JsonValue};
use crate::tools::{
    call_step, listing, BuiltinTool, StepView, ToolHandler, ToolRegistry, ToolStep,
};
use crate::types::{
    body_of, response_of, tool_list_json, value_of, CallRequestView, CallToolRequest, ClientInfo, ClientInfoView,
    ErrorView, InitializeRequest, InitializeView, JsonRpcError, JsonRpcRequest, JsonRpcResponse,
    ListToolsResponse, RequestView, ResponseView,
};
use vstd::prelude::*;

verus! {

/// The methods that the server knows.
pub enum Method {
    Initialize,
    Initialized,
    ToolsList,
    ToolsCall,
    ResourcesList,
    PromptsList,
    Ping,
    Unknown,
}

impl Method {
    /// The method that a name stands for.
    pub open spec fn of(name: Seq<char>) -> Method {
        if name == "initialize"@ {
            Method::Initialize
        } else if name == "initialized"@ {
            Method::Initialized
        } else if name == "tools/list"@ {
            Method::ToolsList
        } else if name == "tools/call"@ {
            Method::ToolsCall
        } else if name == "resources/list"@ {
            Method::ResourcesList
        } else if name == "prompts/list"@ {
            Method::PromptsList
        } else if name == "ping"@ {
            Method::Ping
        } else {
            Method::Unknown
        }
    }

    /// The method that a name stands for.
    pub fn parse(name: &str) -> (r: Method)
        ensures
            r == Method::of(name@),
    {
        if str_eq(name, "initialize") {
            Method::Initialize
        } else if str_eq(name, "initialized") {
            Method::Initialized
        } else if str_eq(name, "tools/list") {
            Method::ToolsList
        } else if str_eq(name, "tools/call") {
            Method::ToolsCall
        } else if str_eq(name, "resources/list") {
            Method::ResourcesList
        } else if str_eq(name, "prompts/list") {
            Method::PromptsList
        } else if str_eq(name, "ping") {
            Method::Ping
        } else {
            Method::Unknown
        }
    }

    /// Whether the method is refused until the client has initialized the
    /// session.
    pub open spec fn needs_session(self) -> bool {
        self is Initialized || self is ToolsList || self is ToolsCall || self is ResourcesList
            || self is PromptsList
    }
}

/// A call of a tool that waits for an answer from the host.
#[derive(Debug, Clone, PartialEq, Eq)]
pub struct PendingCall {
    /// The `id` of the request that made the call.
    pub id: Option<Json>,
    /// The call.
    pub request: CallToolRequest,
    /// The answers that the host has given so far.
    pub replies: Vec<HostReply>,
}

/// The mathematical content of a [`PendingCall`].
pub struct PendingView {
    pub id: Option<JsonValue>,
    pub request: CallRequestView,
    pub replies: Seq<HostReplyView>,
}

impl View for PendingCall {
    type V = PendingView;

    open spec fn view(&self) -> PendingView {
        PendingView {
            id: value_of(self.id),
            request: self.request@,
            replies: replies_view(self.replies@),
        }
    }
}

/// What the server does with a request.
#[derive(Debug, Clone, PartialEq, Eq)]
pub enum Outcome {
    /// The request is dealt with: the response, or nothing for a
    /// notification.
    Reply(Option<JsonRpcResponse>),
    /// A tool needs the answer to `question` from the host;
    /// [`McpServer::resume`] goes on from here.
    Ask { pending: PendingCall, question: HostRequest },
}

/// The mathematical content of an [`Outcome`].
pub enum OutcomeView {
    Reply(Option<ResponseView>),
    Ask { pending: PendingView, question: HostRequestView },
}

impl View for Outcome {
    type V = OutcomeView;

    open spec fn view(&self) -> OutcomeView {
        match self {
            Outcome::Reply(response) => OutcomeView::Reply(response_of(*response)),
            Outcome::Ask { pending, question } => OutcomeView::Ask {
                pending: pending@,
                question: question@,
            },
        }
    }
}

/// The response to the request `id` with a result or an error; nothing
/// where there is no `id`.
pub open spec fn response_for(id: Option<JsonValue>, body: Result<JsonValue, ErrorView>) -> Option<
    ResponseView,
> {
    match id {
        Some(id) => Some(
            match body {
                Ok(result) => ResponseView::success(Some(id), result),
                Err(error) => ResponseView::failure(Some(id), error),
            },
        ),
        None => None,
    }
}

/// Where a call stands after a step of the tool: a result is the result of
/// the request, a failure of the handler is an internal error, and a
/// question to the host leaves the call pending.
pub open spec fn conclude(
    id: Option<JsonValue>,
    request: CallRequestView,
    replies: Seq<HostReplyView>,
    step: StepView,
) -> OutcomeView {
    match step {
        StepView::Done(result) => OutcomeView::Reply(response_for(id, Ok(result.json()))),
        StepView::Failed(_) => OutcomeView::Reply(
            response_for(id, Err(ErrorView::internal_error())),
        ),
        StepView::Ask(question) => OutcomeView::Ask {
            pending: PendingView { id, request, replies },
            question,
        },
    }
}

/// The result of `ping`.
pub open spec fn pong() -> JsonValue {
    JsonValue::empty_object().with("pong"@, JsonValue::Bool(true))
}

/// The result that holds an empty list under `key`.
pub open spec fn empty_list(key: Seq<char>) -> JsonValue {
    JsonValue::empty_object().with(key, JsonValue::Array(Seq::empty()))
}

/// A server: its identity, whether the session is initialized, and its tools.
pub struct McpServer<H: ToolHandler> {
    pub name: String,
    pub version: String,
    pub protocol_version: String,
    pub initialized: bool,
    pub client_info: Option<ClientInfo>,
    pub tool_registry: ToolRegistry<H>,
}

/// The mathematical content of a [`McpServer`].
pub struct ServerView<H> {
    pub name: Seq<char>,
    pub version: Seq<char>,
    pub protocol_version: Seq<char>,
    pub initialized: bool,
    pub client_info: Option<ClientInfoView>,
    pub tools: Seq<(Seq<char>, H)>,
}

impl<H: ToolHandler> View for McpServer<H> {
    type V = ServerView<H>;

    open spec fn view(&self) -> ServerView<H> {
        ServerView {
            name: self.name@,
            version: self.version@,
            protocol_version: self.protocol_version@,
            initialized: self.initialized,
            client_info: match self.client_info {
                Some(info) => Some(info@),
                None => None,
            },
            tools: self.tool_registry@,
        }
    }
}

impl<H: ToolHandler> ServerView<H> {
    /// The parameters of a valid `initialize`, where the request is one.
    pub open spec fn initialization(request: RequestView) -> Option<InitializeView> {
        if request.jsonrpc == "2.0"@ && Method::of(request.method) is Initialize {
            match request.params {
                Some(params) => InitializeView::decode(params),
                None => None,
            }
        } else {
            None
        }
    }

    /// The server after a request: a valid `initialize` opens the session
    /// and records the client; nothing else changes anything.
    pub open spec fn after(self, request: RequestView) -> ServerView<H> {
        match Self::initialization(request) {
            Some(parameters) => ServerView {
                initialized: true,
                client_info: Some(parameters.client_info),
                ..self
            },
            None => self,
        }
    }

    /// What a method yields, or the error that it is refused with. A call
    /// of a tool is left out: see [`ServerView::handle`].
    pub open spec fn body(self, request: RequestView) -> Result<JsonValue, ErrorView> {
        let method = Method::of(request.method);
        if request.jsonrpc != "2.0"@ {
            Err(ErrorView::invalid_request())
        } else if method is Unknown {
            Err(ErrorView::method_not_found())
        } else if method.needs_session() && !self.initialized {
            Err(ErrorView::internal_error())
        } else {
            match method {
                Method::Initialize => match Self::initialization(request) {
                    Some(_) => Ok(
                        InitializeView::result(self.protocol_version, self.name, self.version),
                    ),
                    None => Err(ErrorView::invalid_params()),
                },
                Method::Initialized => Ok(JsonValue::Null),
                Method::Ping => Ok(pong()),
                Method::ToolsList => Ok(tool_list_json(listing(self.tools))),
                Method::ResourcesList => Ok(empty_list("resources"@)),
                Method::PromptsList => Ok(empty_list("prompts"@)),
                _ => Err(ErrorView::invalid_params()),
            }
        }
    }

    /// The call that a request makes: the method is `tools/call`, the
    /// session is initialized, and the parameters name a tool.
    pub open spec fn call(self, request: RequestView) -> Option<CallRequestView> {
        if request.jsonrpc == "2.0"@ && Method::of(request.method) is ToolsCall
            && self.initialized {
            match request.params {
                Some(params) => CallRequestView::decode(params),
                None => None,
            }
        } else {
            None
        }
    }

    /// What the server does with a request.
    pub open spec fn handle(self, request: RequestView) -> OutcomeView {
        match self.call(request) {
            Some(call) => conclude(
                request.id,
                call,
                Seq::empty(),
                call_step(self.tools, call, Seq::empty()),
            ),
            None => OutcomeView::Reply(response_for(request.id, self.body(request))),
        }
    }

    /// What the server does with the host's answer to a pending call.
    pub open spec fn resume(self, pending: PendingView, answer: HostReplyView) -> OutcomeView {
        let replies = pending.replies.push(answer);
        conclude(pending.id, pending.request, replies, call_step(self.tools, pending.request, replies))
    }
}

/// The response to the request `id` with a result or an error; nothing
/// where there is no `id`.
pub fn respond(id: Option<Json>, body: Result<Json, JsonRpcError>) -> (r: Option<JsonRpcResponse>)
    ensures
        response_of(r) == response_for(value_of(id), body_of(body)),
{
    match id {
        Some(id) => Some(
            match body {
                Ok(result) => JsonRpcResponse::success(Some(id), result),
                Err(error) => JsonRpcResponse::failure(Some(id), error),
            },
        ),
        None => None,
    }
}

impl<H: ToolHandler> McpServer<H> {
    /// A server with the given identity and tools, before `initialize`.
    pub fn with_registry(name: String, version: String, tool_registry: ToolRegistry<H>) -> (r:
        Self)
        ensures
            r@ == (ServerView {
                name: name@,
                version: version@,
                protocol_version: "2024-11-05"@,
                initialized: false,
                client_info: None,
                tools: tool_registry@,
            }),
            r.tool_registry == tool_registry,
    {
        McpServer {
            name,
            version,
            protocol_version: "2024-11-05".to_owned(),
            initialized: false,
            client_info: None,
            tool_registry,
        }
    }

    fn handle_initialize(&mut self, params: Option<Json>) -> (r: Result<Json, JsonRpcError>)
        ensures
            match (params, match params {
                Some(p) => InitializeView::decode(p@),
                None => None,
            }) {
                (Some(p), Some(parameters)) => {
                    &&& r is Ok
                    &&& r->Ok_0@ == InitializeView::result(
                        old(self)@.protocol_version,
                        old(self)@.name,
                        old(self)@.version,
                    )
                    &&& final(self)@ == (ServerView {
                        initialized: true,
                        client_info: Some(parameters.client_info),
                        ..old(self)@
                    })
                },
                _ => {
                    &&& r is Err
                    &&& r->Err_0@ == ErrorView::invalid_params()
                    &&& final(self)@ == old(self)@
                },
            },
            final(self).tool_registry == old(self).tool_registry,
    {
        let request = match params {
            Some(params) => match InitializeRequest::from_json(&params) {
                Some(request) => request,
                None => { return Err(JsonRpcError::invalid_params()); },
            },
            None => { return Err(JsonRpcError::invalid_params()); },
        };
        self.client_info = Some(request.client_info);
        self.initialized = true;
        Ok(
            InitializeRequest::result(
                self.protocol_version.as_str(),
                self.name.as_str(),
                self.version.as_str(),
            ),
        )
    }

    fn handle_initialized(&self) -> (r: Result<Json, JsonRpcError>)
        ensures
            r is Ok,
            r->Ok_0@ == JsonValue::Null,
    {
        Ok(Json::Null)
    }

    fn handle_list_tools(&self) -> (r: Result<Json, JsonRpcError>)
        ensures
            r is Ok,
            r->Ok_0@ == tool_list_json(listing(self@.tools)),
    {
        let response = ListToolsResponse { tools: self.tool_registry.list_tools() };
        Ok(response.to_json())
    }

    fn handle_call_tool(&self, id: Option<Json>, params: Option<Json>) -> (r: Outcome)
        ensures
            r@ == (match (match params {
                Some(p) => CallRequestView::decode(p@),
                None => None,
            }) {
                Some(call) => conclude(
                    value_of(id),
                    call,
                    Seq::empty(),
                    call_step(self@.tools, call, Seq::empty()),
                ),
                None => OutcomeView::Reply(
                    response_for(value_of(id), Err(ErrorView::invalid_params())),
                ),
            }),
    {
        let request = match params {
            Some(params) => match CallToolRequest::from_json(&params) {
                Some(request) => request,
                None => {
                    return Outcome::Reply(respond(id, Err(JsonRpcError::invalid_params())));
                },
            },
            None => { return Outcome::Reply(respond(id, Err(JsonRpcError::invalid_params()))); },
        };
        let replies: Vec<HostReply> = Vec::new();
        assert(replies_view(replies@) =~= Seq::<HostReplyView>::empty());
        let step = self.tool_registry.call_tool(&request, &replies);
        Self::finish(id, request, replies, step)
    }

    fn handle_ping(&self) -> (r: Result<Json, JsonRpcError>)
        ensures
            r is Ok,
            r->Ok_0@ == pong(),
    {
        Ok(Json::object().with("pong", Json::Bool(true)))
    }

    fn handle_list_resources(&self) -> (r: Result<Json, JsonRpcError>)
        ensures
            r is Ok,
            r->Ok_0@ == empty_list("resources"@),
    {
        let none: Vec<Json> = Vec::new();
        Ok(Json::object().with("resources", Json::Array(none)))
    }

    fn handle_list_prompts(&self) -> (r: Result<Json, JsonRpcError>)
        ensures
            r is Ok,
            r->Ok_0@ == empty_list("prompts"@),
    {
        let none: Vec<Json> = Vec::new();
        Ok(Json::object().with("prompts", Json::Array(none)))
    }

    /// Where a call stands after the step `step` of its tool.
    pub fn finish(
        id: Option<Json>,
        request: CallToolRequest,
        replies: Vec<HostReply>,
        step: ToolStep,
    ) -> (r: Outcome)
        ensures
            r@ == conclude(value_of(id), request@, replies_view(replies@), step@),
    {
        match step {
            ToolStep::Done(result) => Outcome::Reply(respond(id, Ok(result.to_json()))),
            ToolStep::Failed(_) => Outcome::Reply(respond(id, Err(JsonRpcError::internal_error()))),
            ToolStep::Ask(question) => Outcome::Ask {
                pending: PendingCall { id, request, replies },
                question,
            },
        }
    }

    /// Deals with one request or notification.
    ///
    /// A request gets exactly one response, with the request's `id`; a
    /// notification gets none. Where a tool needs the host, the call is
    /// handed back as pending, and [`McpServer::resume`] goes on with the
    /// host's answer.
    pub fn handle_request(&mut self, request: JsonRpcRequest) -> (r: Outcome)
        ensures
            r@ == old(self)@.handle(request@),
            final(self)@ == old(self)@.after(request@),
            final(self).tool_registry == old(self).tool_registry,
    {
        let JsonRpcRequest { jsonrpc, id, method, params } = request;
        if !str_eq(jsonrpc.as_str(), "2.0") {
            return Outcome::Reply(respond(id, Err(JsonRpcError::invalid_request())));
        }
        let method = Method::parse(method.as_str());
        let session = self.initialized;
        let body = match method {
            Method::Unknown => Err(JsonRpcError::method_not_found()),
            Method::Initialize => self.handle_initialize(params),
            Method::Ping => self.handle_ping(),
            _ => if !session {
                Err(JsonRpcError::internal_error())
            } else {
                match method {
                    Method::Initialized => self.handle_initialized(),
                    Method::ToolsList => self.handle_list_tools(),
                    Method::ResourcesList => self.handle_list_resources(),
                    Method::PromptsList => self.handle_list_prompts(),
                    _ => { return self.handle_call_tool(id, params); },
                }
            },
        };
        Outcome::Reply(respond(id, body))
    }

    /// Goes on with a pending call after the host has answered its question.
    pub fn resume(&self, pending: PendingCall, answer: HostReply) -> (r: Outcome)
        ensures
            r@ == self@.resume(pending@, answer@),
    {
        let PendingCall { id, request, replies } = pending;
        let mut replies = replies;
        let ghost before = replies_view(replies@);
        replies.push(answer);
        assert(replies_view(replies@) =~= before.push(answer@));
        let step = self.tool_registry.call_tool(&request, &replies);
        Self::finish(id, request, replies, step)
    }
}

impl McpServer<BuiltinTool> {
    /// A server with the given identity and the tools that it comes with,
    /// before `initialize`.
    pub fn new(name: String, version: String) -> (r: Self)
        ensures
            r@ == (ServerView {
                name: name@,
                version: version@,
                protocol_version: "2024-11-05"@,
                initialized: false,
                client_info: None,
                tools: ToolRegistry::<BuiltinTool>::builtin(),
            }),
            r.tool_registry.well_formed(),
    {
        Self::with_registry(name, version, ToolRegistry::new())
    }
}

/// Whether an outcome is what the sender of `id` is owed: a request gets
/// one response, under its `id` and well formed; a notification gets none;
/// and a call that is left pending keeps the `id`.
pub open spec fn settles(outcome: OutcomeView, id: Option<JsonValue>) -> bool {
    match outcome {
        OutcomeView::Reply(Some(response)) => {
            &&& id is Some
            &&& response.id == id
            &&& response.well_formed()
        },
        OutcomeView::Reply(None) => id is None,
        OutcomeView::Ask { pending, question } => pending.id == id,
    }
}

/// A request gets exactly one response, which carries the request's `id`,
/// says version 2.0 and holds either a result or an error, never both; a
/// notification gets no response, whatever it asks for. A call that waits
/// for the host keeps the `id` for the time when it is answered.
pub proof fn lemma_handle_settles<H: ToolHandler>(server: ServerView<H>, request: RequestView)
    ensures
        settles(server.handle(request), request.id),
{
}

/// A pending call that the host has answered ends as its request is owed,
/// or stays pending under the same `id`.
pub proof fn lemma_resume_settles<H: ToolHandler>(
    server: ServerView<H>,
    pending: PendingView,
    answer: HostReplyView,
)
    ensures
        settles(server.resume(pending, answer), pending.id),
{
}

/// The names of the methods differ from one another.
pub proof fn lemma_method_names_differ()
    ensures
        Method::of("initialize"@) is Initialize,
        Method::of("initialized"@) is Initialized,
        Method::of("tools/list"@) is ToolsList,
        Method::of("tools/call"@) is ToolsCall,
        Method::of("resources/list"@) is ResourcesList,
        Method::of("prompts/list"@) is PromptsList,
        Method::of("ping"@) is Ping,
{
    reveal_strlit("initialize");
    reveal_strlit("initialized");
    reveal_strlit("tools/list");
    reveal_strlit("tools/call");
    reveal_strlit("resources/list");
    reveal_strlit("prompts/list");
    reveal_strlit("ping");
    assert("initialized"@.len() == 11);
    assert("prompts/list"@.len() == 12);
    assert("ping"@.len() == 4);
    assert("tools/call"@[0] != "initialize"@[0]);
    assert("tools/call"@[6] != "tools/list"@[6]);
}

/// Before `initialize`, a request for `tools/list`, `tools/call`,
/// `resources/list` or `prompts/list` is answered with an internal error;
/// `ping` is answered with its result, and so is an `initialize` whose
/// parameters are in order.
pub proof fn lemma_session_is_required<H: ToolHandler>(
    server: ServerView<H>,
    id: JsonValue,
    params: Option<JsonValue>,
)
    requires
        !server.initialized,
    ensures
        forall|method: Seq<char>|
            method == "tools/list"@ || method == "tools/call"@ || method == "resources/list"@
                || method == "prompts/list"@ ==> #[trigger] server.handle(
                RequestView { jsonrpc: "2.0"@, id: Some(id), method, params },
            ) == OutcomeView::Reply(
                Some(ResponseView::failure(Some(id), ErrorView::internal_error())),
            ),
        server.handle(RequestView { jsonrpc: "2.0"@, id: Some(id), method: "ping"@, params })
            == OutcomeView::Reply(Some(ResponseView::success(Some(id), pong()))),
        params is Some && InitializeView::decode(params->0) is Some ==> server.handle(
            RequestView { jsonrpc: "2.0"@, id: Some(id), method: "initialize"@, params },
        ) == OutcomeView::Reply(
            Some(
                ResponseView::success(
                    Some(id),
                    InitializeView::result(server.protocol_version, server.name, server.version),
                ),
            ),
        ),
{
    lemma_method_names_differ();
}

/// Once the session is initialized it stays so, and no request changes the
/// identity of the server or its tools: `tools/list` gives the same
/// descriptors, in the same order, however often it is asked.
pub proof fn lemma_session_is_stable<H: ToolHandler>(server: ServerView<H>, request: RequestView)
    ensures
        server.initialized ==> server.after(request).initialized,
        server.after(request).tools == server.tools,
        server.after(request).name == server.name,
        server.after(request).version == server.version,
        server.after(request).protocol_version == server.protocol_version,
        listing(server.after(request).tools) == listing(server.tools),
{
}

/// A call of a tool that is not registered is answered with a result, not
/// with an error: the result reports the failure and names the tool.
pub proof fn lemma_unknown_tool_is_reported<H: ToolHandler>(
    server: ServerView<H>,
    id: JsonValue,
    params: JsonValue,
)
    requires
        server.initialized,
        CallRequestView::decode(params) is Some,
        crate::tools::position(server.tools, CallRequestView::decode(params)->0.name) is None,
    ensures
        server.handle(
            RequestView { jsonrpc: "2.0"@, id: Some(id), method: "tools/call"@, params: Some(params) },
        ) == OutcomeView::Reply(
            Some(
                ResponseView::success(
                    Some(id),
                    crate::types::CallResultView::error(
                        crate::tools::not_found(CallRequestView::decode(params)->0.name),
                    ).json(),
                ),
            ),
        ),
{
    lemma_method_names_differ();
}

} // verus!
