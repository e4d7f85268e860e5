//! The messages of the protocol and how they are written as JSON and read
//! from it.

use crate::json::{
    items_view, lemma_items_view, lemma_items_view_push, str_eq, Json, JsonValue, NumberValue,
};
use vstd::prelude::*;

verus! {

/// The value of an optional document.
pub open spec fn value_of(json: Option<Json>) -> Option<JsonValue> {
    match json {
        Some(j) => Some(j@),
        None => None,
    }
}

/// A JSON-RPC request or, where `id` is absent, a notification.
#[derive(Debug, Clone, PartialEq, Eq)]
pub struct JsonRpcRequest {
    pub jsonrpc: String,
    pub id: Option<Json>,
    pub method: String,
    pub params: Option<Json>,
}

/// The mathematical content of a [`JsonRpcRequest`].
pub struct RequestView {
    pub jsonrpc: Seq<char>,
    pub id: Option<JsonValue>,
    pub method: Seq<char>,
    pub params: Option<JsonValue>,
}

impl View for JsonRpcRequest {
    type V = RequestView;

    open spec fn view(&self) -> RequestView {
        RequestView {
            jsonrpc: self.jsonrpc@,
            id: value_of(self.id),
            method: self.method@,
            params: value_of(self.params),
        }
    }
}

/// `base` with `key` set to `value`, or `base` itself where there is no value.
pub open spec fn with_optional(base: JsonValue, key: Seq<char>, value: Option<JsonValue>) -> JsonValue {
    match value {
        Some(v) => base.with(key, v),
        None => base,
    }
}

impl RequestView {
    /// The envelope that carries this request on the wire.
    pub open spec fn json(self) -> JsonValue {
        with_optional(
            with_optional(
                JsonValue::empty_object().with("jsonrpc"@, JsonValue::Str(self.jsonrpc)).with(
                    "method"@,
                    JsonValue::Str(self.method),
                ),
                "params"@,
                self.params,
            ),
            "id"@,
            self.id,
        )
    }

    /// The request that an envelope carries: `jsonrpc` and `method` must be
    /// strings; `params` and `id` are taken as they are, where present.
    pub open spec fn decode(envelope: JsonValue) -> Option<RequestView> {
        match (envelope.field("jsonrpc"@), envelope.field("method"@)) {
            (Some(JsonValue::Str(jsonrpc)), Some(JsonValue::Str(method))) => Some(
                RequestView {
                    jsonrpc,
                    id: envelope.field("id"@),
                    method,
                    params: envelope.field("params"@),
                },
            ),
            _ => None,
        }
    }
}

/// The four field names of a request envelope differ from one another.
pub proof fn lemma_request_keys_differ()
    ensures
        "jsonrpc"@ != "method"@,
        "jsonrpc"@ != "params"@,
        "jsonrpc"@ != "id"@,
        "method"@ != "params"@,
        "method"@ != "id"@,
        "params"@ != "id"@,
{
    reveal_strlit("jsonrpc");
    reveal_strlit("method");
    reveal_strlit("params");
    reveal_strlit("id");
    assert("jsonrpc"@.len() == 7 && "id"@.len() == 2);
    assert("method"@[0] != "params"@[0]);
}

/// Whether an envelope is an object with no fields but those of a request.
pub open spec fn holds_only_request_fields(envelope: JsonValue) -> bool {
    &&& envelope is Object
    &&& forall|key: Seq<char>| #[trigger]
        envelope.fields().contains_key(key) ==> key == "jsonrpc"@ || key == "method"@ || key
            == "params"@ || key == "id"@
}

/// Writing a request as an envelope and reading the envelope gives the
/// request back.
pub proof fn lemma_request_survives_the_wire(request: RequestView)
    ensures
        RequestView::decode(request.json()) == Some(request),
        holds_only_request_fields(request.json()),
{
    lemma_request_keys_differ();
}

/// Reading a request from an envelope that holds nothing else, and writing
/// it again, gives the envelope back: the same fields with the same values,
/// in whatever order they stood.
pub proof fn lemma_envelope_survives_decoding(envelope: JsonValue)
    requires
        holds_only_request_fields(envelope),
        RequestView::decode(envelope) is Some,
    ensures
        RequestView::decode(envelope)->0.json() == envelope,
{
    lemma_request_keys_differ();
    let request = RequestView::decode(envelope)->0;
    assert(request.json().fields() =~= envelope.fields());
}

/// `base` with `key` set to `value`, where there is one.
fn set_optional(base: Json, key: &str, value: Option<Json>) -> (r: Json)
    ensures
        r@ == with_optional(base@, key@, value_of(value)),
{
    match value {
        Some(v) => base.with(key, v),
        None => base,
    }
}

impl JsonRpcRequest {
    /// The envelope that carries this request on the wire.
    pub fn to_json(self) -> (r: Json)
        ensures
            r@ == self@.json(),
    {
        let base = Json::object().with("jsonrpc", Json::Str(self.jsonrpc)).with(
            "method",
            Json::Str(self.method),
        );
        set_optional(set_optional(base, "params", self.params), "id", self.id)
    }

    /// The request that an envelope carries, or `None` where `jsonrpc` or
    /// `method` is missing or is no string.
    pub fn from_json(envelope: &Json) -> (r: Option<JsonRpcRequest>)
        ensures
            match r {
                Some(request) => RequestView::decode(envelope@) == Some(request@),
                None => RequestView::decode(envelope@) is None,
            },
    {
        let jsonrpc = match envelope.get("jsonrpc") {
            Some(Json::Str(s)) => s.clone(),
            _ => { return None; },
        };
        let method = match envelope.get("method") {
            Some(Json::Str(s)) => s.clone(),
            _ => { return None; },
        };
        let id = match envelope.get("id") {
            Some(v) => Some(v.clone()),
            None => None,
        };
        let params = match envelope.get("params") {
            Some(v) => Some(v.clone()),
            None => None,
        };
        Some(JsonRpcRequest { jsonrpc, id, method, params })
    }
}

/// The error object of a JSON-RPC response.
#[derive(Debug, Clone, PartialEq, Eq)]
pub struct JsonRpcError {
    pub code: i32,
    pub message: String,
    pub data: Option<Json>,
}

/// The mathematical content of a [`JsonRpcError`].
pub struct ErrorView {
    pub code: int,
    pub message: Seq<char>,
    pub data: Option<JsonValue>,
}

impl View for JsonRpcError {
    type V = ErrorView;

    open spec fn view(&self) -> ErrorView {
        ErrorView { code: self.code as int, message: self.message@, data: value_of(self.data) }
    }
}

impl ErrorView {
    /// Malformed JSON, or a line that is too long.
    pub open spec fn parse_error() -> ErrorView {
        ErrorView { code: -32700, message: "Parse error"@, data: None }
    }

    /// An envelope with a field missing or with the wrong `jsonrpc`.
    pub open spec fn invalid_request() -> ErrorView {
        ErrorView { code: -32600, message: "Invalid Request"@, data: None }
    }

    /// A method that the server does not know.
    pub open spec fn method_not_found() -> ErrorView {
        ErrorView { code: -32601, message: "Method not found"@, data: None }
    }

    /// Parameters that are missing or do not fit the method.
    pub open spec fn invalid_params() -> ErrorView {
        ErrorView { code: -32602, message: "Invalid params"@, data: None }
    }

    /// A failure inside the server or one of its handlers.
    pub open spec fn internal_error() -> ErrorView {
        ErrorView { code: -32603, message: "Internal error"@, data: None }
    }

    /// The error that an error object carries: `code` must be an integer
    /// of 32 bits and `message` a string; `data` is taken as it is, where
    /// present.
    pub open spec fn decode(object: JsonValue) -> Option<ErrorView> {
        match (object.field("code"@), object.field("message"@)) {
            (Some(JsonValue::Num(NumberValue::Int(code))), Some(JsonValue::Str(message))) => {
                if i32::MIN <= code <= i32::MAX {
                    Some(ErrorView { code, message, data: object.field("data"@) })
                } else {
                    None
                }
            },
            _ => None,
        }
    }

    /// The error object as it goes on the wire.
    pub open spec fn json(self) -> JsonValue {
        with_optional(
            JsonValue::empty_object().with("code"@, JsonValue::Num(NumberValue::Int(self.code))).with(
                "message"@,
                JsonValue::Str(self.message),
            ),
            "data"@,
            self.data,
        )
    }
}

impl JsonRpcError {
    /// Malformed JSON, or a line that is too long.
    pub fn parse_error() -> (e: JsonRpcError)
        ensures
            e@ == ErrorView::parse_error(),
    {
        JsonRpcError { code: -32700, message: "Parse error".to_owned(), data: None }
    }

    /// An envelope with a field missing or with the wrong `jsonrpc`.
    pub fn invalid_request() -> (e: JsonRpcError)
        ensures
            e@ == ErrorView::invalid_request(),
    {
        JsonRpcError { code: -32600, message: "Invalid Request".to_owned(), data: None }
    }

    /// A method that the server does not know.
    pub fn method_not_found() -> (e: JsonRpcError)
        ensures
            e@ == ErrorView::method_not_found(),
    {
        JsonRpcError { code: -32601, message: "Method not found".to_owned(), data: None }
    }

    /// Parameters that are missing or do not fit the method.
    pub fn invalid_params() -> (e: JsonRpcError)
        ensures
            e@ == ErrorView::invalid_params(),
    {
        JsonRpcError { code: -32602, message: "Invalid params".to_owned(), data: None }
    }

    /// A failure inside the server or one of its handlers.
    pub fn internal_error() -> (e: JsonRpcError)
        ensures
            e@ == ErrorView::internal_error(),
    {
        JsonRpcError { code: -32603, message: "Internal error".to_owned(), data: None }
    }

    /// The error that an error object carries, or `None` where `code` is no
    /// integer of 32 bits or `message` is no string.
    pub fn from_json(object: &Json) -> (r: Option<JsonRpcError>)
        ensures
            match r {
                Some(error) => ErrorView::decode(object@) == Some(error@),
                None => ErrorView::decode(object@) is None,
            },
    {
        let code = match object.get("code") {
            Some(value) => match value.as_i64() {
                Some(code) => if -0x8000_0000 <= code && code <= 0x7fff_ffff {
                    code as i32
                } else {
                    return None;
                },
                None => { return None; },
            },
            None => { return None; },
        };
        let message = match object.get("message") {
            Some(Json::Str(s)) => s.clone(),
            _ => { return None; },
        };
        let data = match object.get("data") {
            Some(v) => Some(v.clone()),
            None => None,
        };
        Some(JsonRpcError { code, message, data })
    }

    /// The error object as it goes on the wire.
    pub fn to_json(self) -> (r: Json)
        ensures
            r@ == self@.json(),
    {
        let base = Json::object().with("code", Json::from_i64(self.code as i64)).with(
            "message",
            Json::Str(self.message),
        );
        set_optional(base, "data", self.data)
    }
}

/// A JSON-RPC response: `id` is that of the request, or absent where it
/// could not be told; one of `result` and `error` is set.
#[derive(Debug, Clone, PartialEq, Eq)]
pub struct JsonRpcResponse {
    pub jsonrpc: String,
    pub id: Option<Json>,
    pub result: Option<Json>,
    pub error: Option<JsonRpcError>,
}

/// The mathematical content of a [`JsonRpcResponse`].
pub struct ResponseView {
    pub jsonrpc: Seq<char>,
    pub id: Option<JsonValue>,
    pub result: Option<JsonValue>,
    pub error: Option<ErrorView>,
}

impl View for JsonRpcResponse {
    type V = ResponseView;

    open spec fn view(&self) -> ResponseView {
        ResponseView {
            jsonrpc: self.jsonrpc@,
            id: value_of(self.id),
            result: value_of(self.result),
            error: match self.error {
                Some(e) => Some(e@),
                None => None,
            },
        }
    }
}

/// The content of an optional response.
pub open spec fn response_of(response: Option<JsonRpcResponse>) -> Option<ResponseView> {
    match response {
        Some(r) => Some(r@),
        None => None,
    }
}

/// The content of a result or an error.
pub open spec fn body_of(body: Result<Json, JsonRpcError>) -> Result<JsonValue, ErrorView> {
    match body {
        Ok(result) => Ok(result@),
        Err(error) => Err(error@),
    }
}

impl ResponseView {
    /// The response that carries `result` back to the request `id`.
    pub open spec fn success(id: Option<JsonValue>, result: JsonValue) -> ResponseView {
        ResponseView { jsonrpc: "2.0"@, id, result: Some(result), error: None }
    }

    /// The response that reports `error` to the request `id`.
    pub open spec fn failure(id: Option<JsonValue>, error: ErrorView) -> ResponseView {
        ResponseView { jsonrpc: "2.0"@, id, result: None, error: Some(error) }
    }

    /// Version 2.0, and exactly one of `result` and `error`.
    pub open spec fn well_formed(self) -> bool {
        &&& self.jsonrpc == "2.0"@
        &&& (self.result is Some) != (self.error is Some)
    }

    /// The response that an envelope carries: `jsonrpc` must be a string;
    /// an `id` of `null` counts as absent; `result` is taken as it is, where
    /// present; `error`, where present, must be an error object.
    pub open spec fn decode(envelope: JsonValue) -> Option<ResponseView> {
        let id = match envelope.field("id"@) {
            Some(JsonValue::Null) => None,
            id => id,
        };
        match (envelope.field("jsonrpc"@), envelope.field("error"@)) {
            (Some(JsonValue::Str(jsonrpc)), Some(object)) => match ErrorView::decode(object) {
                Some(error) => Some(
                    ResponseView { jsonrpc, id, result: envelope.field("result"@), error: Some(error) },
                ),
                None => None,
            },
            (Some(JsonValue::Str(jsonrpc)), None) => Some(
                ResponseView { jsonrpc, id, result: envelope.field("result"@), error: None },
            ),
            _ => None,
        }
    }

    /// The envelope as it goes on the wire; an absent `id` is written as
    /// `null`.
    pub open spec fn json(self) -> JsonValue {
        let id = match self.id {
            Some(id) => id,
            None => JsonValue::Null,
        };
        let error = match self.error {
            Some(e) => Some(e.json()),
            None => None,
        };
        with_optional(
            with_optional(
                JsonValue::empty_object().with("jsonrpc"@, JsonValue::Str(self.jsonrpc)).with(
                    "id"@,
                    id,
                ),
                "result"@,
                self.result,
            ),
            "error"@,
            error,
        )
    }
}

/// The field names of an error object and of a response envelope differ from
/// one another.
pub proof fn lemma_response_keys_differ()
    ensures
        "code"@ != "message"@,
        "code"@ != "data"@,
        "message"@ != "data"@,
        "jsonrpc"@ != "id"@,
        "jsonrpc"@ != "result"@,
        "jsonrpc"@ != "error"@,
        "id"@ != "result"@,
        "id"@ != "error"@,
        "result"@ != "error"@,
{
    reveal_strlit("code");
    reveal_strlit("message");
    reveal_strlit("data");
    reveal_strlit("jsonrpc");
    reveal_strlit("id");
    reveal_strlit("result");
    reveal_strlit("error");
    assert("code"@[0] != "data"@[0]);
    assert("jsonrpc"@.len() == 7 && "id"@.len() == 2 && "result"@.len() == 6 && "error"@.len()
        == 5);
}

/// Whether a value is an object with no fields but those of an error.
pub open spec fn holds_only_error_fields(object: JsonValue) -> bool {
    &&& object is Object
    &&& forall|key: Seq<char>| #[trigger]
        object.fields().contains_key(key) ==> key == "code"@ || key == "message"@ || key
            == "data"@
}

/// Whether an envelope is an object with an `id` and with no fields but
/// those of a response, whose `error`, where it has one, holds no fields but
/// those of an error.
pub open spec fn holds_only_response_fields(envelope: JsonValue) -> bool {
    &&& envelope is Object
    &&& envelope.fields().contains_key("id"@)
    &&& forall|key: Seq<char>| #[trigger]
        envelope.fields().contains_key(key) ==> key == "jsonrpc"@ || key == "id"@ || key
            == "result"@ || key == "error"@
    &&& envelope.fields().contains_key("error"@) ==> holds_only_error_fields(
        envelope.fields()["error"@],
    )
}

/// Writing an error as an object and reading the object gives the error
/// back.
pub proof fn lemma_error_survives_the_wire(error: ErrorView)
    requires
        i32::MIN <= error.code <= i32::MAX,
    ensures
        ErrorView::decode(error.json()) == Some(error),
        holds_only_error_fields(error.json()),
{
    lemma_response_keys_differ();
}

/// Reading an error from an object that holds nothing else, and writing it
/// again, gives the object back.
pub proof fn lemma_error_object_survives_decoding(object: JsonValue)
    requires
        holds_only_error_fields(object),
        ErrorView::decode(object) is Some,
    ensures
        ErrorView::decode(object)->0.json() == object,
{
    lemma_response_keys_differ();
    let error = ErrorView::decode(object)->0;
    assert(error.json().fields() =~= object.fields());
}

/// Writing a response as an envelope and reading the envelope gives the
/// response back, unless its `id` is `null`, which is read as no `id`.
pub proof fn lemma_response_survives_the_wire(response: ResponseView)
    requires
        response.id != Some(JsonValue::Null),
        response.error matches Some(error) ==> i32::MIN <= error.code <= i32::MAX,
    ensures
        ResponseView::decode(response.json()) == Some(response),
        holds_only_response_fields(response.json()),
{
    lemma_response_keys_differ();
    match response.error {
        Some(error) => {
            lemma_error_survives_the_wire(error);
        },
        None => {},
    }
}

/// Reading a response from an envelope that holds nothing else, and writing
/// it again, gives the envelope back: the same fields with the same values,
/// in whatever order they stood.
pub proof fn lemma_response_envelope_survives_decoding(envelope: JsonValue)
    requires
        holds_only_response_fields(envelope),
        ResponseView::decode(envelope) is Some,
    ensures
        ResponseView::decode(envelope)->0.json() == envelope,
{
    lemma_response_keys_differ();
    let response = ResponseView::decode(envelope)->0;
    if envelope.fields().contains_key("error"@) {
        lemma_error_object_survives_decoding(envelope.fields()["error"@]);
    }
    assert(response.json().fields() =~= envelope.fields());
}

/// The envelope of a response holds its four fields as they are: the
/// version, the `id` or `null`, and of `result` and `error` those that are
/// set. So the envelope of a well-formed response says version 2.0 and holds
/// one of `result` and `error`, never both.
pub proof fn lemma_response_envelope(response: ResponseView)
    ensures
        response.json().field("jsonrpc"@) == Some(JsonValue::Str(response.jsonrpc)),
        response.json().field("id"@) == Some(
            match response.id {
                Some(id) => id,
                None => JsonValue::Null,
            },
        ),
        response.json().field("result"@) == response.result,
        response.json().field("error"@) == (match response.error {
            Some(e) => Some(e.json()),
            None => None,
        }),
        response.well_formed() ==> (response.json().field("result"@) is Some) != (
        response.json().field("error"@) is Some),
{
    lemma_response_keys_differ();
}

impl JsonRpcResponse {
    /// The response that carries `result` back to the request `id`.
    pub fn success(id: Option<Json>, result: Json) -> (r: JsonRpcResponse)
        ensures
            r@ == ResponseView::success(value_of(id), result@),
    {
        JsonRpcResponse { jsonrpc: "2.0".to_owned(), id, result: Some(result), error: None }
    }

    /// The response that reports `error` to the request `id`.
    pub fn failure(id: Option<Json>, error: JsonRpcError) -> (r: JsonRpcResponse)
        ensures
            r@ == ResponseView::failure(value_of(id), error@),
    {
        JsonRpcResponse { jsonrpc: "2.0".to_owned(), id, result: None, error: Some(error) }
    }

    /// The response that an envelope carries, or `None` where `jsonrpc` is
    /// no string or `error` is no error object.
    pub fn from_json(envelope: &Json) -> (r: Option<JsonRpcResponse>)
        ensures
            match r {
                Some(response) => ResponseView::decode(envelope@) == Some(response@),
                None => ResponseView::decode(envelope@) is None,
            },
    {
        let jsonrpc = match envelope.get("jsonrpc") {
            Some(Json::Str(s)) => s.clone(),
            _ => { return None; },
        };
        let id = match envelope.get("id") {
            Some(Json::Null) => None,
            Some(v) => Some(v.clone()),
            None => None,
        };
        let result = match envelope.get("result") {
            Some(v) => Some(v.clone()),
            None => None,
        };
        let error = match envelope.get("error") {
            Some(object) => match JsonRpcError::from_json(object) {
                Some(error) => Some(error),
                None => { return None; },
            },
            None => None,
        };
        Some(JsonRpcResponse { jsonrpc, id, result, error })
    }

    /// The envelope as it goes on the wire; an absent `id` is written as
    /// `null`.
    pub fn to_json(self) -> (r: Json)
        ensures
            r@ == self@.json(),
    {
        let id = match self.id {
            Some(id) => id,
            None => Json::Null,
        };
        let error = match self.error {
            Some(e) => Some(e.to_json()),
            None => None,
        };
        let base = Json::object().with("jsonrpc", Json::Str(self.jsonrpc)).with("id", id);
        set_optional(set_optional(base, "result", self.result), "error", error)
    }
}

/// Who the client says it is.
#[derive(Debug, Clone, PartialEq, Eq)]
pub struct ClientInfo {
    pub name: String,
    pub version: String,
}

/// The mathematical content of a [`ClientInfo`].
pub struct ClientInfoView {
    pub name: Seq<char>,
    pub version: Seq<char>,
}

impl View for ClientInfo {
    type V = ClientInfoView;

    open spec fn view(&self) -> ClientInfoView {
        ClientInfoView { name: self.name@, version: self.version@ }
    }
}

/// The parameters of `initialize`.
#[derive(Debug, Clone, PartialEq, Eq)]
pub struct InitializeRequest {
    pub protocol_version: String,
    pub capabilities: Json,
    pub client_info: ClientInfo,
}

/// The mathematical content of an [`InitializeRequest`].
pub struct InitializeView {
    pub protocol_version: Seq<char>,
    pub capabilities: JsonValue,
    pub client_info: ClientInfoView,
}

impl View for InitializeRequest {
    type V = InitializeView;

    open spec fn view(&self) -> InitializeView {
        InitializeView {
            protocol_version: self.protocol_version@,
            capabilities: self.capabilities@,
            client_info: self.client_info@,
        }
    }
}

impl ClientInfoView {
    /// The client's name and version from the `clientInfo` object: both
    /// must be strings.
    pub open spec fn decode(info: JsonValue) -> Option<ClientInfoView> {
        match (info.field("name"@), info.field("version"@)) {
            (Some(JsonValue::Str(name)), Some(JsonValue::Str(version))) => Some(
                ClientInfoView { name, version },
            ),
            _ => None,
        }
    }
}

impl InitializeView {
    /// The parameters of `initialize` from the `params` value:
    /// `protocolVersion` must be a string, `capabilities` must be there, and
    /// `clientInfo` must hold a name and a version.
    pub open spec fn decode(params: JsonValue) -> Option<InitializeView> {
        match (
            params.field("protocolVersion"@),
            params.field("capabilities"@),
            params.field("clientInfo"@),
        ) {
            (Some(JsonValue::Str(protocol_version)), Some(capabilities), Some(info)) => {
                match ClientInfoView::decode(info) {
                    Some(client_info) => Some(
                        InitializeView { protocol_version, capabilities, client_info },
                    ),
                    None => None,
                }
            },
            _ => None,
        }
    }

    /// What the server answers to `initialize`: its protocol version, that
    /// it offers tools whose list does not change, and its name and version.
    pub open spec fn result(
        protocol_version: Seq<char>,
        name: Seq<char>,
        version: Seq<char>,
    ) -> JsonValue {
        JsonValue::empty_object().with("protocolVersion"@, JsonValue::Str(protocol_version)).with(
            "capabilities"@,
            JsonValue::empty_object().with(
                "tools"@,
                JsonValue::empty_object().with("listChanged"@, JsonValue::Bool(false)),
            ),
        ).with(
            "serverInfo"@,
            JsonValue::empty_object().with("name"@, JsonValue::Str(name)).with(
                "version"@,
                JsonValue::Str(version),
            ),
        )
    }
}

impl ClientInfo {
    /// The client's name and version from the `clientInfo` object.
    pub fn from_json(info: &Json) -> (r: Option<ClientInfo>)
        ensures
            match r {
                Some(client) => ClientInfoView::decode(info@) == Some(client@),
                None => ClientInfoView::decode(info@) is None,
            },
    {
        let name = match info.get("name") {
            Some(Json::Str(s)) => s.clone(),
            _ => { return None; },
        };
        let version = match info.get("version") {
            Some(Json::Str(s)) => s.clone(),
            _ => { return None; },
        };
        Some(ClientInfo { name, version })
    }
}

impl InitializeRequest {
    /// The parameters of `initialize` from the `params` value.
    pub fn from_json(params: &Json) -> (r: Option<InitializeRequest>)
        ensures
            match r {
                Some(request) => InitializeView::decode(params@) == Some(request@),
                None => InitializeView::decode(params@) is None,
            },
    {
        let protocol_version = match params.get("protocolVersion") {
            Some(Json::Str(s)) => s.clone(),
            _ => { return None; },
        };
        let capabilities = match params.get("capabilities") {
            Some(v) => v.clone(),
            None => { return None; },
        };
        let client_info = match params.get("clientInfo") {
            Some(info) => match ClientInfo::from_json(info) {
                Some(client) => client,
                None => { return None; },
            },
            None => { return None; },
        };
        Some(InitializeRequest { protocol_version, capabilities, client_info })
    }

    /// What the server answers to `initialize`.
    pub fn result(protocol_version: &str, name: &str, version: &str) -> (r: Json)
        ensures
            r@ == InitializeView::result(protocol_version@, name@, version@),
    {
        let tools = Json::object().with("listChanged", Json::Bool(false));
        let capabilities = Json::object().with("tools", tools);
        let server_info = Json::object().with("name", Json::text(name)).with(
            "version",
            Json::text(version),
        );
        Json::object().with("protocolVersion", Json::text(protocol_version)).with(
            "capabilities",
            capabilities,
        ).with("serverInfo", server_info)
    }
}

/// What each item of a list decodes to, where every item decodes.
pub open spec fn decode_each<T>(
    items: Seq<JsonValue>,
    decode: spec_fn(JsonValue) -> Option<T>,
) -> Option<Seq<T>>
    decreases items.len(),
{
    if items.len() == 0 {
        Some(Seq::empty())
    } else {
        match (decode_each(items.drop_last(), decode), decode(items.last())) {
            (Some(front), Some(last)) => Some(front.push(last)),
            _ => None,
        }
    }
}

/// A list of which a part from the start does not decode does not decode.
pub proof fn lemma_decode_each_needs_every_item<T>(
    items: Seq<JsonValue>,
    decode: spec_fn(JsonValue) -> Option<T>,
    k: int,
)
    requires
        0 <= k <= items.len(),
        decode_each(items.take(k), decode) is None,
    ensures
        decode_each(items, decode) is None,
    decreases items.len(),
{
    if k == items.len() {
        assert(items.take(k) =~= items);
    } else {
        assert(items.drop_last().take(k) =~= items.take(k));
        lemma_decode_each_needs_every_item(items.drop_last(), decode, k);
    }
}

/// A list of encoded items decodes to the items, where each encoded item
/// decodes to its item.
pub proof fn lemma_decode_each_inverts<T>(
    items: Seq<T>,
    encode: spec_fn(T) -> JsonValue,
    decode: spec_fn(JsonValue) -> Option<T>,
)
    requires
        forall|i: int| 0 <= i < items.len() ==> decode(encode(#[trigger] items[i])) == Some(items[i]),
    ensures
        decode_each(Seq::new(items.len(), |i: int| encode(items[i])), decode) == Some(items),
    decreases items.len(),
{
    let encoded = Seq::new(items.len(), |i: int| encode(items[i]));
    if items.len() > 0 {
        let front = items.drop_last();
        assert(encoded.drop_last() =~= Seq::new(front.len(), |i: int| encode(front[i])));
        assert forall|i: int| 0 <= i < front.len() implies decode(encode(#[trigger] front[i]))
            == Some(front[i]) by {}
        lemma_decode_each_inverts(front, encode, decode);
    }
}

/// What `tools/list` says of one tool.
#[derive(Debug, Clone, PartialEq, Eq)]
pub struct Tool {
    pub name: String,
    pub description: String,
    pub input_schema: Json,
}

/// The mathematical content of a [`Tool`].
pub struct ToolView {
    pub name: Seq<char>,
    pub description: Seq<char>,
    pub input_schema: JsonValue,
}

impl View for Tool {
    type V = ToolView;

    open spec fn view(&self) -> ToolView {
        ToolView {
            name: self.name@,
            description: self.description@,
            input_schema: self.input_schema@,
        }
    }
}

impl ToolView {
    /// The descriptor as it goes on the wire.
    pub open spec fn json(self) -> JsonValue {
        JsonValue::empty_object().with("name"@, JsonValue::Str(self.name)).with(
            "description"@,
            JsonValue::Str(self.description),
        ).with("inputSchema"@, self.input_schema)
    }

    /// The descriptor that an object carries: `name` and `description` must
    /// be strings, and `inputSchema` must be there.
    pub open spec fn decode(object: JsonValue) -> Option<ToolView> {
        match (object.field("name"@), object.field("description"@), object.field("inputSchema"@)) {
            (
                Some(JsonValue::Str(name)),
                Some(JsonValue::Str(description)),
                Some(input_schema),
            ) => Some(ToolView { name, description, input_schema }),
            _ => None,
        }
    }
}

/// The contents of each descriptor of a list.
pub open spec fn tools_view(tools: Seq<Tool>) -> Seq<ToolView> {
    Seq::new(tools.len(), |i: int| tools[i]@)
}

/// The result of `tools/list` for a list of descriptors.
pub open spec fn tool_list_json(tools: Seq<ToolView>) -> JsonValue {
    JsonValue::empty_object().with(
        "tools"@,
        JsonValue::Array(Seq::new(tools.len(), |i: int| tools[i].json())),
    )
}

/// The descriptors that a result of `tools/list` carries: `tools` must be
/// an array of descriptors.
pub open spec fn decode_tool_list(result: JsonValue) -> Option<Seq<ToolView>> {
    match result.field("tools"@) {
        Some(JsonValue::Array(items)) => decode_each(
            items,
            |object: JsonValue| ToolView::decode(object),
        ),
        _ => None,
    }
}

/// Writing a list of descriptors as a result of `tools/list` and reading
/// the result gives the list back.
pub proof fn lemma_tool_list_survives_the_wire(tools: Seq<ToolView>)
    ensures
        decode_tool_list(tool_list_json(tools)) == Some(tools),
{
    reveal_strlit("name");
    reveal_strlit("description");
    reveal_strlit("inputSchema");
    assert("description"@[0] != "inputSchema"@[0]);
    let encode = |tool: ToolView| tool.json();
    let decode = |object: JsonValue| ToolView::decode(object);
    assert forall|i: int| 0 <= i < tools.len() implies decode(encode(#[trigger] tools[i])) == Some(
        tools[i],
    ) by {}
    lemma_decode_each_inverts(tools, encode, decode);
    assert(Seq::new(tools.len(), |i: int| tools[i].json()) =~= Seq::new(
        tools.len(),
        |i: int| encode(tools[i]),
    ));
}

impl Tool {
    /// The descriptor as it goes on the wire.
    pub fn to_json(&self) -> (r: Json)
        ensures
            r@ == self@.json(),
    {
        Json::object().with("name", Json::Str(self.name.clone())).with(
            "description",
            Json::Str(self.description.clone()),
        ).with("inputSchema", self.input_schema.clone())
    }

    /// The descriptor that an object carries, or `None` where `name` or
    /// `description` is no string or `inputSchema` is missing.
    pub fn from_json(object: &Json) -> (r: Option<Tool>)
        ensures
            match r {
                Some(tool) => ToolView::decode(object@) == Some(tool@),
                None => ToolView::decode(object@) is None,
            },
    {
        let name = match object.get("name") {
            Some(Json::Str(s)) => s.clone(),
            _ => { return None; },
        };
        let description = match object.get("description") {
            Some(Json::Str(s)) => s.clone(),
            _ => { return None; },
        };
        let input_schema = match object.get("inputSchema") {
            Some(v) => v.clone(),
            None => { return None; },
        };
        Some(Tool { name, description, input_schema })
    }
}

/// The result of `tools/list`.
#[derive(Debug, Clone, PartialEq, Eq)]
pub struct ListToolsResponse {
    pub tools: Vec<Tool>,
}

impl ListToolsResponse {
    /// The descriptors that a result of `tools/list` carries, or `None`
    /// where `tools` is no array of descriptors.
    pub fn from_json(result: &Json) -> (r: Option<ListToolsResponse>)
        ensures
            match r {
                Some(response) => decode_tool_list(result@) == Some(tools_view(response.tools@)),
                None => decode_tool_list(result@) is None,
            },
    {
        let items = match result.get("tools") {
            Some(Json::Array(items)) => items,
            _ => { return None; },
        };
        let ghost values = items_view(items@);
        let ghost decode = |object: JsonValue| ToolView::decode(object);
        let mut tools: Vec<Tool> = Vec::new();
        let mut i: usize = 0;
        proof {
            lemma_items_view(items@);
        }
        while i < items.len()
            invariant
                i <= items@.len(),
                values == items_view(items@),
                values.len() == items@.len(),
                forall|k: int| 0 <= k < items@.len() ==> #[trigger] values[k] == items@[k]@,
                decode == (|object: JsonValue| ToolView::decode(object)),
                result@.field("tools"@) == Some(JsonValue::Array(values)),
                decode_each(values.take(i as int), decode) == Some(tools_view(tools@)),
            decreases items@.len() - i,
        {
            proof {
                assert(values.take(i as int + 1).drop_last() =~= values.take(i as int));
            }
            match Tool::from_json(&items[i]) {
                Some(tool) => {
                    tools.push(tool);
                },
                None => {
                    proof {
                        lemma_decode_each_needs_every_item(values, decode, i as int + 1);
                    }
                    return None;
                },
            }
            i = i + 1;
        }
        assert(values.take(i as int) =~= values);
        Some(ListToolsResponse { tools })
    }

    /// The result as it goes on the wire.
    pub fn to_json(&self) -> (r: Json)
        ensures
            r@ == tool_list_json(tools_view(self.tools@)),
    {
        let mut items: Vec<Json> = Vec::new();
        let mut i: usize = 0;
        while i < self.tools.len()
            invariant
                i <= self.tools@.len(),
                items_view(items@) == Seq::new(i as nat, |k: int| tools_view(self.tools@)[k].json()),
            decreases self.tools@.len() - i,
        {
            let item = self.tools[i].to_json();
            proof {
                lemma_items_view_push(items@, item);
                assert(Seq::new(i as nat, |k: int| tools_view(self.tools@)[k].json()).push(item@)
                    =~= Seq::new((i + 1) as nat, |k: int| tools_view(self.tools@)[k].json()));
            }
            items.push(item);
            i = i + 1;
        }
        assert(Seq::new(i as nat, |k: int| tools_view(self.tools@)[k].json()) =~= Seq::new(
            tools_view(self.tools@).len(),
            |k: int| tools_view(self.tools@)[k].json(),
        ));
        Json::object().with("tools", Json::Array(items))
    }
}

/// One part of what a tool hands back.
#[derive(Debug, Clone, PartialEq, Eq)]
pub enum ToolContent {
    Text { text: String },
}

/// The mathematical content of a [`ToolContent`].
pub enum ContentView {
    Text { text: Seq<char> },
}

impl View for ToolContent {
    type V = ContentView;

    open spec fn view(&self) -> ContentView {
        match self {
            ToolContent::Text { text } => ContentView::Text { text: text@ },
        }
    }
}

impl ContentView {
    /// The part as it goes on the wire.
    pub open spec fn json(self) -> JsonValue {
        match self {
            ContentView::Text { text } => JsonValue::empty_object().with(
                "type"@,
                JsonValue::Str("text"@),
            ).with("text"@, JsonValue::Str(text)),
        }
    }

    /// The part that an object carries: `type` must be `"text"` and `text`
    /// a string.
    pub open spec fn decode(object: JsonValue) -> Option<ContentView> {
        match (object.field("type"@), object.field("text"@)) {
            (Some(JsonValue::Str(kind)), Some(JsonValue::Str(text))) => if kind == "text"@ {
                Some(ContentView::Text { text })
            } else {
                None
            },
            _ => None,
        }
    }
}

impl ToolContent {
    /// The part as it goes on the wire.
    pub fn to_json(&self) -> (r: Json)
        ensures
            r@ == self@.json(),
    {
        match self {
            ToolContent::Text { text } => Json::object().with("type", Json::text("text")).with(
                "text",
                Json::Str(text.clone()),
            ),
        }
    }

    /// The part that an object carries, or `None` where `type` is not
    /// `"text"` or `text` is no string.
    pub fn from_json(object: &Json) -> (r: Option<ToolContent>)
        ensures
            match r {
                Some(part) => ContentView::decode(object@) == Some(part@),
                None => ContentView::decode(object@) is None,
            },
    {
        match object.get("type") {
            Some(Json::Str(kind)) => if !str_eq(kind.as_str(), "text") {
                return None;
            },
            _ => { return None; },
        }
        match object.get("text") {
            Some(Json::Str(text)) => Some(ToolContent::Text { text: text.clone() }),
            _ => None,
        }
    }
}

/// The contents of each part of a list.
pub open spec fn contents_view(content: Seq<ToolContent>) -> Seq<ContentView> {
    Seq::new(content.len(), |i: int| content[i]@)
}

/// The parameters of `tools/call`.
#[derive(Debug, Clone, PartialEq, Eq)]
pub struct CallToolRequest {
    pub name: String,
    pub arguments: Option<Json>,
}

/// The mathematical content of a [`CallToolRequest`].
pub struct CallRequestView {
    pub name: Seq<char>,
    pub arguments: Option<JsonValue>,
}

impl View for CallToolRequest {
    type V = CallRequestView;

    open spec fn view(&self) -> CallRequestView {
        CallRequestView { name: self.name@, arguments: value_of(self.arguments) }
    }
}

impl CallRequestView {
    /// The parameters of `tools/call` from the `params` value: `name` must
    /// be a string; `arguments` is taken as it is, where present.
    pub open spec fn decode(params: JsonValue) -> Option<CallRequestView> {
        match params.field("name"@) {
            Some(JsonValue::Str(name)) => Some(
                CallRequestView { name, arguments: params.field("arguments"@) },
            ),
            _ => None,
        }
    }

    /// The arguments that the tool gets: those given, or the empty object.
    pub open spec fn effective_arguments(self) -> JsonValue {
        match self.arguments {
            Some(arguments) => arguments,
            None => JsonValue::empty_object(),
        }
    }
}

impl CallToolRequest {
    /// The parameters of `tools/call` from the `params` value.
    pub fn from_json(params: &Json) -> (r: Option<CallToolRequest>)
        ensures
            match r {
                Some(request) => CallRequestView::decode(params@) == Some(request@),
                None => CallRequestView::decode(params@) is None,
            },
    {
        let name = match params.get("name") {
            Some(Json::Str(s)) => s.clone(),
            _ => { return None; },
        };
        let arguments = match params.get("arguments") {
            Some(v) => Some(v.clone()),
            None => None,
        };
        Some(CallToolRequest { name, arguments })
    }
}

/// What a tool hands back: at least one part, and whether the tool itself
/// reports a failure.
#[derive(Debug, Clone, PartialEq, Eq)]
pub struct CallToolResponse {
    pub content: Vec<ToolContent>,
    pub is_error: Option<bool>,
}

/// The mathematical content of a [`CallToolResponse`].
pub struct CallResultView {
    pub content: Seq<ContentView>,
    pub is_error: Option<bool>,
}

impl View for CallToolResponse {
    type V = CallResultView;

    open spec fn view(&self) -> CallResultView {
        CallResultView { content: contents_view(self.content@), is_error: self.is_error }
    }
}

impl CallResultView {
    /// One text part, and no word of failure.
    pub open spec fn text(text: Seq<char>) -> CallResultView {
        CallResultView { content: seq![ContentView::Text { text }], is_error: None }
    }

    /// One text part, and the word that the tool failed.
    pub open spec fn error(text: Seq<char>) -> CallResultView {
        CallResultView { content: seq![ContentView::Text { text }], is_error: Some(true) }
    }

    /// The result that a value carries: `content` must be an array of
    /// parts, and `isError`, where present, a boolean.
    pub open spec fn decode(result: JsonValue) -> Option<CallResultView> {
        let content = match result.field("content"@) {
            Some(JsonValue::Array(items)) => decode_each(
                items,
                |object: JsonValue| ContentView::decode(object),
            ),
            _ => None,
        };
        match (content, result.field("isError"@)) {
            (Some(content), Some(JsonValue::Bool(flag))) => Some(
                CallResultView { content, is_error: Some(flag) },
            ),
            (Some(content), None) => Some(CallResultView { content, is_error: None }),
            _ => None,
        }
    }

    /// The result as it goes on the wire; `isError` only where it is set.
    pub open spec fn json(self) -> JsonValue {
        with_optional(
            JsonValue::empty_object().with(
                "content"@,
                JsonValue::Array(Seq::new(self.content.len(), |i: int| self.content[i].json())),
            ),
            "isError"@,
            match self.is_error {
                Some(flag) => Some(JsonValue::Bool(flag)),
                None => None,
            },
        )
    }
}

/// Writing the result of a tool as a value and reading the value gives the
/// result back.
pub proof fn lemma_call_result_survives_the_wire(result: CallResultView)
    ensures
        CallResultView::decode(result.json()) == Some(result),
{
    reveal_strlit("type");
    reveal_strlit("text");
    reveal_strlit("content");
    reveal_strlit("isError");
    assert("type"@.len() == 4 && "text"@.len() == 4 && "content"@.len() == 7 && "isError"@.len()
        == 7);
    assert("type"@[1] != "text"@[1]);
    assert("content"@[0] != "isError"@[0]);
    let encode = |part: ContentView| part.json();
    let decode = |object: JsonValue| ContentView::decode(object);
    assert forall|i: int| 0 <= i < result.content.len() implies decode(
        encode(#[trigger] result.content[i]),
    ) == Some(result.content[i]) by {}
    lemma_decode_each_inverts(result.content, encode, decode);
    assert(Seq::new(result.content.len(), |i: int| result.content[i].json()) =~= Seq::new(
        result.content.len(),
        |i: int| encode(result.content[i]),
    ));
}

impl CallToolResponse {
    /// The result that a value carries, or `None` where `content` is no
    /// array of parts or `isError` is there and is no boolean.
    pub fn from_json(result: &Json) -> (r: Option<CallToolResponse>)
        ensures
            match r {
                Some(response) => CallResultView::decode(result@) == Some(response@),
                None => CallResultView::decode(result@) is None,
            },
    {
        let is_error = match result.get("isError") {
            Some(Json::Bool(flag)) => Some(*flag),
            Some(_) => { return None; },
            None => None,
        };
        let items = match result.get("content") {
            Some(Json::Array(items)) => items,
            _ => { return None; },
        };
        let ghost values = items_view(items@);
        let ghost decode = |object: JsonValue| ContentView::decode(object);
        let mut content: Vec<ToolContent> = Vec::new();
        let mut i: usize = 0;
        proof {
            lemma_items_view(items@);
        }
        while i < items.len()
            invariant
                i <= items@.len(),
                values == items_view(items@),
                values.len() == items@.len(),
                forall|k: int| 0 <= k < items@.len() ==> #[trigger] values[k] == items@[k]@,
                decode == (|object: JsonValue| ContentView::decode(object)),
                result@.field("content"@) == Some(JsonValue::Array(values)),
                decode_each(values.take(i as int), decode) == Some(contents_view(content@)),
            decreases items@.len() - i,
        {
            proof {
                assert(values.take(i as int + 1).drop_last() =~= values.take(i as int));
            }
            match ToolContent::from_json(&items[i]) {
                Some(part) => {
                    proof {
                        assert(contents_view(content@.push(part)) =~= contents_view(content@).push(
                            part@,
                        ));
                    }
                    content.push(part);
                },
                None => {
                    proof {
                        lemma_decode_each_needs_every_item(values, decode, i as int + 1);
                    }
                    return None;
                },
            }
            i = i + 1;
        }
        assert(values.take(i as int) =~= values);
        Some(CallToolResponse { content, is_error })
    }

    /// One text part, and no word of failure.
    pub fn text(text: String) -> (r: CallToolResponse)
        ensures
            r@ == CallResultView::text(text@),
    {
        let mut content: Vec<ToolContent> = Vec::new();
        content.push(ToolContent::Text { text });
        let r = CallToolResponse { content, is_error: None };
        assert(r@.content =~= seq![ContentView::Text { text: text@ }]);
        r
    }

    /// One text part, and the word that the tool failed.
    pub fn error(text: String) -> (r: CallToolResponse)
        ensures
            r@ == CallResultView::error(text@),
    {
        let mut content: Vec<ToolContent> = Vec::new();
        content.push(ToolContent::Text { text });
        let r = CallToolResponse { content, is_error: Some(true) };
        assert(r@.content =~= seq![ContentView::Text { text: text@ }]);
        r
    }

    /// The result as it goes on the wire.
    pub fn to_json(&self) -> (r: Json)
        ensures
            r@ == self@.json(),
    {
        let mut items: Vec<Json> = Vec::new();
        let mut i: usize = 0;
        while i < self.content.len()
            invariant
                i <= self.content@.len(),
                items_view(items@) == Seq::new(i as nat, |k: int| self@.content[k].json()),
            decreases self.content@.len() - i,
        {
            let item = self.content[i].to_json();
            proof {
                lemma_items_view_push(items@, item);
                assert(Seq::new(i as nat, |k: int| self@.content[k].json()).push(item@) =~= Seq::new(
                    (i + 1) as nat,
                    |k: int| self@.content[k].json(),
                ));
            }
            items.push(item);
            i = i + 1;
        }
        assert(Seq::new(i as nat, |k: int| self@.content[k].json()) =~= Seq::new(
            self@.content.len(),
            |k: int| self@.content[k].json(),
        ));
        let flag = match self.is_error {
            Some(flag) => Some(Json::Bool(flag)),
            None => None,
        };
        set_optional(Json::object().with("content", Json::Array(items)), "isError", flag)
    }
}

} // verus!
