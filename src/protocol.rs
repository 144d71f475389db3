//! Wire types of the JSON-RPC 2.0 protocol spoken over standard input and
//! output, and the decisions of the request dispatcher.
use vstd::prelude::*;
use std::collections::HashMap;
use crate::error::{error_code, error_text, error_type_name, recoverable, rpc_code, TerminalError};
use crate::status::SessionStatus;
use crate::text::{joined, owned, str_eq};

verus! {

/// Opaque JSON value carried through unchanged (request ids, parameters, results).
#[verifier::external_type_specification]
#[verifier::external_body]
pub struct ExJsonValue(serde_json::Value);

/// Terminal dimensions in character cells; pixel sizes are always zero.
#[derive(Debug, Clone, Copy, PartialEq, Eq, Structural)]
pub struct TermSize {
    pub rows: u16,
    pub cols: u16,
}

impl Default for TermSize {
    /// 24 rows by 80 columns.
    fn default() -> (r: TermSize)
        ensures
            r.rows == 24 && r.cols == 80,
    {
        TermSize { rows: 24, cols: 80 }
    }
}

/// How a session reaches its shell.
#[derive(Debug, Clone, PartialEq)]
pub enum ConnectionType {
    /// A shell under a local pseudo-terminal.
    Local {
        shell_path: Option<String>,
        cwd: Option<String>,
        env: Option<HashMap<String, String>>,
    },
    /// A shell on a remote host reached over SSH.
    Ssh {
        host: String,
        port: Option<u16>,
        user: Option<String>,
        identity_file: Option<String>,
        password: Option<String>,
    },
}

impl ConnectionType {
    /// The same descriptor with any password removed, as it may be shown to clients.
    pub fn redacted(&self) -> (r: ConnectionType)
        ensures
            is_redaction(*self, r),
    {
        match self {
            ConnectionType::Local { shell_path, cwd, env } => ConnectionType::Local {
                shell_path: copy_opt(shell_path),
                cwd: copy_opt(cwd),
                env: match env {
                    Some(m) => Some(m.clone()),
                    None => None,
                },
            },
            ConnectionType::Ssh { host, port, user, identity_file, password: _ } => ConnectionType::Ssh {
                host: host.clone(),
                port: *port,
                user: copy_opt(user),
                identity_file: copy_opt(identity_file),
                password: None,
            },
        }
    }

    /// Whether this descriptor names a local shell.
    pub fn is_local(&self) -> (r: bool)
        ensures
            r == (*self is Local),
    {
        match self {
            ConnectionType::Local { .. } => true,
            _ => false,
        }
    }
}

/// Whether `r` is `c` with its password (if any) removed.
pub open spec fn is_redaction(c: ConnectionType, r: ConnectionType) -> bool {
    match (c, r) {
        (
            ConnectionType::Local { shell_path: a, cwd: b, env: e },
            ConnectionType::Local { shell_path: x, cwd: y, env: f },
        ) => opt_view(a) == opt_view(x) && opt_view(b) == opt_view(y) && env_view(e) == env_view(f),
        (
            ConnectionType::Ssh { host: h, port: p, user: u, identity_file: i, password: _ },
            ConnectionType::Ssh { host: h2, port: p2, user: u2, identity_file: i2, password: w },
        ) => h@ == h2@ && p == p2 && opt_view(u) == opt_view(u2) && opt_view(i) == opt_view(i2)
            && w is None,
        _ => false,
    }
}

/// The assignments of an optional environment overlay.
pub open spec fn env_view(o: Option<HashMap<String, String>>) -> Option<Map<String, String>> {
    match o {
        Some(m) => Some(m@),
        None => None,
    }
}

/// The characters of an optional string.
pub open spec fn opt_view(o: Option<String>) -> Option<Seq<char>> {
    match o {
        Some(s) => Some(s@),
        None => None,
    }
}

/// A copy of an optional string.
pub fn copy_opt(o: &Option<String>) -> (r: Option<String>)
    ensures
        opt_view(r) == opt_view(*o),
{
    match o {
        Some(s) => Some(s.clone()),
        None => None,
    }
}

/// Snapshot of one session as reported to clients.
#[derive(Debug, Clone)]
pub struct SessionInfo {
    pub id: String,
    pub connection_type: ConnectionType,
    pub status: SessionStatus,
    pub title: Option<String>,
    pub cwd: Option<String>,
    pub exit_code: Option<i32>,
    pub created_at: u64,
}

/// Parameters of `session.create`.
#[derive(Debug, Clone)]
pub struct CreateSessionRequest {
    pub connection: ConnectionType,
    pub term_size: TermSize,
}

/// Result of `session.create`.
#[derive(Debug, Clone)]
pub struct CreateSessionResponse {
    pub session_id: String,
}

/// Parameters of `session.input`; `data` is base64.
#[derive(Debug, Clone)]
pub struct InputRequest {
    pub session_id: String,
    pub data: String,
}

/// Parameters of `session.resize`.
#[derive(Debug, Clone)]
pub struct ResizeRequest {
    pub session_id: String,
    pub term_size: TermSize,
}

/// Parameters of `session.close`.
#[derive(Debug, Clone)]
pub struct CloseSessionRequest {
    pub session_id: String,
}

/// Parameters of `session.get`.
#[derive(Debug, Clone)]
pub struct GetSessionRequest {
    pub session_id: String,
}

/// `terminal.output`: base64 of bytes the session produced.
#[derive(Debug, Clone)]
pub struct OutputNotification {
    pub session_id: String,
    pub data: String,
}

/// `session.status`: the session entered `status`.
#[derive(Debug, Clone)]
pub struct SessionStatusNotification {
    pub session_id: String,
    pub status: SessionStatus,
    pub exit_code: Option<i32>,
}

/// `session.title`: the session's title changed.
#[derive(Debug, Clone)]
pub struct SessionTitleNotification {
    pub session_id: String,
    pub title: String,
}

/// `session.cwd`: the session's working directory changed.
#[derive(Debug, Clone)]
pub struct SessionCwdNotification {
    pub session_id: String,
    pub cwd: String,
}

/// `session.clipboard`: the session asked to set the clipboard.
#[derive(Debug, Clone)]
pub struct SessionClipboardNotification {
    pub session_id: String,
    pub content: String,
}

/// Metadata attached to application errors.
#[derive(Debug, Clone, PartialEq, Eq)]
pub struct ErrorData {
    pub error_type: String,
    pub error_code: i32,
    pub recoverable: bool,
}

/// A JSON-RPC error object.
#[derive(Debug, Clone)]
pub struct JsonRpcError {
    pub code: i32,
    pub message: String,
    pub data: Option<ErrorData>,
}

/// A JSON-RPC request (or, without an id, a notification from the client).
#[derive(Debug)]
pub struct JsonRpcRequest {
    pub jsonrpc: String,
    pub method: String,
    pub params: Option<serde_json::Value>,
    pub id: serde_json::Value,
}

/// A JSON-RPC response: exactly one of `result` and `error` is present.
#[derive(Debug)]
pub struct JsonRpcResponse {
    pub jsonrpc: String,
    pub result: Option<serde_json::Value>,
    pub error: Option<JsonRpcError>,
    pub id: serde_json::Value,
}

/// A JSON-RPC notification sent to the client.
#[derive(Debug)]
pub struct JsonRpcNotification {
    pub jsonrpc: String,
    pub method: String,
    pub params: Option<serde_json::Value>,
}

/// The protocol version every frame carries.
pub open spec fn version() -> Seq<char> {
    "2.0"@
}

/// Whether `r` is an error response to request `id` with code `code`.
pub open spec fn is_error_response(r: JsonRpcResponse, id: serde_json::Value, code: int) -> bool {
    &&& r.jsonrpc@ == version()
    &&& r.id == id
    &&& r.result is None
    &&& r.error matches Some(e) && e.code == code
}

impl JsonRpcResponse {
    /// A successful response to `id`.
    pub fn success(id: serde_json::Value, result: serde_json::Value) -> (r: JsonRpcResponse)
        ensures
            r.jsonrpc@ == version(),
            r.id == id,
            r.result == Some(result),
            r.error is None,
    {
        JsonRpcResponse { jsonrpc: owned("2.0"), result: Some(result), error: None, id }
    }

    /// An error response to `id`.
    pub fn error(id: serde_json::Value, error: JsonRpcError) -> (r: JsonRpcResponse)
        ensures
            r.jsonrpc@ == version(),
            r.id == id,
            r.result is None,
            r.error == Some(error),
    {
        JsonRpcResponse { jsonrpc: owned("2.0"), result: None, error: Some(error), id }
    }
}

impl JsonRpcError {
    /// Parse error (-32700).
    pub fn parse_error(message: &str) -> (r: JsonRpcError)
        ensures
            r.code == -32700,
            r.message@ == message@,
            r.data is None,
    {
        JsonRpcError { code: -32700, message: owned(message), data: None }
    }

    /// Invalid request (-32600).
    pub fn invalid_request(message: &str) -> (r: JsonRpcError)
        ensures
            r.code == -32600,
            r.message@ == message@,
            r.data is None,
    {
        JsonRpcError { code: -32600, message: owned(message), data: None }
    }

    /// Method not found (-32601), naming the method.
    pub fn method_not_found(method: &str) -> (r: JsonRpcError)
        ensures
            r.code == -32601,
            r.message@ == "Method not found: "@ + method@,
            r.data is None,
    {
        JsonRpcError { code: -32601, message: joined("Method not found: ", method), data: None }
    }

    /// Invalid params (-32602).
    pub fn invalid_params(message: &str) -> (r: JsonRpcError)
        ensures
            r.code == -32602,
            r.message@ == message@,
            r.data is None,
    {
        JsonRpcError { code: -32602, message: owned(message), data: None }
    }

    /// Internal error (-32603).
    pub fn internal_error(message: &str) -> (r: JsonRpcError)
        ensures
            r.code == -32603,
            r.message@ == message@,
            r.data is None,
    {
        JsonRpcError { code: -32603, message: owned(message), data: None }
    }

    /// The error object reporting `err`: its protocol code, its message, and
    /// its type token, internal code and retryability as data.
    pub fn from_terminal_error(err: TerminalError) -> (r: JsonRpcError)
        ensures
            r.code == rpc_code(err),
            r.message@ == error_text(err),
            r.data matches Some(d) && d.error_type@ == error_type_name(err) && d.error_code
                == error_code(err) && d.recoverable == recoverable(err),
    {
        let data = ErrorData {
            error_type: owned(err.error_type()),
            error_code: err.code(),
            recoverable: err.is_recoverable(),
        };
        JsonRpcError { code: err.rpc_code(), message: err.message(), data: Some(data) }
    }
}

impl JsonRpcNotification {
    /// A notification `method` carrying `params`.
    pub fn new(method: &str, params: serde_json::Value) -> (r: JsonRpcNotification)
        ensures
            r.jsonrpc@ == version(),
            r.method@ == method@,
            r.params == Some(params),
    {
        JsonRpcNotification { jsonrpc: owned("2.0"), method: owned(method), params: Some(params) }
    }
}

/// The six methods the service answers.
#[derive(Debug, Clone, Copy, PartialEq, Eq, Structural)]
pub enum RpcMethod {
    Create,
    Input,
    Resize,
    Close,
    List,
    Get,
}

/// The method a name denotes, if any.
pub open spec fn method_named(n: Seq<char>) -> Option<RpcMethod> {
    if n == "session.create"@ {
        Some(RpcMethod::Create)
    } else if n == "session.input"@ {
        Some(RpcMethod::Input)
    } else if n == "session.resize"@ {
        Some(RpcMethod::Resize)
    } else if n == "session.close"@ {
        Some(RpcMethod::Close)
    } else if n == "session.list"@ {
        Some(RpcMethod::List)
    } else if n == "session.get"@ {
        Some(RpcMethod::Get)
    } else {
        None
    }
}

impl RpcMethod {
    /// The method a name denotes, if any.
    pub fn from_name(name: &str) -> (r: Option<RpcMethod>)
        ensures
            r == method_named(name@),
    {
        if str_eq(name, "session.create") {
            Some(RpcMethod::Create)
        } else if str_eq(name, "session.input") {
            Some(RpcMethod::Input)
        } else if str_eq(name, "session.resize") {
            Some(RpcMethod::Resize)
        } else if str_eq(name, "session.close") {
            Some(RpcMethod::Close)
        } else if str_eq(name, "session.list") {
            Some(RpcMethod::List)
        } else if str_eq(name, "session.get") {
            Some(RpcMethod::Get)
        } else {
            None
        }
    }

    /// Whether the method needs a params object.
    pub fn needs_params(&self) -> (r: bool)
        ensures
            r == (*self != RpcMethod::List),
    {
        *self != RpcMethod::List
    }
}

/// What the dispatcher does with a request.
pub enum Route {
    /// Answer at once with this response.
    Respond(JsonRpcResponse),
    /// Hand the request to the session registry.
    Dispatch { method: RpcMethod, params: Option<serde_json::Value>, id: serde_json::Value },
}

/// The message given when a method that needs params has none.
pub open spec fn missing_params_message() -> Seq<char> {
    "缺少参数"@
}

/// The message of an error response (empty for a success).
pub open spec fn error_message(r: JsonRpcResponse) -> Seq<char> {
    match r.error {
        Some(e) => e.message@,
        None => Seq::empty(),
    }
}

/// Whether `r` answers at once with an error response of code `code` to `id`.
pub open spec fn answers_error(r: Route, id: serde_json::Value, code: int) -> bool {
    match r {
        Route::Respond(resp) => is_error_response(resp, id, code),
        _ => false,
    }
}

/// The message of an immediate answer.
pub open spec fn answer_message(r: Route) -> Seq<char> {
    match r {
        Route::Respond(resp) => error_message(resp),
        _ => Seq::empty(),
    }
}

/// How a request naming `method` with `params` and `id` is routed.
pub open spec fn routed(method: Seq<char>, params: Option<serde_json::Value>, id: serde_json::Value, r: Route) -> bool {
    match method_named(method) {
        None => answers_error(r, id, -32601) && answer_message(r) == "Method not found: "@ + method,
        Some(m) => if m != RpcMethod::List && params is None {
            answers_error(r, id, -32602) && answer_message(r) == missing_params_message()
        } else {
            r == (Route::Dispatch { method: m, params, id })
        },
    }
}

/// Routes one request: an unknown method is answered with -32601, a method
/// that needs params and has none with -32602, and anything else goes to the
/// registry with its params and id.
pub fn route(method: &str, params: Option<serde_json::Value>, id: serde_json::Value) -> (r: Route)
    ensures
        routed(method@, params, id, r),
{
    match RpcMethod::from_name(method) {
        None => Route::Respond(JsonRpcResponse::error(id, JsonRpcError::method_not_found(method))),
        Some(m) => {
            if m.needs_params() && params.is_none() {
                Route::Respond(JsonRpcResponse::error(id, JsonRpcError::invalid_params("缺少参数")))
            } else {
                Route::Dispatch { method: m, params, id }
            }
        },
    }
}

/// Checks the protocol version of a parsed request and routes it; a version
/// other than "2.0" is answered with -32600 and the client's id.
pub fn handle_request(request: JsonRpcRequest) -> (r: Route)
    ensures
        request.jsonrpc@ != version() ==> answers_error(r, request.id, -32600),
        request.jsonrpc@ == version() ==> routed(request.method@, request.params, request.id, r),
{
    proof {
        reveal_strlit("2.0");
    }
    if !str_eq(request.jsonrpc.as_str(), "2.0") {
        return Route::Respond(
            JsonRpcResponse::error(request.id, JsonRpcError::invalid_request("无效的 JSON-RPC 版本")),
        );
    }
    route(request.method.as_str(), request.params, request.id)
}

/// The response to params that could not be read as the method's request type.
pub fn params_error(id: serde_json::Value, detail: &str) -> (r: JsonRpcResponse)
    ensures
        is_error_response(r, id, -32602),
        error_message(r) == "参数解析错误: "@ + detail@,
{
    JsonRpcResponse::error(id, JsonRpcError::invalid_params(joined("参数解析错误: ", detail).as_str()))
}

/// The response to a request the registry refused with `err`: the error's own
/// protocol code (session-not-found -32001, invalid-params -32602, ...), its
/// message, and its type token, internal code and retryability as data.
pub fn failure_response(id: serde_json::Value, err: TerminalError) -> (r: JsonRpcResponse)
    ensures
        is_error_response(r, id, rpc_code(err)),
        error_message(r) == error_text(err),
        r.error matches Some(e) && e.data matches Some(d) && d.error_type@ == error_type_name(err)
            && d.error_code == error_code(err) && d.recoverable == recoverable(err),
{
    JsonRpcResponse::error(id, JsonRpcError::from_terminal_error(err))
}

/// The response to a line that is not a JSON-RPC request; `id` is the JSON null.
pub fn parse_failure(null_id: serde_json::Value, detail: &str) -> (r: JsonRpcResponse)
    ensures
        is_error_response(r, null_id, -32700),
        error_message(r) == "JSON 解析错误: "@ + detail@,
{
    JsonRpcResponse::error(null_id, JsonRpcError::parse_error(joined("JSON 解析错误: ", detail).as_str()))
}

/// The response to `session.get` for an id the registry does not hold.
pub fn unknown_session_response(id: serde_json::Value, session_id: &str) -> (r: JsonRpcResponse)
    ensures
        is_error_response(r, id, -32602),
        error_message(r) == "会话不存在: "@ + session_id@,
{
    JsonRpcResponse::error(id, JsonRpcError::invalid_params(joined("会话不存在: ", session_id).as_str()))
}

} // verus!
