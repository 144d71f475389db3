//! Error taxonomy of the terminal service and its numeric codes.
use vstd::prelude::*;
use crate::protocol::opt_view;
use crate::text::{decimal, decimal_string, joined, owned};

verus! {

/// Every failure the service reports; each variant carries a human-readable detail.
#[derive(Debug, Clone, PartialEq, Eq)]
pub enum TerminalError {
    PtyCreationFailed(String),
    SshConnectionFailed(String),
    SessionNotFound(String),
    InvalidRequest(String),
    IoError(String),
    SerializationError(String),
    AuthenticationFailed(String),
    ConnectionTimeout(String),
    SessionClosed(String),
    SshError(String),
    ChannelError(String),
    HostResolutionFailed(String),
    PrivateKeyLoadFailed(String),
}

/// The internal numeric code of each variant.
pub open spec fn error_code(e: TerminalError) -> i32 {
    match e {
        TerminalError::PtyCreationFailed(_) => 1001,
        TerminalError::SshConnectionFailed(_) => 1002,
        TerminalError::SessionNotFound(_) => 1003,
        TerminalError::InvalidRequest(_) => 1004,
        TerminalError::IoError(_) => 1005,
        TerminalError::SerializationError(_) => 1006,
        TerminalError::AuthenticationFailed(_) => 1007,
        TerminalError::ConnectionTimeout(_) => 1008,
        TerminalError::SessionClosed(_) => 1009,
        TerminalError::SshError(_) => 1010,
        TerminalError::ChannelError(_) => 1011,
        TerminalError::HostResolutionFailed(_) => 1012,
        TerminalError::PrivateKeyLoadFailed(_) => 1013,
    }
}

/// The stable ASCII token naming each variant.
pub open spec fn error_type_name(e: TerminalError) -> Seq<char> {
    match e {
        TerminalError::PtyCreationFailed(_) => "pty_creation_failed"@,
        TerminalError::SshConnectionFailed(_) => "ssh_connection_failed"@,
        TerminalError::SessionNotFound(_) => "session_not_found"@,
        TerminalError::InvalidRequest(_) => "invalid_request"@,
        TerminalError::IoError(_) => "io_error"@,
        TerminalError::SerializationError(_) => "serialization_error"@,
        TerminalError::AuthenticationFailed(_) => "authentication_failed"@,
        TerminalError::ConnectionTimeout(_) => "connection_timeout"@,
        TerminalError::SessionClosed(_) => "session_closed"@,
        TerminalError::SshError(_) => "ssh_error"@,
        TerminalError::ChannelError(_) => "channel_error"@,
        TerminalError::HostResolutionFailed(_) => "host_resolution_failed"@,
        TerminalError::PrivateKeyLoadFailed(_) => "private_key_load_failed"@,
    }
}

/// The JSON-RPC error code a failure is reported with.
pub open spec fn rpc_code(e: TerminalError) -> int {
    match e {
        TerminalError::SessionNotFound(_) => -32001,
        TerminalError::InvalidRequest(_) => -32602,
        TerminalError::SerializationError(_) => -32700,
        TerminalError::PtyCreationFailed(_) => -32010,
        TerminalError::SshConnectionFailed(_) => -32020,
        TerminalError::AuthenticationFailed(_) => -32021,
        TerminalError::ConnectionTimeout(_) => -32022,
        TerminalError::HostResolutionFailed(_) => -32023,
        TerminalError::PrivateKeyLoadFailed(_) => -32024,
        TerminalError::SshError(_) => -32025,
        TerminalError::ChannelError(_) => -32026,
        TerminalError::SessionClosed(_) => -32002,
        TerminalError::IoError(_) => -32603,
    }
}

/// Failures a client may retry without changing anything.
pub open spec fn recoverable(e: TerminalError) -> bool {
    e is ConnectionTimeout || e is HostResolutionFailed || e is AuthenticationFailed
}

/// The fixed text that opens the message of each variant.
pub open spec fn error_prefix(e: TerminalError) -> Seq<char> {
    match e {
        TerminalError::PtyCreationFailed(_) => "PTY 创建失败: "@,
        TerminalError::SshConnectionFailed(_) => "SSH 连接失败: "@,
        TerminalError::SessionNotFound(_) => "会话不存在: "@,
        TerminalError::InvalidRequest(_) => "无效的请求: "@,
        TerminalError::IoError(_) => "IO 错误: "@,
        TerminalError::SerializationError(_) => "序列化错误: "@,
        TerminalError::AuthenticationFailed(_) => "认证失败: "@,
        TerminalError::ConnectionTimeout(_) => "连接超时: "@,
        TerminalError::SessionClosed(_) => "会话已关闭: "@,
        TerminalError::SshError(_) => "SSH 错误: "@,
        TerminalError::ChannelError(_) => "通道错误: "@,
        TerminalError::HostResolutionFailed(_) => "主机解析失败: "@,
        TerminalError::PrivateKeyLoadFailed(_) => "私钥加载失败: "@,
    }
}

/// The detail a variant carries.
pub open spec fn error_detail(e: TerminalError) -> Seq<char> {
    match e {
        TerminalError::PtyCreationFailed(s) => s@,
        TerminalError::SshConnectionFailed(s) => s@,
        TerminalError::SessionNotFound(s) => s@,
        TerminalError::InvalidRequest(s) => s@,
        TerminalError::IoError(s) => s@,
        TerminalError::SerializationError(s) => s@,
        TerminalError::AuthenticationFailed(s) => s@,
        TerminalError::ConnectionTimeout(s) => s@,
        TerminalError::SessionClosed(s) => s@,
        TerminalError::SshError(s) => s@,
        TerminalError::ChannelError(s) => s@,
        TerminalError::HostResolutionFailed(s) => s@,
        TerminalError::PrivateKeyLoadFailed(s) => s@,
    }
}

/// The full human-readable message of an error.
pub open spec fn error_text(e: TerminalError) -> Seq<char> {
    error_prefix(e) + error_detail(e)
}

/// Every error message is non-empty: each variant's prefix is.
pub proof fn lemma_error_text_not_empty(e: TerminalError)
    ensures
        error_text(e).len() > 0,
{
    reveal_strlit("PTY 创建失败: ");
    reveal_strlit("SSH 连接失败: ");
    reveal_strlit("会话不存在: ");
    reveal_strlit("无效的请求: ");
    reveal_strlit("IO 错误: ");
    reveal_strlit("序列化错误: ");
    reveal_strlit("认证失败: ");
    reveal_strlit("连接超时: ");
    reveal_strlit("会话已关闭: ");
    reveal_strlit("SSH 错误: ");
    reveal_strlit("通道错误: ");
    reveal_strlit("主机解析失败: ");
    reveal_strlit("私钥加载失败: ");
}

impl TerminalError {
    /// Internal numeric code.
    pub fn code(&self) -> (r: i32)
        ensures
            r == error_code(*self),
    {
        match self {
            TerminalError::PtyCreationFailed(_) => 1001,
            TerminalError::SshConnectionFailed(_) => 1002,
            TerminalError::SessionNotFound(_) => 1003,
            TerminalError::InvalidRequest(_) => 1004,
            TerminalError::IoError(_) => 1005,
            TerminalError::SerializationError(_) => 1006,
            TerminalError::AuthenticationFailed(_) => 1007,
            TerminalError::ConnectionTimeout(_) => 1008,
            TerminalError::SessionClosed(_) => 1009,
            TerminalError::SshError(_) => 1010,
            TerminalError::ChannelError(_) => 1011,
            TerminalError::HostResolutionFailed(_) => 1012,
            TerminalError::PrivateKeyLoadFailed(_) => 1013,
        }
    }

    /// Stable token naming the kind of failure.
    pub fn error_type(&self) -> (r: &'static str)
        ensures
            r@ == error_type_name(*self),
    {
        match self {
            TerminalError::PtyCreationFailed(_) => "pty_creation_failed",
            TerminalError::SshConnectionFailed(_) => "ssh_connection_failed",
            TerminalError::SessionNotFound(_) => "session_not_found",
            TerminalError::InvalidRequest(_) => "invalid_request",
            TerminalError::IoError(_) => "io_error",
            TerminalError::SerializationError(_) => "serialization_error",
            TerminalError::AuthenticationFailed(_) => "authentication_failed",
            TerminalError::ConnectionTimeout(_) => "connection_timeout",
            TerminalError::SessionClosed(_) => "session_closed",
            TerminalError::SshError(_) => "ssh_error",
            TerminalError::ChannelError(_) => "channel_error",
            TerminalError::HostResolutionFailed(_) => "host_resolution_failed",
            TerminalError::PrivateKeyLoadFailed(_) => "private_key_load_failed",
        }
    }

    /// JSON-RPC error code of this failure.
    pub fn rpc_code(&self) -> (r: i32)
        ensures
            r == rpc_code(*self),
    {
        match self {
            TerminalError::SessionNotFound(_) => -32001,
            TerminalError::InvalidRequest(_) => -32602,
            TerminalError::SerializationError(_) => -32700,
            TerminalError::PtyCreationFailed(_) => -32010,
            TerminalError::SshConnectionFailed(_) => -32020,
            TerminalError::AuthenticationFailed(_) => -32021,
            TerminalError::ConnectionTimeout(_) => -32022,
            TerminalError::HostResolutionFailed(_) => -32023,
            TerminalError::PrivateKeyLoadFailed(_) => -32024,
            TerminalError::SshError(_) => -32025,
            TerminalError::ChannelError(_) => -32026,
            TerminalError::SessionClosed(_) => -32002,
            TerminalError::IoError(_) => -32603,
        }
    }

    /// Whether a retry may succeed: timeouts, host resolution and authentication.
    pub fn is_recoverable(&self) -> (r: bool)
        ensures
            r == recoverable(*self),
    {
        match self {
            TerminalError::ConnectionTimeout(_)
            | TerminalError::HostResolutionFailed(_)
            | TerminalError::AuthenticationFailed(_) => true,
            _ => false,
        }
    }

    /// Whether the failure concerns credentials.
    pub fn is_auth_error(&self) -> (r: bool)
        ensures
            r == (*self is AuthenticationFailed || *self is PrivateKeyLoadFailed),
    {
        match self {
            TerminalError::AuthenticationFailed(_) | TerminalError::PrivateKeyLoadFailed(_) => true,
            _ => false,
        }
    }

    /// Whether the failure concerns reaching the remote host.
    pub fn is_connection_error(&self) -> (r: bool)
        ensures
            r == (*self is SshConnectionFailed || *self is ConnectionTimeout
                || *self is HostResolutionFailed || *self is SshError),
    {
        match self {
            TerminalError::SshConnectionFailed(_)
            | TerminalError::ConnectionTimeout(_)
            | TerminalError::HostResolutionFailed(_)
            | TerminalError::SshError(_) => true,
            _ => false,
        }
    }

    /// The full human-readable message; never empty.
    pub fn message(&self) -> (r: String)
        ensures
            r@ == error_text(*self),
            r@.len() > 0,
    {
        proof {
            lemma_error_text_not_empty(*self);
        }
        match self {
            TerminalError::PtyCreationFailed(s) => joined("PTY 创建失败: ", s.as_str()),
            TerminalError::SshConnectionFailed(s) => joined("SSH 连接失败: ", s.as_str()),
            TerminalError::SessionNotFound(s) => joined("会话不存在: ", s.as_str()),
            TerminalError::InvalidRequest(s) => joined("无效的请求: ", s.as_str()),
            TerminalError::IoError(s) => joined("IO 错误: ", s.as_str()),
            TerminalError::SerializationError(s) => joined("序列化错误: ", s.as_str()),
            TerminalError::AuthenticationFailed(s) => joined("认证失败: ", s.as_str()),
            TerminalError::ConnectionTimeout(s) => joined("连接超时: ", s.as_str()),
            TerminalError::SessionClosed(s) => joined("会话已关闭: ", s.as_str()),
            TerminalError::SshError(s) => joined("SSH 错误: ", s.as_str()),
            TerminalError::ChannelError(s) => joined("通道错误: ", s.as_str()),
            TerminalError::HostResolutionFailed(s) => joined("主机解析失败: ", s.as_str()),
            TerminalError::PrivateKeyLoadFailed(s) => joined("私钥加载失败: ", s.as_str()),
        }
    }

    /// Connection failure naming the endpoint: `无法连接到 host:port - reason`.
    pub fn ssh_connection_failed(host: &str, port: u16, reason: &str) -> (r: TerminalError)
        ensures
            r matches TerminalError::SshConnectionFailed(m) && m@ == "无法连接到 "@ + host@ + ":"@
                + decimal(port as nat) + " - "@ + reason@,
    {
        let mut m = joined("无法连接到 ", host);
        m.append(":");
        m.append(decimal_string(port as u64).as_str());
        m.append(" - ");
        m.append(reason);
        TerminalError::SshConnectionFailed(m)
    }

    /// Authentication failure naming the method: `{method}认证失败: reason`.
    pub fn auth_failed(method: &str, reason: &str) -> (r: TerminalError)
        ensures
            r matches TerminalError::AuthenticationFailed(m) && m@ == method@ + "认证失败: "@ + reason@,
    {
        let mut m = joined(method, "认证失败: ");
        m.append(reason);
        TerminalError::AuthenticationFailed(m)
    }

    /// Password authentication failure.
    pub fn password_auth_failed(reason: &str) -> (r: TerminalError)
        ensures
            r matches TerminalError::AuthenticationFailed(m) && m@ == "密码"@ + "认证失败: "@ + reason@,
    {
        Self::auth_failed("密码", reason)
    }

    /// Public-key authentication failure naming the key file.
    pub fn key_auth_failed(key_path: &str, reason: &str) -> (r: TerminalError)
        ensures
            r matches TerminalError::AuthenticationFailed(m) && m@ == "私钥认证失败 ("@ + key_path@
                + "): "@ + reason@,
    {
        let mut m = joined("私钥认证失败 (", key_path);
        m.append("): ");
        m.append(reason);
        TerminalError::AuthenticationFailed(m)
    }

    /// Key file that could not be loaded.
    pub fn key_load_failed(key_path: &str, reason: &str) -> (r: TerminalError)
        ensures
            r matches TerminalError::PrivateKeyLoadFailed(m) && m@ == "无法加载私钥 "@ + key_path@
                + ": "@ + reason@,
    {
        let mut m = joined("无法加载私钥 ", key_path);
        m.append(": ");
        m.append(reason);
        TerminalError::PrivateKeyLoadFailed(m)
    }

    /// Host name that could not be resolved.
    pub fn host_resolution_failed(host: &str, reason: &str) -> (r: TerminalError)
        ensures
            r matches TerminalError::HostResolutionFailed(m) && m@ == "无法解析主机 "@ + host@
                + ": "@ + reason@,
    {
        let mut m = joined("无法解析主机 ", host);
        m.append(": ");
        m.append(reason);
        TerminalError::HostResolutionFailed(m)
    }

    /// Connection attempt that ran out of time: `连接 host:port 超时 (N秒)`.
    pub fn connection_timeout(host: &str, port: u16, timeout_secs: u64) -> (r: TerminalError)
        ensures
            r matches TerminalError::ConnectionTimeout(m) && m@ == "连接 "@ + host@ + ":"@
                + decimal(port as nat) + " 超时 ("@ + decimal(timeout_secs as nat) + "秒)"@,
    {
        let mut m = joined("连接 ", host);
        m.append(":");
        m.append(decimal_string(port as u64).as_str());
        m.append(" 超时 (");
        m.append(decimal_string(timeout_secs).as_str());
        m.append("秒)");
        TerminalError::ConnectionTimeout(m)
    }

    /// Channel operation that failed: `{operation} 失败: reason`.
    pub fn channel_error(operation: &str, reason: &str) -> (r: TerminalError)
        ensures
            r matches TerminalError::ChannelError(m) && m@ == operation@ + " 失败: "@ + reason@,
    {
        let mut m = joined(operation, " 失败: ");
        m.append(reason);
        TerminalError::ChannelError(m)
    }

    /// Session that was closed underneath an operation.
    pub fn session_closed(session_id: &str, reason: &str) -> (r: TerminalError)
        ensures
            r matches TerminalError::SessionClosed(m) && m@ == "会话 "@ + session_id@ + " 已关闭: "@
                + reason@,
    {
        let mut m = joined("会话 ", session_id);
        m.append(" 已关闭: ");
        m.append(reason);
        TerminalError::SessionClosed(m)
    }
}

/// The kinds of SSH protocol failure the service tells apart.
#[derive(Debug, Clone, PartialEq, Eq)]
pub enum SshFailure {
    Disconnect,
    NoCommonKexAlgo,
    NoCommonCipher,
    NoCommonCompression,
    NoCommonMac,
    NoCommonKeyAlgo,
    /// Any other failure, with its own description.
    Other(String),
}

/// The message reporting an SSH protocol failure.
pub open spec fn ssh_failure_text(f: SshFailure) -> Seq<char> {
    match f {
        SshFailure::Disconnect => "服务器断开连接"@,
        SshFailure::NoCommonKexAlgo => "无法协商密钥交换算法"@,
        SshFailure::NoCommonCipher => "无法协商加密算法"@,
        SshFailure::NoCommonCompression => "无法协商压缩算法"@,
        SshFailure::NoCommonMac => "无法协商 MAC 算法"@,
        SshFailure::NoCommonKeyAlgo => "无法协商密钥算法"@,
        SshFailure::Other(s) => s@,
    }
}

impl TerminalError {
    /// The ssh-protocol-error reporting `f`, with a distinct message for each
    /// failed algorithm negotiation.
    pub fn from_ssh_failure(f: SshFailure) -> (r: TerminalError)
        ensures
            r matches TerminalError::SshError(m) && m@ == ssh_failure_text(f),
    {
        let m = match f {
            SshFailure::Disconnect => owned("服务器断开连接"),
            SshFailure::NoCommonKexAlgo => owned("无法协商密钥交换算法"),
            SshFailure::NoCommonCipher => owned("无法协商加密算法"),
            SshFailure::NoCommonCompression => owned("无法协商压缩算法"),
            SshFailure::NoCommonMac => owned("无法协商 MAC 算法"),
            SshFailure::NoCommonKeyAlgo => owned("无法协商密钥算法"),
            SshFailure::Other(s) => s,
        };
        TerminalError::SshError(m)
    }
}

/// Details of a failed SSH connection, for logs and error messages.
#[derive(Debug, Clone)]
pub struct SshErrorDetails {
    pub host: String,
    pub port: u16,
    pub user: Option<String>,
    pub auth_method: Option<String>,
    pub message: String,
    pub cause: Option<String>,
}

/// `text` followed by `pre`, `x` and `post` when `x` is present.
pub open spec fn with_part(text: Seq<char>, pre: Seq<char>, x: Option<Seq<char>>, post: Seq<char>) -> Seq<char> {
    match x {
        Some(v) => text + pre + v + post,
        None => text,
    }
}

/// The message of the error the details become:
/// `[user@]host:port - message[ (认证方式: auth)][ [原因: cause]]`.
pub open spec fn details_error_text(d: SshErrorDetails) -> Seq<char> {
    let endpoint = d.host@ + ":"@ + decimal(d.port as nat);
    let who = match opt_view(d.user) {
        Some(u) => u + "@"@ + endpoint,
        None => endpoint,
    };
    with_part(
        with_part(who + " - "@ + d.message@, " (认证方式: "@, opt_view(d.auth_method), ")"@),
        " [原因: "@,
        opt_view(d.cause),
        "]"@,
    )
}

/// The one-line description: `host:port - message[ (user: user)][ [cause]]`.
pub open spec fn details_text(d: SshErrorDetails) -> Seq<char> {
    with_part(
        with_part(d.host@ + ":"@ + decimal(d.port as nat) + " - "@ + d.message@, " (user: "@, opt_view(d.user), ")"@),
        " ["@,
        opt_view(d.cause),
        "]"@,
    )
}

/// Appends `pre`, `x` and `post` to `text` when `x` is present.
fn append_part(text: &mut String, pre: &str, x: &Option<String>, post: &str)
    ensures
        final(text)@ == with_part(old(text)@, pre@, opt_view(*x), post@),
{
    if let Some(v) = x {
        text.append(pre);
        text.append(v.as_str());
        text.append(post);
    }
}

impl SshErrorDetails {
    pub fn new(host: &str, port: u16, message: &str) -> (r: SshErrorDetails)
        ensures
            r.host@ == host@,
            r.port == port,
            r.user is None,
            r.auth_method is None,
            r.message@ == message@,
            r.cause is None,
    {
        SshErrorDetails {
            host: owned(host),
            port,
            user: None,
            auth_method: None,
            message: owned(message),
            cause: None,
        }
    }

    pub fn with_user(self, user: &str) -> (r: SshErrorDetails)
        ensures
            r == (SshErrorDetails { user: r.user, ..self }),
            opt_view(r.user) == Some(user@),
    {
        SshErrorDetails { user: Some(owned(user)), ..self }
    }

    pub fn with_auth_method(self, method: &str) -> (r: SshErrorDetails)
        ensures
            r == (SshErrorDetails { auth_method: r.auth_method, ..self }),
            opt_view(r.auth_method) == Some(method@),
    {
        SshErrorDetails { auth_method: Some(owned(method)), ..self }
    }

    pub fn with_cause(self, cause: &str) -> (r: SshErrorDetails)
        ensures
            r == (SshErrorDetails { cause: r.cause, ..self }),
            opt_view(r.cause) == Some(cause@),
    {
        SshErrorDetails { cause: Some(owned(cause)), ..self }
    }

    /// The connection failure these details describe.
    pub fn into_error(self) -> (r: TerminalError)
        ensures
            r matches TerminalError::SshConnectionFailed(m) && m@ == details_error_text(self),
    {
        let mut endpoint = joined(self.host.as_str(), ":");
        endpoint.append(decimal_string(self.port as u64).as_str());
        let mut msg = match &self.user {
            Some(u) => {
                let mut w = joined(u.as_str(), "@");
                w.append(endpoint.as_str());
                w
            },
            None => endpoint,
        };
        msg.append(" - ");
        msg.append(self.message.as_str());
        append_part(&mut msg, " (认证方式: ", &self.auth_method, ")");
        append_part(&mut msg, " [原因: ", &self.cause, "]");
        TerminalError::SshConnectionFailed(msg)
    }

    /// The one-line description of these details.
    pub fn describe(&self) -> (r: String)
        ensures
            r@ == details_text(*self),
    {
        let mut msg = joined(self.host.as_str(), ":");
        msg.append(decimal_string(self.port as u64).as_str());
        msg.append(" - ");
        msg.append(self.message.as_str());
        append_part(&mut msg, " (user: ", &self.user, ")");
        append_part(&mut msg, " [", &self.cause, "]");
        msg
    }
}

} // verus!
