//! Decisions of the SSH transport: the client configuration a connection
//! descriptor yields, and how each step's outcome is reported.
use vstd::prelude::*;
use crate::error::{ssh_failure_text, SshFailure, TerminalError};
use crate::protocol::opt_view;
use crate::text::{contains_seq, contains_text, decimal, joined, owned};

verus! {

/// How the client proves its identity.
#[derive(Debug, Clone)]
pub enum AuthMethod {
    /// The "none" method.
    NoAuth,
    /// A password.
    Password(String),
    /// A private key file, optionally protected by a passphrase.
    PrivateKey { path: String, passphrase: Option<String> },
}

impl Default for AuthMethod {
    fn default() -> (r: AuthMethod)
        ensures
            r is NoAuth,
    {
        AuthMethod::NoAuth
    }
}

/// Where and as whom to connect.
#[derive(Debug, Clone)]
pub struct SshClientConfig {
    pub host: String,
    pub port: u16,
    pub user: String,
    pub auth_method: AuthMethod,
    /// Seconds.
    pub connect_timeout: u64,
}

impl Default for SshClientConfig {
    /// No host or user yet, port 22, no authentication, 30 s timeout.
    fn default() -> (r: SshClientConfig)
        ensures
            r.host@.len() == 0,
            r.user@.len() == 0,
            r.port == 22,
            r.auth_method is NoAuth,
            r.connect_timeout == 30,
    {
        SshClientConfig {
            host: String::new(),
            port: 22,
            user: String::new(),
            auth_method: AuthMethod::NoAuth,
            connect_timeout: 30,
        }
    }
}

/// Relies on whoami's `username`: the name of the user running the process.
#[verifier::external_body]
fn current_username() -> (r: String) {
    whoami::username()
}

impl SshClientConfig {
    /// The configuration for a descriptor: port 22 unless given, `default_user`
    /// unless a user is given, and key authentication when an identity file is
    /// given, else password authentication when a password is, else none.
    pub fn from_params_with_user(
        host: String,
        port: Option<u16>,
        user: Option<String>,
        identity_file: Option<String>,
        password: Option<String>,
        default_user: String,
    ) -> (r: SshClientConfig)
        ensures
            r.host == host,
            r.port == (match port {
                Some(p) => p,
                None => 22u16,
            }),
            r.user@ == (match user {
                Some(u) => u@,
                None => default_user@,
            }),
            identity_file matches Some(k) ==> (r.auth_method matches AuthMethod::PrivateKey {
                path,
                passphrase,
            } && path@ == k@ && passphrase is None),
            identity_file is None && password is Some ==> (r.auth_method matches AuthMethod::Password(
                w,
            ) && opt_view(password) == Some(w@)),
            identity_file is None && password is None ==> r.auth_method is NoAuth,
            r.connect_timeout == 30,
    {
        let auth_method = match identity_file {
            Some(path) => AuthMethod::PrivateKey { path, passphrase: None },
            None => match password {
                Some(w) => AuthMethod::Password(w),
                None => AuthMethod::NoAuth,
            },
        };
        let port = match port {
            Some(p) => p,
            None => 22,
        };
        let user = match user {
            Some(u) => u,
            None => default_user,
        };
        SshClientConfig { host, port, user, auth_method, connect_timeout: 30 }
    }

    /// As `from_params_with_user`, with the user running the process as the
    /// default user.
    pub fn from_params(
        host: String,
        port: Option<u16>,
        user: Option<String>,
        identity_file: Option<String>,
        password: Option<String>,
    ) -> (r: SshClientConfig)
        ensures
            r.host == host,
            r.port == (match port {
                Some(p) => p,
                None => 22u16,
            }),
            user matches Some(u) ==> r.user@ == u@,
            identity_file is None && password is None ==> r.auth_method is NoAuth,
            identity_file is Some ==> r.auth_method is PrivateKey,
            identity_file is None && password is Some ==> r.auth_method is Password,
    {
        let default_user = match &user {
            Some(_) => String::new(),
            None => current_username(),
        };
        Self::from_params_with_user(host, port, user, identity_file, password, default_user)
    }
}

/// Handles server events during the handshake; records that the host key was seen.
pub struct SshClientHandler {
    pub host_key_verified: bool,
}

impl SshClientHandler {
    pub fn new() -> (r: SshClientHandler)
        ensures
            !r.host_key_verified,
    {
        SshClientHandler { host_key_verified: false }
    }

    /// The host-key policy: every key is accepted (no known-hosts check) and
    /// recorded as seen.
    pub fn check_server_key(&mut self) -> (r: bool)
        ensures
            r,
            final(self).host_key_verified,
    {
        self.host_key_verified = true;
        true
    }
}

impl Default for SshClientHandler {
    fn default() -> (r: SshClientHandler)
        ensures
            !r.host_key_verified,
    {
        SshClientHandler::new()
    }
}

/// What the server answered to an authentication request: accepted or
/// rejected, or the request failed with a message.
pub type AuthReply = Result<bool, String>;

/// The message of a failed authentication with `method`: a rejection, or a
/// request that failed with `detail`.
pub open spec fn auth_failure_text(method: AuthMethod, rejected: bool, detail: Seq<char>) -> Seq<char> {
    let why = if rejected {
        match method {
            AuthMethod::Password(_) => "密码被服务器拒绝"@,
            AuthMethod::PrivateKey { .. } => "私钥被服务器拒绝"@,
            AuthMethod::NoAuth => Seq::empty(),
        }
    } else {
        "认证请求失败: "@ + detail
    };
    match method {
        AuthMethod::Password(_) => "密码"@ + "认证失败: "@ + why,
        AuthMethod::PrivateKey { path, .. } => "私钥认证失败 ("@ + path@ + "): "@ + why,
        AuthMethod::NoAuth => if rejected {
            "服务器要求认证，请提供密码或私钥"@
        } else {
            "none"@ + "认证失败: "@ + why
        },
    }
}

/// The outcome of authenticating with `method` given the server's reply: an
/// accepted request succeeds; a failed request or a rejection is
/// authentication-failed, worded per method.
pub fn auth_outcome(method: &AuthMethod, reply: AuthReply) -> (r: Result<(), TerminalError>)
    ensures
        reply == Ok::<bool, String>(true) ==> r is Ok,
        reply == Ok::<bool, String>(false) ==> (r matches Err(TerminalError::AuthenticationFailed(m))
            && m@ == auth_failure_text(*method, true, Seq::empty())),
        reply matches Err(e) ==> (r matches Err(TerminalError::AuthenticationFailed(m)) && m@
            == auth_failure_text(*method, false, e@)),
{
    match reply {
        Ok(true) => Ok(()),
        Ok(false) => match method {
            AuthMethod::Password(_) => Err(TerminalError::password_auth_failed("密码被服务器拒绝")),
            AuthMethod::PrivateKey { path, .. } => Err(
                TerminalError::key_auth_failed(path.as_str(), "私钥被服务器拒绝"),
            ),
            AuthMethod::NoAuth => Err(
                TerminalError::AuthenticationFailed(owned("服务器要求认证，请提供密码或私钥")),
            ),
        },
        Err(e) => {
            let detail = joined("认证请求失败: ", e.as_str());
            match method {
                AuthMethod::Password(_) => Err(TerminalError::password_auth_failed(detail.as_str())),
                AuthMethod::PrivateKey { path, .. } => Err(
                    TerminalError::key_auth_failed(path.as_str(), detail.as_str()),
                ),
                AuthMethod::NoAuth => Err(TerminalError::auth_failed("none", detail.as_str())),
            }
        },
    }
}

/// The stage of establishing a connection that failed.
#[derive(Debug, Clone, Copy, PartialEq, Eq, Structural)]
pub enum ConnectStage {
    /// The host name did not resolve.
    Resolve,
    /// The host name resolved to no address.
    NoAddress,
    /// The TCP connection failed.
    Tcp,
    /// The SSH handshake failed.
    Handshake,
}

/// The error reporting that `stage` failed for `config` with `detail`.
pub fn connect_failure(config: &SshClientConfig, stage: ConnectStage, detail: &str) -> (r: TerminalError)
    ensures
        stage == ConnectStage::Resolve ==> (r matches TerminalError::HostResolutionFailed(m) && m@
            == "无法解析主机 "@ + config.host@ + ": "@ + detail@),
        stage == ConnectStage::NoAddress ==> (r matches TerminalError::HostResolutionFailed(m) && m@
            == "无法解析主机 "@ + config.host@ + ": "@ + "无法解析为有效地址"@),
        stage == ConnectStage::Tcp ==> (r matches TerminalError::SshConnectionFailed(m) && m@
            == "无法连接到 "@ + config.host@ + ":"@ + decimal(config.port as nat) + " - "@
            + "TCP 连接失败: "@ + detail@),
        stage == ConnectStage::Handshake ==> (r matches TerminalError::SshConnectionFailed(m) && m@
            == "无法连接到 "@ + config.host@ + ":"@ + decimal(config.port as nat) + " - "@
            + "SSH 握手失败: "@ + detail@),
{
    match stage {
        ConnectStage::Resolve => TerminalError::host_resolution_failed(config.host.as_str(), detail),
        ConnectStage::NoAddress => TerminalError::host_resolution_failed(
            config.host.as_str(),
            "无法解析为有效地址",
        ),
        ConnectStage::Tcp => {
            let why = joined("TCP 连接失败: ", detail);
            TerminalError::ssh_connection_failed(config.host.as_str(), config.port, why.as_str())
        },
        ConnectStage::Handshake => {
            let why = joined("SSH 握手失败: ", detail);
            TerminalError::ssh_connection_failed(config.host.as_str(), config.port, why.as_str())
        },
    }
}

/// Whether a failure is a failed algorithm negotiation.
pub open spec fn is_negotiation_failure(f: SshFailure) -> bool {
    f is NoCommonKexAlgo || f is NoCommonCipher || f is NoCommonCompression || f is NoCommonMac
        || f is NoCommonKeyAlgo
}

/// The error for a failed handshake: a failed algorithm negotiation is an
/// ssh-protocol-error naming what could not be agreed; anything else is a
/// connection failure whose reason names the handshake.
pub fn handshake_failure(config: &SshClientConfig, f: SshFailure) -> (r: TerminalError)
    ensures
        is_negotiation_failure(f) ==> (r matches TerminalError::SshError(m) && m@ == ssh_failure_text(f)),
        !is_negotiation_failure(f) ==> (r matches TerminalError::SshConnectionFailed(m) && m@
            == "无法连接到 "@ + config.host@ + ":"@ + decimal(config.port as nat) + " - "@
            + "SSH 握手失败: "@ + "SSH 错误: "@ + ssh_failure_text(f)),
{
    match f {
        SshFailure::NoCommonKexAlgo | SshFailure::NoCommonCipher | SshFailure::NoCommonCompression
        | SshFailure::NoCommonMac | SshFailure::NoCommonKeyAlgo => TerminalError::from_ssh_failure(f),
        _ => {
            let detail = TerminalError::from_ssh_failure(f).message();
            connect_failure(config, ConnectStage::Handshake, detail.as_str())
        },
    }
}

/// The lower-case form of a text, as Unicode defines it.
pub uninterp spec fn lowercase_of(s: Seq<char>) -> Seq<char>;

/// Relies on `str::to_lowercase`: the result depends on the characters alone.
#[verifier::external_body]
fn lowercase(s: &str) -> (r: String)
    ensures
        r@ == lowercase_of(s@),
{
    s.to_lowercase()
}

/// Whether a key-decoding failure says the key needs a passphrase, judged on
/// the lower-cased message.
pub open spec fn mentions_passphrase(lowered: Seq<char>) -> bool {
    contains_seq(lowered, "passphrase"@) || contains_seq(lowered, "encrypted"@)
}

/// The error for a key file at `path` that could not be decoded, given the
/// decoder's message and its lower-cased form: with a passphrase given, the
/// passphrase may be wrong; without one, a message about passphrases or
/// encryption means one is required.
pub fn key_decode_failure_lowered(path: &str, had_passphrase: bool, detail: &str, lowered: &str) -> (r:
    TerminalError)
    ensures
        had_passphrase ==> (r matches TerminalError::PrivateKeyLoadFailed(m) && m@ == "无法加载私钥 "@
            + path@ + ": "@ + "解析失败（密码可能错误）: "@ + detail@),
        !had_passphrase && mentions_passphrase(lowered@) ==> (r matches TerminalError::PrivateKeyLoadFailed(
            m,
        ) && m@ == "无法加载私钥 "@ + path@ + ": "@ + "私钥已加密，需要提供密码"@),
        !had_passphrase && !mentions_passphrase(lowered@) ==> (r matches TerminalError::PrivateKeyLoadFailed(
            m,
        ) && m@ == "无法加载私钥 "@ + path@ + ": "@ + "解析失败: "@ + detail@),
{
    if had_passphrase {
        let why = joined("解析失败（密码可能错误）: ", detail);
        TerminalError::key_load_failed(path, why.as_str())
    } else if contains_text(lowered, "passphrase") || contains_text(lowered, "encrypted") {
        TerminalError::key_load_failed(path, "私钥已加密，需要提供密码")
    } else {
        let why = joined("解析失败: ", detail);
        TerminalError::key_load_failed(path, why.as_str())
    }
}

/// The error for a key file at `path` that could not be decoded with the
/// decoder's message `detail`.
pub fn key_decode_failure(path: &str, had_passphrase: bool, detail: &str) -> (r: TerminalError)
    ensures
        had_passphrase ==> (r matches TerminalError::PrivateKeyLoadFailed(m) && m@ == "无法加载私钥 "@
            + path@ + ": "@ + "解析失败（密码可能错误）: "@ + detail@),
        !had_passphrase && mentions_passphrase(lowercase_of(detail@)) ==> (r matches TerminalError::PrivateKeyLoadFailed(
            m,
        ) && m@ == "无法加载私钥 "@ + path@ + ": "@ + "私钥已加密，需要提供密码"@),
        !had_passphrase && !mentions_passphrase(lowercase_of(detail@)) ==> (r matches TerminalError::PrivateKeyLoadFailed(
            m,
        ) && m@ == "无法加载私钥 "@ + path@ + ": "@ + "解析失败: "@ + detail@),
{
    let lowered = lowercase(detail);
    key_decode_failure_lowered(path, had_passphrase, detail, lowered.as_str())
}

/// Relies on dirs' `home_dir`: the home directory of the user running the
/// process, when one is known.
#[verifier::external_body]
fn home_directory() -> (r: Option<String>) {
    dirs::home_dir().map(|p| p.to_string_lossy().into_owned())
}

/// `path` with a leading `~/` replaced by `home` followed by `/`; any other
/// path, or no home, leaves it unchanged.
pub fn expand_tilde_with(path: &str, home: Option<String>) -> (r: String)
    ensures
        (path@.len() >= 2 && path@[0] == '~' && path@[1] == '/' && home is Some) ==> r@ == opt_view(
            home,
        )->0 + path@.skip(1),
        !(path@.len() >= 2 && path@[0] == '~' && path@[1] == '/' && home is Some) ==> r@ == path@,
{
    let chars = crate::text::chars_of(path);
    if chars.len() >= 2 && chars[0] == '~' && chars[1] == '/' {
        if let Some(h) = home {
            let mut r = h;
            let rest = crate::text::string_of_range(&chars, 1, chars.len());
            r.append(rest.as_str());
            assert(chars@.subrange(1, chars@.len() as int) =~= path@.skip(1));
            return r;
        }
    }
    owned(path)
}

/// `path` with a leading `~/` replaced by the home directory, when known.
pub fn expand_tilde(path: &str) -> (r: String)
    ensures
        !(path@.len() >= 2 && path@[0] == '~' && path@[1] == '/') ==> r@ == path@,
        (path@.len() >= 2 && path@[0] == '~' && path@[1] == '/') ==> (r@ == path@ || exists|
            h: Seq<char>,
        | r@ == h + path@.skip(1)),
{
    expand_tilde_with(path, home_directory())
}

} // verus!
