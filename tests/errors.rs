use terminal_plugin::error::{SshErrorDetails, TerminalError};
use terminal_plugin::protocol::JsonRpcError;

#[test]
fn test_error_display() {
    let err = TerminalError::SessionNotFound("test-id".to_string());
    assert_eq!(err.message(), "会话不存在: test-id");
}

#[test]
fn test_error_codes() {
    assert_eq!(TerminalError::PtyCreationFailed("".to_string()).code(), 1001);
    assert_eq!(TerminalError::SshConnectionFailed("".to_string()).code(), 1002);
    assert_eq!(TerminalError::SessionNotFound("".to_string()).code(), 1003);
    assert_eq!(TerminalError::AuthenticationFailed("".to_string()).code(), 1007);
    assert_eq!(TerminalError::ChannelError("".to_string()).code(), 1011);
}

#[test]
fn test_error_types() {
    assert_eq!(
        TerminalError::SshConnectionFailed("".to_string()).error_type(),
        "ssh_connection_failed"
    );
    assert_eq!(
        TerminalError::AuthenticationFailed("".to_string()).error_type(),
        "authentication_failed"
    );
}

#[test]
fn test_is_recoverable() {
    assert!(TerminalError::ConnectionTimeout("".to_string()).is_recoverable());
    assert!(TerminalError::AuthenticationFailed("".to_string()).is_recoverable());
    assert!(!TerminalError::SessionNotFound("".to_string()).is_recoverable());
}

#[test]
fn test_is_auth_error() {
    assert!(TerminalError::AuthenticationFailed("".to_string()).is_auth_error());
    assert!(TerminalError::PrivateKeyLoadFailed("".to_string()).is_auth_error());
    assert!(!TerminalError::SshConnectionFailed("".to_string()).is_auth_error());
}

#[test]
fn test_is_connection_error() {
    assert!(TerminalError::SshConnectionFailed("".to_string()).is_connection_error());
    assert!(TerminalError::ConnectionTimeout("".to_string()).is_connection_error());
    assert!(!TerminalError::AuthenticationFailed("".to_string()).is_connection_error());
}

#[test]
fn test_ssh_connection_failed_helper() {
    let err = TerminalError::ssh_connection_failed("example.com", 22, "连接被拒绝");
    assert!(err.message().contains("example.com"));
    assert!(err.message().contains("22"));
    assert!(err.message().contains("连接被拒绝"));
}

#[test]
fn test_auth_failed_helper() {
    let err = TerminalError::password_auth_failed("密码错误");
    assert!(err.message().contains("密码"));
    assert!(err.message().contains("密码错误"));
}

#[test]
fn test_key_auth_failed_helper() {
    let err = TerminalError::key_auth_failed("/path/to/key", "密钥格式无效");
    assert!(err.message().contains("/path/to/key"));
    assert!(err.message().contains("密钥格式无效"));
}

#[test]
fn test_connection_timeout_helper() {
    let err = TerminalError::connection_timeout("example.com", 22, 30);
    assert!(err.message().contains("example.com"));
    assert!(err.message().contains("30"));
}

#[test]
fn test_ssh_error_details() {
    let details = SshErrorDetails::new("example.com", 22, "连接失败")
        .with_user("root")
        .with_auth_method("password")
        .with_cause("Connection refused");
    let err = details.into_error();
    let msg = err.message();
    assert!(msg.contains("example.com"));
    assert!(msg.contains("22"));
    assert!(msg.contains("root"));
    assert!(msg.contains("password"));
    assert!(msg.contains("Connection refused"));
}

#[test]
fn test_ssh_error_details_display() {
    let details = SshErrorDetails::new("example.com", 22, "连接失败")
        .with_user("root")
        .with_cause("timeout");
    let display = details.describe();
    assert!(display.contains("example.com:22"));
    assert!(display.contains("root"));
    assert!(display.contains("timeout"));
}

#[test]
fn test_terminal_error_to_json_rpc_error() {
    let err = TerminalError::SessionNotFound("test-id".to_string());
    let rpc_err = JsonRpcError::from_terminal_error(err);
    assert_eq!(rpc_err.code, -32001);
    assert!(rpc_err.message.contains("test-id"));
    assert!(rpc_err.data.is_some());

    let rpc_err = JsonRpcError::from_terminal_error(TerminalError::InvalidRequest("bad params".to_string()));
    assert_eq!(rpc_err.code, -32602);

    let rpc_err = JsonRpcError::from_terminal_error(TerminalError::PtyCreationFailed("no pty".to_string()));
    assert_eq!(rpc_err.code, -32010);

    let rpc_err = JsonRpcError::from_terminal_error(TerminalError::SshConnectionFailed(
        "connection refused".to_string(),
    ));
    assert_eq!(rpc_err.code, -32020);

    let rpc_err = JsonRpcError::from_terminal_error(TerminalError::AuthenticationFailed(
        "wrong password".to_string(),
    ));
    assert_eq!(rpc_err.code, -32021);
    let data = rpc_err.data.unwrap();
    assert_eq!(data.error_type, "authentication_failed");
    assert_eq!(data.recoverable, true);
}

#[test]
fn test_json_rpc_error_data_contains_metadata() {
    let err = TerminalError::ConnectionTimeout("10s".to_string());
    let rpc_err = JsonRpcError::from_terminal_error(err);
    let data = rpc_err.data.unwrap();
    assert_eq!(data.error_type, "connection_timeout");
    assert_eq!(data.error_code, 1008);
    assert_eq!(data.recoverable, true);
}

#[test]
fn every_variant_has_its_codes() {
    let cases: Vec<(TerminalError, i32, i32, &str)> = vec![
        (TerminalError::PtyCreationFailed("d".into()), 1001, -32010, "pty_creation_failed"),
        (TerminalError::SshConnectionFailed("d".into()), 1002, -32020, "ssh_connection_failed"),
        (TerminalError::SessionNotFound("d".into()), 1003, -32001, "session_not_found"),
        (TerminalError::InvalidRequest("d".into()), 1004, -32602, "invalid_request"),
        (TerminalError::IoError("d".into()), 1005, -32603, "io_error"),
        (TerminalError::SerializationError("d".into()), 1006, -32700, "serialization_error"),
        (TerminalError::AuthenticationFailed("d".into()), 1007, -32021, "authentication_failed"),
        (TerminalError::ConnectionTimeout("d".into()), 1008, -32022, "connection_timeout"),
        (TerminalError::SessionClosed("d".into()), 1009, -32002, "session_closed"),
        (TerminalError::SshError("d".into()), 1010, -32025, "ssh_error"),
        (TerminalError::ChannelError("d".into()), 1011, -32026, "channel_error"),
        (TerminalError::HostResolutionFailed("d".into()), 1012, -32023, "host_resolution_failed"),
        (TerminalError::PrivateKeyLoadFailed("d".into()), 1013, -32024, "private_key_load_failed"),
    ];
    for (err, code, rpc, token) in cases {
        assert_eq!(err.code(), code);
        assert_eq!(err.rpc_code(), rpc);
        assert_eq!(err.error_type(), token);
    }
}

#[test]
fn helper_messages_are_exact() {
    assert_eq!(
        TerminalError::ssh_connection_failed("h", 2222, "r").message(),
        "SSH 连接失败: 无法连接到 h:2222 - r"
    );
    assert_eq!(
        TerminalError::connection_timeout("h", 22, 30),
        TerminalError::ConnectionTimeout("连接 h:22 超时 (30秒)".to_string())
    );
    assert_eq!(
        TerminalError::channel_error("打开会话通道", "x"),
        TerminalError::ChannelError("打开会话通道 失败: x".to_string())
    );
    assert_eq!(
        TerminalError::session_closed("id", "bye"),
        TerminalError::SessionClosed("会话 id 已关闭: bye".to_string())
    );
    assert_eq!(
        TerminalError::host_resolution_failed("h", "nx"),
        TerminalError::HostResolutionFailed("无法解析主机 h: nx".to_string())
    );
    assert_eq!(
        TerminalError::key_load_failed("/k", "bad"),
        TerminalError::PrivateKeyLoadFailed("无法加载私钥 /k: bad".to_string())
    );
    assert_eq!(
        TerminalError::auth_failed("none", "x"),
        TerminalError::AuthenticationFailed("none认证失败: x".to_string())
    );
}

#[test]
fn details_render_every_part() {
    let err = SshErrorDetails::new("example.com", 22, "连接失败")
        .with_user("root")
        .with_auth_method("password")
        .with_cause("Connection refused")
        .into_error();
    assert_eq!(
        err,
        TerminalError::SshConnectionFailed(
            "root@example.com:22 - 连接失败 (认证方式: password) [原因: Connection refused]".to_string()
        )
    );
    let plain = SshErrorDetails::new("h", 1, "m");
    assert_eq!(plain.describe(), "h:1 - m");
    assert_eq!(plain.into_error(), TerminalError::SshConnectionFailed("h:1 - m".to_string()));
}
