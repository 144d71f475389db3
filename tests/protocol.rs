use serde_json::Value;
use terminal_plugin::error::TerminalError;
use terminal_plugin::protocol::{
    failure_response, handle_request, params_error, parse_failure, route, ConnectionType,
    JsonRpcError, JsonRpcRequest, JsonRpcResponse, Route, RpcMethod, TermSize,
};

fn error_code(r: &Route) -> Option<i32> {
    match r {
        Route::Respond(resp) => resp.error.as_ref().map(|e| e.code),
        Route::Dispatch { .. } => None,
    }
}

#[test]
fn test_term_size_default() {
    let size = TermSize::default();
    assert_eq!(size.rows, 24);
    assert_eq!(size.cols, 80);
}

#[test]
fn test_json_rpc_error_codes() {
    assert_eq!(JsonRpcError::parse_error("test").code, -32700);
    assert_eq!(JsonRpcError::invalid_request("test").code, -32600);
    assert_eq!(JsonRpcError::method_not_found("test").code, -32601);
    assert_eq!(JsonRpcError::invalid_params("test").code, -32602);
    assert_eq!(JsonRpcError::internal_error("test").code, -32603);
}

#[test]
fn test_method_not_found() {
    let r = route("unknown.method", None, Value::from(1));
    assert_eq!(error_code(&r), Some(-32601));
}

#[test]
fn test_missing_params() {
    let r = route("session.create", None, Value::from(1));
    assert_eq!(error_code(&r), Some(-32602));
}

#[test]
fn test_invalid_params() {
    let mut params = serde_json::Map::new();
    params.insert("invalid".to_string(), Value::from("params"));
    match route("session.create", Some(Value::Object(params)), Value::from(1)) {
        Route::Dispatch { method, id, .. } => {
            assert_eq!(method, RpcMethod::Create);
            let resp = params_error(id, "missing field `connection`");
            assert_eq!(resp.error.unwrap().code, -32602);
        }
        Route::Respond(_) => panic!("params present: the request goes to the registry"),
    }
}

#[test]
fn method_dispatch_scenario() {
    match route("does.not.exist", None, Value::from(1)) {
        Route::Respond(resp) => {
            let err = resp.error.unwrap();
            assert_eq!(err.code, -32601);
            assert_eq!(err.message, "Method not found: does.not.exist");
            assert_eq!(resp.id, Value::from(1));
            assert_eq!(resp.jsonrpc, "2.0");
            assert!(resp.result.is_none());
        }
        Route::Dispatch { .. } => panic!("unknown method must be answered"),
    }
}

#[test]
fn unknown_methods_never_dispatch() {
    for name in ["", "session", "session.Create", "session.create ", "abcde.fghij"] {
        let r = route(name, Some(Value::Null), Value::from("x"));
        assert_eq!(error_code(&r), Some(-32601));
    }
}

#[test]
fn known_methods_dispatch_with_params() {
    let names = [
        ("session.create", RpcMethod::Create),
        ("session.input", RpcMethod::Input),
        ("session.resize", RpcMethod::Resize),
        ("session.close", RpcMethod::Close),
        ("session.list", RpcMethod::List),
        ("session.get", RpcMethod::Get),
    ];
    for (name, m) in names {
        assert_eq!(RpcMethod::from_name(name), Some(m));
        match route(name, Some(Value::Null), Value::from(7)) {
            Route::Dispatch { method, id, params } => {
                assert_eq!(method, m);
                assert_eq!(id, Value::from(7));
                assert_eq!(params, Some(Value::Null));
            }
            Route::Respond(_) => panic!("known method with params must dispatch"),
        }
    }
}

#[test]
fn list_needs_no_params_others_do() {
    assert!(matches!(route("session.list", None, Value::from(1)), Route::Dispatch { .. }));
    for name in ["session.create", "session.input", "session.resize", "session.close", "session.get"] {
        assert_eq!(error_code(&route(name, None, Value::from(1))), Some(-32602));
    }
}

#[test]
fn wrong_version_is_invalid_request() {
    let req = JsonRpcRequest {
        jsonrpc: "1.0".to_string(),
        method: "session.list".to_string(),
        params: None,
        id: Value::from(5),
    };
    match handle_request(req) {
        Route::Respond(resp) => {
            assert_eq!(resp.error.unwrap().code, -32600);
            assert_eq!(resp.id, Value::from(5));
        }
        Route::Dispatch { .. } => panic!("wrong version must be answered"),
    }
    let ok = JsonRpcRequest {
        jsonrpc: "2.0".to_string(),
        method: "session.list".to_string(),
        params: None,
        id: Value::from(6),
    };
    assert!(matches!(handle_request(ok), Route::Dispatch { method: RpcMethod::List, .. }));
}

#[test]
fn parse_and_failure_responses() {
    let r = parse_failure(Value::Null, "EOF");
    assert_eq!(r.id, Value::Null);
    let e = r.error.unwrap();
    assert_eq!(e.code, -32700);
    assert_eq!(e.message, "JSON 解析错误: EOF");
    let f = failure_response(Value::from(2), TerminalError::SessionNotFound("s".to_string()));
    let e = f.error.unwrap();
    assert_eq!(e.code, -32001);
    assert_eq!(e.message, "会话不存在: s");
    let d = e.data.unwrap();
    assert_eq!(d.error_type, "session_not_found");
    assert_eq!(d.error_code, 1003);
    assert!(!d.recoverable);
    let bad_input = failure_response(Value::from(3), TerminalError::InvalidRequest("Invalid base64 data".to_string()));
    assert_eq!(bad_input.error.unwrap().code, -32602);
    let io = failure_response(Value::from(4), TerminalError::IoError("broken pipe".to_string()));
    assert_eq!(io.error.unwrap().code, -32603);
}

#[test]
fn success_response_carries_result() {
    let r = JsonRpcResponse::success(Value::from(3), Value::Null);
    assert_eq!(r.jsonrpc, "2.0");
    assert_eq!(r.result, Some(Value::Null));
    assert!(r.error.is_none());
}

#[test]
fn redaction_drops_only_the_password() {
    let conn = ConnectionType::Ssh {
        host: "example.com".to_string(),
        port: Some(22),
        user: Some("root".to_string()),
        identity_file: None,
        password: Some("SECRET-REDACTED".to_string()),
    };
    assert_eq!(
        conn.redacted(),
        ConnectionType::Ssh {
            host: "example.com".to_string(),
            port: Some(22),
            user: Some("root".to_string()),
            identity_file: None,
            password: None,
        }
    );
    let local = ConnectionType::Local { shell_path: Some("/bin/zsh".to_string()), cwd: None, env: None };
    assert_eq!(local.redacted(), local);
}

#[test]
fn redaction_keeps_the_environment_overlay() {
    let mut env = std::collections::HashMap::new();
    env.insert("A".to_string(), "1".to_string());
    let local = ConnectionType::Local { shell_path: None, cwd: Some("/w".to_string()), env: Some(env) };
    assert_eq!(local.redacted(), local);
}
