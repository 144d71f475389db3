use terminal_plugin::error::TerminalError;
use terminal_plugin::protocol::{ConnectionType, CreateSessionRequest, TermSize};
use terminal_plugin::pump::Notice;
use terminal_plugin::protocol::{SessionCwdNotification, SessionStatusNotification, OutputNotification};
use terminal_plugin::registry::PtyManager;
use terminal_plugin::status::SessionStatus;

fn local_request() -> CreateSessionRequest {
    CreateSessionRequest {
        connection: ConnectionType::Local { shell_path: None, cwd: None, env: None },
        term_size: TermSize::default(),
    }
}

fn ssh_request() -> CreateSessionRequest {
    CreateSessionRequest {
        connection: ConnectionType::Ssh {
            host: "test.example.com".to_string(),
            port: Some(22),
            user: Some("test".to_string()),
            identity_file: None,
            password: Some("SECRET-REDACTED".to_string()),
        },
        term_size: TermSize::default(),
    }
}

fn is_uuid_v4(id: &str) -> bool {
    let b = id.as_bytes();
    b.len() == 36
        && b.iter().enumerate().all(|(i, c)| {
            if i == 8 || i == 13 || i == 18 || i == 23 {
                *c == b'-'
            } else {
                c.is_ascii_digit() || (b'a'..=b'f').contains(c)
            }
        })
        && b[14] == b'4'
        && matches!(b[19], b'8' | b'9' | b'a' | b'b')
}

#[test]
fn test_create_session() {
    let mut manager = PtyManager::new();
    let session_id = manager.create_session(local_request(), 0, Ok(())).unwrap();
    assert!(!session_id.is_empty());
    assert_eq!(manager.session_count(), 1);
    let _ = manager.close_session(&session_id);
}

#[test]
fn test_session_uniqueness() {
    let mut manager = PtyManager::new();
    let mut ids = Vec::new();
    for _ in 0..10 {
        ids.push(manager.create_session(local_request(), 0, Ok(())).unwrap());
    }
    let unique_count = ids.iter().collect::<std::collections::HashSet<_>>().len();
    assert_eq!(unique_count, ids.len());
    for id in &ids {
        let _ = manager.close_session(id);
    }
}

#[test]
fn test_close_session() {
    let mut manager = PtyManager::new();
    let session_id = manager.create_session(local_request(), 0, Ok(())).unwrap();
    assert_eq!(manager.session_count(), 1);
    manager.close_session(&session_id).unwrap();
    assert_eq!(manager.session_count(), 0);
}

#[test]
fn test_close_nonexistent_session() {
    let mut manager = PtyManager::new();
    let result = manager.close_session("nonexistent");
    assert!(result.is_err());
}

#[test]
fn create_close_loop_scenario() {
    let mut manager = PtyManager::new();
    let id = manager.create_session(local_request(), 1700000000, Ok(())).unwrap();
    let list = manager.list_sessions();
    assert_eq!(list.len(), 1);
    assert_eq!(list[0].id, id);
    assert_eq!(list[0].status, SessionStatus::Running);
    assert_eq!(list[0].created_at, 1700000000);
    assert!(manager.close_session(&id).is_ok());
    assert!(manager.list_sessions().is_empty());
}

#[test]
fn ids_are_distinct_random_uuids() {
    let mut manager = PtyManager::new();
    let mut ids = Vec::new();
    for _ in 0..50 {
        let id = manager.create_session(ssh_request(), 0, Ok(())).unwrap();
        assert!(is_uuid_v4(&id), "not a v4 uuid: {}", id);
        ids.push(id);
    }
    let unique: std::collections::HashSet<_> = ids.iter().collect();
    assert_eq!(unique.len(), ids.len());
}

#[test]
fn failed_local_launch_stores_nothing() {
    let mut manager = PtyManager::new();
    let r = manager.create_session(local_request(), 0, Err("no pty".to_string()));
    assert_eq!(r, Err(TerminalError::PtyCreationFailed("no pty".to_string())));
    assert_eq!(manager.session_count(), 0);
}

#[test]
fn remote_session_starts_connecting_without_password_in_snapshots() {
    let mut manager = PtyManager::new();
    let id = manager.create_session(ssh_request(), 0, Err("ignored".to_string())).unwrap();
    let info = manager.get_session(&id).unwrap();
    assert_eq!(info.status, SessionStatus::Connecting);
    match info.connection_type {
        ConnectionType::Ssh { password, host, .. } => {
            assert!(password.is_none());
            assert_eq!(host, "test.example.com");
        }
        _ => panic!("expected ssh"),
    }
    assert!(manager.get_session("other").is_none());
}

#[test]
fn input_is_decoded_for_known_sessions() {
    let mut manager = PtyManager::new();
    let id = manager.create_session(local_request(), 0, Ok(())).unwrap();
    assert_eq!(manager.send_input(&id, "bHMK").unwrap(), b"ls\n".to_vec());
    assert!(matches!(manager.send_input(&id, "***"), Err(TerminalError::InvalidRequest(_))));
    assert_eq!(
        manager.send_input("missing", "bHMK"),
        Err(TerminalError::SessionNotFound("missing".to_string()))
    );
    let size = TermSize { rows: 40, cols: 120 };
    assert_eq!(manager.resize_session(&id, size), Ok(size));
    assert_eq!(
        manager.resize_session("missing", size),
        Err(TerminalError::SessionNotFound("missing".to_string()))
    );
}

#[test]
fn status_updates_follow_the_transition_relation() {
    let mut manager = PtyManager::new();
    let id = manager.create_session(ssh_request(), 0, Ok(())).unwrap();
    assert!(manager.update_status(&id, SessionStatus::Running));
    assert!(!manager.update_status(&id, SessionStatus::Connecting));
    assert!(manager.record_exit(&id, 7));
    let info = manager.get_session(&id).unwrap();
    assert_eq!(info.status, SessionStatus::Done);
    assert_eq!(info.exit_code, Some(7));
    assert!(!manager.update_status(&id, SessionStatus::Running));
    assert!(manager.update_status(&id, SessionStatus::Error));
    let info = manager.get_session(&id).unwrap();
    assert_eq!(info.exit_code, None);
    assert!(manager.record_cwd(&id, "/tmp".to_string()));
    assert_eq!(manager.get_session(&id).unwrap().cwd, Some("/tmp".to_string()));
    assert!(!manager.record_cwd("missing", "/tmp".to_string()));
    // a closed session in a terminal state can still be closed
    assert!(manager.close_session(&id).is_ok());
}

#[test]
fn create_with_given_id_refuses_reissue() {
    let mut manager = PtyManager::new();
    let id = "00000000-0000-4000-8000-000000000000".to_string();
    assert_eq!(manager.create_session_with_id(ssh_request(), 5, Ok(()), id.clone()), Ok(id.clone()));
    assert!(matches!(
        manager.create_session_with_id(local_request(), 6, Ok(()), id.clone()),
        Err(TerminalError::InvalidRequest(_))
    ));
    assert_eq!(manager.session_count(), 1);
    manager.close_session(&id).unwrap();
    // an id is never handed out again, even after its session closed
    assert!(matches!(
        manager.create_session_with_id(ssh_request(), 7, Ok(()), id.clone()),
        Err(TerminalError::InvalidRequest(_))
    ));
    assert_eq!(manager.session_count(), 0);
}

#[test]
fn notices_update_the_records() {
    let mut manager = PtyManager::new();
    let id = manager.create_session(local_request(), 0, Ok(())).unwrap();
    let other = manager.create_session(local_request(), 0, Ok(())).unwrap();
    assert!(manager.apply_notice(&Notice::Cwd(SessionCwdNotification { session_id: id.clone(), cwd: "/srv".to_string() })));
    assert!(!manager.apply_notice(&Notice::Output(OutputNotification { session_id: id.clone(), data: "eA==".to_string() })));
    assert!(manager.apply_notice(&Notice::Status(SessionStatusNotification {
        session_id: id.clone(),
        status: SessionStatus::Done,
        exit_code: Some(0),
    })));
    let info = manager.get_session(&id).unwrap();
    assert_eq!(info.status, SessionStatus::Done);
    assert_eq!(info.exit_code, Some(0));
    assert_eq!(info.cwd, Some("/srv".to_string()));
    let untouched = manager.get_session(&other).unwrap();
    assert_eq!(untouched.status, SessionStatus::Running);
    assert_eq!(untouched.cwd, None);
    assert!(!manager.apply_notice(&Notice::Status(SessionStatusNotification {
        session_id: id.clone(),
        status: SessionStatus::Running,
        exit_code: None,
    })));
}

#[test]
fn local_descriptor_survives_storage() {
    let mut env = std::collections::HashMap::new();
    env.insert("LANG".to_string(), "C".to_string());
    let conn = ConnectionType::Local {
        shell_path: Some("/bin/zsh".to_string()),
        cwd: Some("/tmp".to_string()),
        env: Some(env),
    };
    let mut manager = PtyManager::new();
    let id = manager
        .create_session(CreateSessionRequest { connection: conn.clone(), term_size: TermSize::default() }, 0, Ok(()))
        .unwrap();
    assert_eq!(manager.get_session(&id).unwrap().connection_type, conn);
}
