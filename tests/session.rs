use sftp_editor_client::{
    dispatch, key_file_name, key_file_path, AuthMethod, ConnectAction, ConnectPhase, Connection,
    Connector, OperationKind, Protocol, RemoteError,
};

fn profile(password: &str, private_key: &str, protocol: i8) -> Connection {
    Connection {
        id: 1,
        name: "box".to_string(),
        host: "example.com".to_string(),
        port: 22,
        username: "alice".to_string(),
        password: password.to_string(),
        private_key: private_key.to_string(),
        remote_path: "/home/alice".to_string(),
        local_path: "/tmp".to_string(),
        default: false,
        protocol,
        created_at: String::new(),
        updated_at: String::new(),
        last_connected_at: String::new(),
    }
}

/// Runs a connection attempt, answering each action with the next outcome
/// (true once they run out), and records the actions by name.
fn drive(c: &Connection, key_path: &str, outcomes: &[bool]) -> (Vec<String>, ConnectAction) {
    let mut m = Connector::new(c, key_path.to_string());
    let mut log = Vec::new();
    let mut ok = true;
    let mut i = 0;
    loop {
        let a = m.advance(ok);
        let name = match &a {
            ConnectAction::OpenTcp { host, port } => format!("open {}:{}", host, port),
            ConnectAction::Handshake => "handshake".to_string(),
            ConnectAction::WriteKeyFile { path, contents } => format!("write {} {}", path, contents),
            ConnectAction::AuthPublicKey { username, key_path, passphrase } => {
                format!("pubkey {} {} {:?}", username, key_path, passphrase)
            }
            ConnectAction::AuthPassword { username, password } => format!("password {} {}", username, password),
            ConnectAction::RemoveKeyFile { path } => format!("remove {}", path),
            ConnectAction::Ready | ConnectAction::Fail(_) => return (log, a),
        };
        log.push(name);
        ok = if i < outcomes.len() { outcomes[i] } else { true };
        i += 1;
    }
}

#[test]
fn key_profile_writes_authenticates_and_removes_key() {
    let c = profile("", "KEY", 0);
    let (log, end) = drive(&c, "/tmp/k", &[]);
    assert_eq!(
        log,
        vec![
            "open example.com:22",
            "handshake",
            "write /tmp/k KEY",
            "pubkey alice /tmp/k None",
            "remove /tmp/k",
        ]
    );
    assert!(matches!(end, ConnectAction::Ready));
}

#[test]
fn key_profile_with_password_uses_it_as_passphrase() {
    let c = profile("secret", "KEY", 0);
    let (log, _) = drive(&c, "/tmp/k", &[]);
    assert_eq!(log[3], "pubkey alice /tmp/k Some(\"secret\")");
    assert!(!log.iter().any(|l| l.starts_with("password")));
}

#[test]
fn failed_key_auth_still_removes_key_file() {
    let c = profile("", "KEY", 0);
    let (log, end) = drive(&c, "/tmp/k", &[true, true, true, false]);
    assert_eq!(log.last().unwrap(), "remove /tmp/k");
    assert!(matches!(end, ConnectAction::Fail(RemoteError::Auth(AuthMethod::PublicKey))));
    assert_eq!(log.iter().filter(|l| l.starts_with("pubkey") || l.starts_with("password")).count(), 1);
}

#[test]
fn failed_key_write_removes_and_reports_credential() {
    let c = profile("", "KEY", 0);
    let (log, end) = drive(&c, "/tmp/k", &[true, true, false]);
    assert_eq!(log.last().unwrap(), "remove /tmp/k");
    assert!(!log.iter().any(|l| l.starts_with("pubkey")));
    assert!(matches!(end, ConnectAction::Fail(RemoteError::Credential)));
}

#[test]
fn failed_key_removal_is_not_ready() {
    let c = profile("", "KEY", 0);
    let (_, end) = drive(&c, "/tmp/k", &[true, true, true, true, false]);
    assert!(matches!(end, ConnectAction::Fail(RemoteError::Credential)));
}

#[test]
fn password_profile_authenticates_once_without_key_file() {
    let c = profile("pw", "", 0);
    let (log, end) = drive(&c, "/tmp/k", &[]);
    assert_eq!(log, vec!["open example.com:22", "handshake", "password alice pw"]);
    assert!(matches!(end, ConnectAction::Ready));
}

#[test]
fn password_failure_does_not_fall_back() {
    let c = profile("pw", "", 0);
    let (log, end) = drive(&c, "/tmp/k", &[true, true, false]);
    assert_eq!(log.len(), 3);
    assert!(matches!(end, ConnectAction::Fail(RemoteError::Auth(AuthMethod::Password))));
}

#[test]
fn tcp_and_handshake_failures() {
    let c = profile("pw", "", 0);
    let (_, end) = drive(&c, "/tmp/k", &[false]);
    assert!(matches!(end, ConnectAction::Fail(RemoteError::Network)));
    let (_, end) = drive(&c, "/tmp/k", &[true, false]);
    assert!(matches!(end, ConnectAction::Fail(RemoteError::Handshake)));
}

#[test]
fn port_out_of_range_fails_without_io() {
    let mut c = profile("pw", "", 0);
    c.port = 70000;
    let (log, end) = drive(&c, "/tmp/k", &[]);
    assert!(log.is_empty());
    assert!(matches!(end, ConnectAction::Fail(RemoteError::Network)));
}

#[test]
fn connector_stays_terminal() {
    let c = profile("pw", "", 0);
    let mut m = Connector::new(&c, "/tmp/k".to_string());
    for _ in 0..4 {
        m.advance(true);
    }
    assert_eq!(m.phase(), ConnectPhase::Ready);
    assert!(matches!(m.advance(false), ConnectAction::Ready));
    assert_eq!(m.phase(), ConnectPhase::Ready);
}

#[test]
fn key_file_names_are_distinct() {
    assert_eq!(key_file_name(12, 0), ".sftp-key-12-0");
    assert_eq!(key_file_name(1, 20), ".sftp-key-1-20");
    assert_ne!(key_file_name(1, 20), key_file_name(12, 0));
    assert_ne!(key_file_name(4294967295, 18446744073709551615), key_file_name(4294967295, 1844674407370955161));
    assert_eq!(key_file_path("/tmp", 7, 3), "/tmp/.sftp-key-7-3");
}

#[test]
fn concurrent_key_attempts_touch_different_files() {
    let a = profile("", "KEY-A", 0);
    let b = profile("", "KEY-B", 0);
    let pa = key_file_path("/tmp", 100, 1);
    let pb = key_file_path("/tmp", 100, 2);
    let (la, _) = drive(&a, &pa, &[]);
    let (lb, _) = drive(&b, &pb, &[]);
    assert_eq!(la[2], format!("write {} KEY-A", pa));
    assert_eq!(lb[2], format!("write {} KEY-B", pb));
    assert_ne!(pa, pb);
    assert_eq!(la[4], format!("remove {}", pa));
    assert_eq!(lb[4], format!("remove {}", pb));
}

#[test]
fn ftp_is_not_implemented_for_every_operation() {
    let c = profile("pw", "", 1);
    for op in [OperationKind::Test, OperationKind::List, OperationKind::Exec, OperationKind::Download] {
        assert_eq!(dispatch(op, &c), Err(RemoteError::NotImplemented));
    }
    assert_eq!(RemoteError::NotImplemented.message(), "FTP not implemented");
}

#[test]
fn sftp_routes_and_unknown_tags_fail() {
    assert_eq!(dispatch(OperationKind::List, &profile("pw", "", 0)), Ok(()));
    assert_eq!(dispatch(OperationKind::Exec, &profile("pw", "", 5)), Err(RemoteError::UnknownProtocol));
    assert_eq!(dispatch(OperationKind::Download, &profile("pw", "", -1)), Err(RemoteError::UnknownProtocol));
    assert_eq!(RemoteError::UnknownProtocol.message(), "Unknown protocol");
}

#[test]
fn protocol_tags_round_trip() {
    assert_eq!(i32::from(Protocol::Sftp), 0);
    assert_eq!(i32::from(Protocol::Ftp), 1);
    assert_eq!(Protocol::try_from(0), Ok(Protocol::Sftp));
    assert_eq!(Protocol::try_from(1), Ok(Protocol::Ftp));
    assert_eq!(Protocol::try_from(2), Err(RemoteError::UnknownProtocol));
}
