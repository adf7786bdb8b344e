use kuori::client::fresh_script_name;
use kuori::target::{ConnectionParams, DEFAULT_PORT};
use kuori::{KuoriClient, KuoriError, MissingField, SessionManager};
use std::collections::HashSet;

#[test]
fn new_cache_is_empty() {
    let m = SessionManager::new();
    assert!(!m.contains("web1"));
    assert!(m.get_session("web1").is_none());
}

#[test]
fn claimed_name_cannot_be_claimed_again() {
    let mut m = SessionManager::new();
    let n = "abc".to_string();
    assert!(m.claim_name(&n));
    assert!(!m.claim_name(&n));
    assert!(m.claim_name(&"abd".to_string()));
}

#[test]
fn script_names_are_alphanumeric_of_length_ten() {
    let mut m = SessionManager::new();
    let n = fresh_script_name(&mut m).unwrap();
    assert_eq!(n.chars().count(), 10);
    assert!(n.chars().all(|c| c.is_ascii_alphanumeric()));
}

#[test]
fn thousand_script_names_are_distinct() {
    let mut m = SessionManager::new();
    let mut seen = HashSet::new();
    for _ in 0..1000 {
        let n = fresh_script_name(&mut m).unwrap();
        assert!(seen.insert(n));
    }
}

fn params(host: Option<&str>, user: Option<&str>, files: Option<Vec<&str>>) -> ConnectionParams {
    ConnectionParams {
        host_name: host.map(|s| s.to_string()),
        port: None,
        user: user.map(|s| s.to_string()),
        identity_file: files.map(|v| v.into_iter().map(|s| s.to_string()).collect()),
    }
}

#[test]
fn resolve_uses_default_port_and_first_key() {
    let t = params(Some("10.0.0.1"), Some("deploy"), Some(vec!["/k/a", "/k/b"])).resolve().ok().unwrap();
    assert_eq!(t.host_name, "10.0.0.1");
    assert_eq!(t.user, "deploy");
    assert_eq!(t.identity_file, "/k/a");
    assert_eq!(t.port, DEFAULT_PORT);
    assert_eq!(t.port, 22);
}

#[test]
fn resolve_keeps_given_port() {
    let mut p = params(Some("h"), Some("u"), Some(vec!["/k"]));
    p.port = Some(2222);
    assert_eq!(p.resolve().ok().unwrap().port, 2222);
}

fn missing(p: ConnectionParams) -> KuoriError {
    match p.resolve() {
        Err(e) => e,
        Ok(_) => panic!("resolved"),
    }
}

#[test]
fn resolve_reports_missing_fields() {
    assert_eq!(
        missing(params(None, Some("u"), Some(vec!["/k"]))),
        KuoriError::MissingParameter { field: MissingField::HostName }
    );
    assert_eq!(
        missing(params(Some("h"), None, Some(vec!["/k"]))),
        KuoriError::MissingParameter { field: MissingField::User }
    );
    assert_eq!(
        missing(params(Some("h"), Some("u"), None)),
        KuoriError::MissingParameter { field: MissingField::IdentityFile }
    );
    assert_eq!(
        missing(params(Some("h"), Some("u"), Some(vec![]))),
        KuoriError::MissingParameter { field: MissingField::IdentityFile }
    );
}

fn client(text: &str) -> KuoriClient {
    let config = ssh2_config::SshConfig::default()
        .parse(&mut text.as_bytes(), ssh2_config::ParseRule::STRICT)
        .unwrap();
    KuoriClient::new(config)
}

#[test]
fn connection_target_from_configuration() {
    let c = client("Host web1\n    HostName 10.0.0.7\n    Port 2200\n    User deploy\n    IdentityFile /keys/web1\n");
    let t = c.connection_target("web1").ok().unwrap();
    assert_eq!(t.host_name, "10.0.0.7");
    assert_eq!(t.port, 2200);
    assert_eq!(t.user, "deploy");
    assert_eq!(t.identity_file, "/keys/web1");
}

#[test]
fn connection_target_without_user() {
    let c = client("Host web1\n    HostName 10.0.0.7\n    IdentityFile /keys/web1\n");
    match c.connection_target("web1") {
        Err(e) => assert_eq!(e, KuoriError::MissingParameter { field: MissingField::User }),
        Ok(_) => panic!("resolved"),
    }
}

#[test]
fn inserted_session_is_reused() {
    let mut m = SessionManager::new();
    m.insert("web1".to_string(), ssh2::Session::new().unwrap());
    assert!(m.contains("web1"));
    assert!(m.get_session("web1").is_some());
    assert!(!m.contains("web2"));
    assert!(!m.contains("web"));
}

#[test]
fn failed_handshake_leaves_cache_unchanged() {
    let c = client("Host web1\n    HostName 127.0.0.1\n    User deploy\n    IdentityFile /keys/web1\n");
    let target = c.connection_target("web1").ok().unwrap();
    let mut m = SessionManager::new();
    let r = c.establish(&mut m, "web1".to_string(), ssh2::Session::new().unwrap(), &target);
    assert_eq!(r, Err(KuoriError::Handshake));
    assert!(!m.contains("web1"));
}

#[test]
fn connection_target_without_host_name() {
    let c = client("Host web1\n    User deploy\n    IdentityFile /keys/web1\n");
    match c.connection_target("web1") {
        Err(e) => assert_eq!(e, KuoriError::MissingParameter { field: MissingField::HostName }),
        Ok(_) => panic!("resolved"),
    }
}

#[test]
fn connection_target_for_unknown_alias() {
    let c = client("Host web1\n    HostName 10.0.0.7\n    User deploy\n    IdentityFile /keys/web1\n");
    match c.connection_target("db9") {
        Err(e) => assert_eq!(e, KuoriError::MissingParameter { field: MissingField::HostName }),
        Ok(_) => panic!("resolved"),
    }
}
