use ebbflow::{
    config_file_full, config_path_root, is_blank_document, is_white_char, key_file_contents,
    key_file_full, key_from_contents, key_from_read, trim_whitespace, ConfigError,
    EbbflowDaemonConfig, Endpoint, IoFailure, Platform, PossiblyEmptyEbbflowDaemonConfig, Ssh,
    CONFIG_FILE, KEY_FILE,
};

fn empty_config() -> EbbflowDaemonConfig {
    EbbflowDaemonConfig { endpoints: vec![], ssh: None }
}

fn one_endpoint() -> Endpoint {
    Endpoint {
        port: 8080,
        dns: "a.example.com".to_string(),
        maxconns: 200,
        maxidle: 5,
        enabled: true,
    }
}

#[test]
fn roots_per_platform() {
    assert_eq!(config_path_root(Platform::Linux), "/etc/ebbflow");
    assert_eq!(config_path_root(Platform::MacOs), "/usr/local/etc/ebbflow");
    assert_eq!(config_path_root(Platform::Windows), "\\Program Files\\ebbflow");
}

#[test]
fn file_paths_per_platform() {
    assert_eq!(config_file_full(Platform::Linux), "/etc/ebbflow/config.yaml");
    assert_eq!(key_file_full(Platform::Linux), "/etc/ebbflow/host.key");
    assert_eq!(config_file_full(Platform::MacOs), "/usr/local/etc/ebbflow/config.yaml");
    assert_eq!(key_file_full(Platform::MacOs), "/usr/local/etc/ebbflow/host.key");
    assert_eq!(config_file_full(Platform::Windows), "\\Program Files\\ebbflow\\config.yaml");
    assert_eq!(key_file_full(Platform::Windows), "\\Program Files\\ebbflow\\host.key");
    assert_eq!(CONFIG_FILE, "config.yaml");
    assert_eq!(KEY_FILE, "host.key");
}

#[test]
fn ssh_defaults() {
    let s = Ssh::new(true, Some("box".to_string()));
    assert_eq!(s.maxconns, 20);
    assert_eq!(s.port, 22);
    assert!(s.enabled);
    assert_eq!(s.maxidle, 5);
    assert_eq!(s.hostname_override, Some("box".to_string()));
    let t = Ssh::new(false, None);
    assert!(!t.enabled);
    assert_eq!(t.hostname_override, None);
}

#[test]
fn new_config_is_empty() {
    assert_eq!(EbbflowDaemonConfig::new(), empty_config());
}

#[test]
fn io_failures_are_classified() {
    assert_eq!(ConfigError::from_io(IoFailure::NotFound), ConfigError::FileNotFound);
    assert_eq!(ConfigError::from_io(IoFailure::PermissionDenied), ConfigError::FilePermissions);
    assert_eq!(
        ConfigError::from_io(IoFailure::Other("disk on fire".to_string())),
        ConfigError::Unknown("disk on fire".to_string())
    );
}

#[test]
fn read_only_target_reports_permissions() {
    let r = ConfigError::from_io(IoFailure::PermissionDenied);
    assert_eq!(r, ConfigError::FilePermissions);
}

#[test]
fn recoverable_errors() {
    assert!(ConfigError::Empty.is_recoverable());
    assert!(ConfigError::FileNotFound.is_recoverable());
    assert!(!ConfigError::Parsing.is_recoverable());
    assert!(!ConfigError::FilePermissions.is_recoverable());
    assert!(!ConfigError::Unknown("x".to_string()).is_recoverable());
}

#[test]
fn trims_like_std() {
    for s in [
        "  mytoken  ",
        "",
        "   ",
        "\t\nabc def\r\n",
        "\u{3000}\u{a0}x\u{2028}",
        "\u{200b}zero-width is kept\u{200b}",
        "a",
        " \u{85}é ü\u{1680}",
    ] {
        assert_eq!(trim_whitespace(s), s.trim());
    }
    assert!(is_white_char('\u{205f}'));
    assert!(!is_white_char('x'));
}

#[test]
fn set_then_get_key() {
    let written = key_file_contents("  mytoken  ");
    assert_eq!(written, "mytoken");
    assert_eq!(key_from_contents(&written), Ok("mytoken".to_string()));
    assert_eq!(key_from_read(Ok(written)), Ok("mytoken".to_string()));
}

#[test]
fn key_is_trimmed_on_read() {
    assert_eq!(key_from_contents("secret\n"), Ok("secret".to_string()));
    assert_eq!(key_from_contents("\t a b \r\n"), Ok("a b".to_string()));
}

#[test]
fn missing_key_file_is_not_found() {
    assert_eq!(key_from_read(Err(IoFailure::NotFound)), Err(ConfigError::FileNotFound));
    assert_eq!(
        key_from_read(Err(IoFailure::PermissionDenied)),
        Err(ConfigError::FilePermissions)
    );
}

#[test]
fn whitespace_key_file_is_empty() {
    assert_eq!(key_from_read(Ok("  \n\t ".to_string())), Err(ConfigError::Empty));
    assert_eq!(key_from_contents(""), Err(ConfigError::Empty));
}

#[test]
fn blank_documents() {
    assert!(is_blank_document(b""));
    assert!(is_blank_document(b" \n\t\r\n"));
    assert!(!is_blank_document(b"~"));
    assert!(!is_blank_document(b"endpoints: []"));
}

#[test]
fn zero_byte_config_is_empty() {
    let loaded = EbbflowDaemonConfig::from_read(Ok(vec![]), None);
    assert_eq!(loaded, Err(ConfigError::Empty));
    assert_eq!(EbbflowDaemonConfig::or_new(loaded), Ok(empty_config()));
}

#[test]
fn whitespace_config_is_empty() {
    let loaded = EbbflowDaemonConfig::from_read(Ok(b"\n  \n".to_vec()), None);
    assert_eq!(loaded, Err(ConfigError::Empty));
}

#[test]
fn null_document_is_empty() {
    let loaded = EbbflowDaemonConfig::from_read(
        Ok(b"~\n".to_vec()),
        Some(PossiblyEmptyEbbflowDaemonConfig::Empty),
    );
    assert_eq!(loaded, Err(ConfigError::Empty));
    assert_eq!(EbbflowDaemonConfig::or_new(loaded), Ok(empty_config()));
}

#[test]
fn missing_config_is_not_found() {
    let loaded = EbbflowDaemonConfig::from_read(Err(IoFailure::NotFound), None);
    assert_eq!(loaded, Err(ConfigError::FileNotFound));
    assert_eq!(EbbflowDaemonConfig::or_new(loaded), Ok(empty_config()));
}

#[test]
fn malformed_config_is_parsing() {
    let loaded = EbbflowDaemonConfig::from_read(Ok(b"not: [valid".to_vec()), None);
    assert_eq!(loaded, Err(ConfigError::Parsing));
    assert_eq!(EbbflowDaemonConfig::or_new(loaded), Err(ConfigError::Parsing));
}

#[test]
fn unreadable_config_is_not_masked() {
    let denied = EbbflowDaemonConfig::from_read(Err(IoFailure::PermissionDenied), None);
    assert_eq!(denied, Err(ConfigError::FilePermissions));
    assert_eq!(EbbflowDaemonConfig::or_new(denied), Err(ConfigError::FilePermissions));
    let other = EbbflowDaemonConfig::from_read(Err(IoFailure::Other("eio".to_string())), None);
    assert_eq!(
        EbbflowDaemonConfig::or_new(other),
        Err(ConfigError::Unknown("eio".to_string()))
    );
}

#[test]
fn one_endpoint_without_ssh() {
    let text = b"endpoints:\n  - port: 8080\n    dns: a.example.com\n    maxconns: 200\n    maxidle: 5\n    enabled: true\n";
    let parsed = EbbflowDaemonConfig { endpoints: vec![one_endpoint()], ssh: None };
    let loaded = EbbflowDaemonConfig::from_read(
        Ok(text.to_vec()),
        Some(PossiblyEmptyEbbflowDaemonConfig::EbbflowDaemonConfig(parsed)),
    );
    let cfg = loaded.unwrap();
    assert_eq!(cfg.endpoints, vec![one_endpoint()]);
    assert_eq!(cfg.ssh, None);
    assert_eq!(EbbflowDaemonConfig::or_new(Ok(cfg.clone())), Ok(cfg));
}

#[test]
fn document_decides_before_parse_outcome() {
    let cfg = EbbflowDaemonConfig { endpoints: vec![], ssh: Some(Ssh::new(true, None)) };
    let doc = PossiblyEmptyEbbflowDaemonConfig::EbbflowDaemonConfig(cfg.clone());
    assert_eq!(
        EbbflowDaemonConfig::from_document(b"endpoints: []\nssh: {}", Some(doc.clone())),
        Ok(cfg)
    );
    assert_eq!(EbbflowDaemonConfig::from_document(b"   ", Some(doc)), Err(ConfigError::Empty));
}
