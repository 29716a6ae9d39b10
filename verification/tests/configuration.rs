use rust_starter::configuration::schema::{
    default_endpoint, default_environment, default_filter, default_host, default_idle_timeout_secs,
    default_max_body_size_bytes, default_min_graceful_shutdown_secs, default_port,
    default_read_timeout_secs, default_request_timeout_secs, default_service_name,
    default_shutdown_timeout_secs, default_write_timeout_secs, Argon2Settings, AuthConfig, Config,
    DatabaseConfig, LogFormat, OtlpConfig, PrimaryConfig, ServerConfig, TelemetryConfig,
};
use rust_starter::configuration::validate::{ensure_not_blank, validate_configuration, ConfigError};
use rust_starter::configuration::watcher::{
    apply_reload, finish_load, is_relevant_event, layer_file_names, select_source,
    should_signal_reload, touches_config_file, watcher_step, FileFormat, FsEventKind, WatchAction,
    WatchEvent,
};

fn sample_config() -> Config {
    Config {
        primary: PrimaryConfig { env: "development".into(), name: "todo-api".into() },
        store: DatabaseConfig {
            url: "postgres://localhost/app".into(),
            max_connections: 10,
            min_connections: 1,
            connect_timeout_secs: 5,
            acquire_timeout_secs: 5,
            idle_timeout_secs: 60,
            max_lifetime_secs: 600,
            sqlx_logging: false,
        },
        server: ServerConfig {
            host: default_host(),
            port: default_port(),
            read_timeout_secs: 15,
            write_timeout_secs: 15,
            idle_timeout_secs: 60,
            request_timeout_secs: 15,
            shutdown_timeout_secs: 30,
            min_graceful_shutdown_secs: 0,
            max_body_size_bytes: default_max_body_size_bytes(),
            cors_allowed_origins: vec!["http://localhost:3000".into()],
            path_prefix: "/api".into(),
        },
        telemetry: TelemetryConfig::default(),
        auth: AuthConfig {
            secret: "0123456789abcdef0123456789abcdef".into(),
            base_url: "http://localhost:8080".into(),
            path_prefix: "/auth".into(),
            enable_signup: true,
            password_min_length: 8,
            argon2: Argon2Settings { memory_cost: 4096, time_cost: 2, parallelism: 1 },
        },
    }
}

#[test]
fn defaults_match_the_documented_values() {
    assert_eq!(default_service_name(), "app");
    assert_eq!(default_environment(), "development");
    assert_eq!(default_filter(), "info,tower_http=info");
    assert_eq!(default_endpoint(), "http://localhost:4317");
    assert_eq!(default_host(), "0.0.0.0");
    assert_eq!(default_port(), 8080);
    assert_eq!(default_read_timeout_secs(), 15);
    assert_eq!(default_write_timeout_secs(), 15);
    assert_eq!(default_idle_timeout_secs(), 60);
    assert_eq!(default_request_timeout_secs(), 15);
    assert_eq!(default_shutdown_timeout_secs(), 30);
    assert_eq!(default_min_graceful_shutdown_secs(), 0);
    assert_eq!(default_max_body_size_bytes(), 10 * 1024 * 1024);
}

#[test]
fn telemetry_defaults() {
    let t = TelemetryConfig::default();
    assert_eq!(t.service_name, "app");
    assert_eq!(t.environment, "development");
    assert_eq!(t.filter, "info,tower_http=info");
    assert_eq!(t.format, LogFormat::Compact);
    assert!(!t.include_file);
    assert!(!t.include_line_number);
    assert!(!t.otlp.enabled);
    assert_eq!(t.otlp.endpoint, "http://localhost:4317");
    let o = OtlpConfig::default();
    assert!(!o.enabled);
    assert_eq!(LogFormat::default(), LogFormat::Compact);
}

#[test]
fn a_complete_configuration_is_accepted() {
    assert!(validate_configuration(&sample_config()).is_ok());
}

#[test]
fn blank_fields_are_refused_in_order() {
    let mut c = sample_config();
    c.store.url = "  \t".into();
    c.auth.base_url = String::new();
    match validate_configuration(&c) {
        Err(ConfigError::Blank(f)) => assert_eq!(f, "store.url"),
        other => panic!("unexpected {other:?}"),
    }
    let mut c = sample_config();
    c.primary.env = "\u{3000}".into();
    let err = validate_configuration(&c).unwrap_err();
    assert_eq!(err.message(), "primary.env cannot be blank");
    let mut c = sample_config();
    c.auth.path_prefix = " ".into();
    assert_eq!(validate_configuration(&c).unwrap_err().message(), "auth.path_prefix cannot be blank");
}

#[test]
fn short_secrets_are_refused_by_byte_length() {
    let mut c = sample_config();
    c.auth.secret = "x".repeat(31);
    let err = validate_configuration(&c).unwrap_err();
    assert!(matches!(err, ConfigError::SecretTooShort));
    assert_eq!(err.message(), "auth.secret must be at least 32 characters long");
    // Sixteen two-byte characters are 32 bytes.
    c.auth.secret = "é".repeat(16);
    assert!(validate_configuration(&c).is_ok());
}

#[test]
fn ensure_not_blank_names_the_field() {
    assert!(ensure_not_blank("value", "f").is_ok());
    assert!(ensure_not_blank(" x ", "f").is_ok());
    match ensure_not_blank("\n\r\u{a0}", "primary.name") {
        Err(ConfigError::Blank(f)) => assert_eq!(f, "primary.name"),
        other => panic!("unexpected {other:?}"),
    }
}

#[test]
fn relevant_events_are_creations_modifications_and_removals() {
    assert!(is_relevant_event(&FsEventKind::Create));
    assert!(is_relevant_event(&FsEventKind::Modify));
    assert!(is_relevant_event(&FsEventKind::Remove));
    assert!(!is_relevant_event(&FsEventKind::Access));
    assert!(!is_relevant_event(&FsEventKind::Any));
    assert!(!is_relevant_event(&FsEventKind::Other));
}

#[test]
fn config_files_are_recognised_by_extension() {
    assert!(touches_config_file(&vec!["/etc/app/config.yml".to_string()]));
    assert!(touches_config_file(&vec!["a.txt".to_string(), "local.toml".to_string()]));
    assert!(touches_config_file(&vec!["dir/x.yaml".to_string()]));
    assert!(!touches_config_file(&vec!["config.json".to_string(), ".toml".to_string()]));
    assert!(!touches_config_file(&vec!["config.yml.swp".to_string()]));
    assert!(!touches_config_file(&Vec::new()));
    assert!(should_signal_reload(&FsEventKind::Modify, &vec!["config.toml".to_string()]));
    assert!(!should_signal_reload(&FsEventKind::Access, &vec!["config.toml".to_string()]));
}

#[test]
fn watcher_reloads_only_on_changes() {
    assert_eq!(watcher_step(WatchEvent::FilesChanged), WatchAction::Reload);
    assert_eq!(watcher_step(WatchEvent::Shutdown), WatchAction::Stop);
    assert_eq!(watcher_step(WatchEvent::ChannelClosed), WatchAction::Stop);
}

#[test]
fn failed_reload_keeps_last_good_configuration() {
    let current = sample_config();
    let (kept, replaced) = apply_reload::<String>(current, Err("parse error".into()));
    assert!(!replaced);
    assert_eq!(kept.primary.name, "todo-api");

    let mut next = sample_config();
    next.primary.name = "renamed".into();
    let (now, replaced) = apply_reload::<String>(kept, Ok(next));
    assert!(replaced);
    assert_eq!(now.primary.name, "renamed");
}

#[test]
fn loads_pass_through_validation() {
    assert!(finish_load(sample_config()).is_ok());
    let mut bad = sample_config();
    bad.auth.secret = "short".into();
    assert!(matches!(finish_load(bad), Err(ConfigError::SecretTooShort)));
}

#[test]
fn yaml_is_preferred_over_toml() {
    assert_eq!(select_source(true, true), Some(FileFormat::Yaml));
    assert_eq!(select_source(false, true), Some(FileFormat::Toml));
    assert_eq!(select_source(false, false), None);
    let (y, t) = layer_file_names("production");
    assert_eq!(y, "production.yml");
    assert_eq!(t, "production.toml");
}

#[test]
fn refused_loads_name_the_first_broken_rule() {
    let mut bad = sample_config();
    bad.primary.name = "  ".into();
    bad.auth.secret = "short".into();
    match finish_load(bad) {
        Err(ConfigError::Blank(field)) => assert_eq!(field, "primary.name"),
        other => panic!("unexpected: {:?}", other.map(|_| ())),
    }
}

#[test]
fn extensions_follow_the_last_path_component() {
    assert!(touches_config_file(&vec!["config/app.toml/.".to_string()]));
    assert!(touches_config_file(&vec!["settings.yml/".to_string()]));
    assert!(!touches_config_file(&vec!["config/.yaml".to_string()]));
    assert!(!touches_config_file(&vec!["config/app.toml/..".to_string()]));
    assert!(!touches_config_file(&vec!["app.toml.bak".to_string()]));
    assert!(touches_config_file(&vec!["..toml".to_string()]));
}
