use rust_starter::configuration::schema::{
    Argon2Settings, AuthConfig, Config, DatabaseConfig, PrimaryConfig, ServerConfig, TelemetryConfig,
};
use rust_starter::web::routes::{
    is_root_scoped_path, join_paths, listen_address, normalize_path_segment, plan_router,
    scoped_path,
};
use rust_starter::web::server::{response_severity, ResponseSeverity, ServerBuilder};
use std::sync::Arc;

fn config(env: &str, server_prefix: &str, auth_prefix: &str, port: u16) -> Config {
    Config {
        primary: PrimaryConfig { env: env.into(), name: "svc".into() },
        store: DatabaseConfig {
            url: "postgres://db".into(),
            max_connections: 5,
            min_connections: 1,
            connect_timeout_secs: 1,
            acquire_timeout_secs: 1,
            idle_timeout_secs: 1,
            max_lifetime_secs: 1,
            sqlx_logging: false,
        },
        server: ServerConfig {
            host: "127.0.0.1".into(),
            port,
            read_timeout_secs: 1,
            write_timeout_secs: 1,
            idle_timeout_secs: 1,
            request_timeout_secs: 1,
            shutdown_timeout_secs: 1,
            min_graceful_shutdown_secs: 0,
            max_body_size_bytes: 1024,
            cors_allowed_origins: vec![],
            path_prefix: server_prefix.into(),
        },
        telemetry: TelemetryConfig::default(),
        auth: AuthConfig {
            secret: "s".repeat(40),
            base_url: "http://localhost".into(),
            path_prefix: auth_prefix.into(),
            enable_signup: false,
            password_min_length: 8,
            argon2: Argon2Settings { memory_cost: 64, time_cost: 1, parallelism: 1 },
        },
    }
}

#[test]
fn join_paths_strips_slashes_around_each_part() {
    assert_eq!(join_paths("/api/", "/todos"), "/api/todos");
    assert_eq!(join_paths("api", "todos/"), "/api/todos");
    assert_eq!(join_paths("", "/todos"), "/todos");
    assert_eq!(join_paths("/api", ""), "/api");
    assert_eq!(join_paths("///", "//"), "/");
    assert_eq!(join_paths("/v1/api/", "/todos/{id}"), "/v1/api/todos/{id}");
}

#[test]
fn normalize_removes_only_outer_slashes() {
    assert_eq!(normalize_path_segment("//a/b//"), "a/b");
    assert_eq!(normalize_path_segment("a"), "a");
    assert_eq!(normalize_path_segment("/"), "");
}

#[test]
fn probe_routes_stay_at_the_root() {
    for p in ["/health", "/healthz", "/livez", "/readyz", "/status"] {
        assert!(is_root_scoped_path(p));
        assert_eq!(scoped_path(p, "/api"), p);
    }
    assert!(!is_root_scoped_path("/health/"));
    assert_eq!(scoped_path("/todos", "/api"), "/api/todos");
    assert_eq!(scoped_path("health", "/api"), "/api/health");
}

#[test]
fn joined_paths_are_absolute_and_idempotent() {
    let parts = ["", "/", "a", "/a/", "a/b", "//x//y//"];
    for p in parts {
        for q in parts {
            let j = join_paths(p, q);
            assert!(j.starts_with('/'));
            assert!(j == "/" || !j.ends_with('/'));
            assert_eq!(join_paths("", &j), j);
        }
    }
}

#[test]
fn development_router_mounts_docs() {
    let cfg = config("development", "/api/", "/auth/", 8080);
    let plan = plan_router(&cfg);
    assert_eq!(plan.auth_path, "/api/auth");
    assert_eq!(plan.reference_block_route, None);
    assert_eq!(
        plan.auth_openapi_url.as_deref(),
        Some("http://localhost:8080/api/auth/reference/openapi.json")
    );
}

#[test]
fn other_environments_hide_the_auth_reference() {
    let cfg = config("production", "/api", "auth", 443);
    let plan = plan_router(&cfg);
    assert_eq!(plan.auth_path, "/api/auth");
    assert_eq!(plan.auth_openapi_url, None);
    assert_eq!(plan.reference_block_route.as_deref(), Some("/api/auth/reference/{*path}"));
    let root = plan_router(&config("staging", "", "", 1));
    assert_eq!(root.auth_path, "/");
    assert_eq!(root.reference_block_route.as_deref(), Some("/reference/{*path}"));
}

#[test]
fn the_listener_binds_host_and_port() {
    let cfg = config("development", "", "", 65535);
    assert_eq!(listen_address(&cfg.server), "127.0.0.1:65535");
    let builder = ServerBuilder::new(Arc::new(config("development", "", "", 0)));
    assert_eq!(builder.bind_address(), "127.0.0.1:0");
    assert_eq!(builder.cfg().primary.name, "svc");
}

#[test]
fn responses_are_logged_by_status_class() {
    assert_eq!(response_severity(500), ResponseSeverity::ServerError);
    assert_eq!(response_severity(599), ResponseSeverity::ServerError);
    assert_eq!(response_severity(404), ResponseSeverity::ClientError);
    assert_eq!(response_severity(400), ResponseSeverity::ClientError);
    assert_eq!(response_severity(200), ResponseSeverity::Completed);
    assert_eq!(response_severity(600), ResponseSeverity::Completed);
    assert_eq!(response_severity(399), ResponseSeverity::Completed);
}
