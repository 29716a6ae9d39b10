use rust_starter::configuration::schema::{
    Argon2Settings, AuthConfig, Config, DatabaseConfig, PrimaryConfig, ServerConfig, TelemetryConfig,
};
use rust_starter::web::docs::{build_docs_html, merge_auth_spec, schema_keys_to_add, Json};

fn config() -> Config {
    Config {
        primary: PrimaryConfig { env: "development".into(), name: "svc".into() },
        store: DatabaseConfig {
            url: "postgres://db".into(),
            max_connections: 5,
            min_connections: 1,
            connect_timeout_secs: 1,
            acquire_timeout_secs: 1,
            idle_timeout_secs: 1,
            max_lifetime_secs: 1,
            sqlx_logging: false,
        },
        server: ServerConfig {
            host: "0.0.0.0".into(),
            port: 3000,
            read_timeout_secs: 1,
            write_timeout_secs: 1,
            idle_timeout_secs: 1,
            request_timeout_secs: 1,
            shutdown_timeout_secs: 1,
            min_graceful_shutdown_secs: 0,
            max_body_size_bytes: 1,
            cors_allowed_origins: vec![],
            path_prefix: "/api/".into(),
        },
        telemetry: TelemetryConfig::default(),
        auth: AuthConfig {
            secret: "s".repeat(32),
            base_url: "http://localhost".into(),
            path_prefix: "/auth".into(),
            enable_signup: true,
            password_min_length: 8,
            argon2: Argon2Settings { memory_cost: 64, time_cost: 1, parallelism: 1 },
        },
    }
}

#[test]
fn the_docs_page_embeds_specs_and_server_urls() {
    let html = build_docs_html(&config(), "{\"a\":1}", "{\"s\":2}");
    assert!(html.starts_with("<!doctype html>\n<html>"));
    assert!(html.contains("title: 'App API', content: {\"a\":1},\n            servers: [{ url: 'http://localhost:3000/api' }]"));
    assert!(html.contains("title: 'System API', content: {\"s\":2},\n            servers: [{ url: 'http://localhost:3000' }]"));
    assert!(html.contains("url: '/docs/auth-openapi.json',\n            servers: [{ url: 'http://localhost:3000/api/auth' }]"));
    assert!(html.ends_with("</script>\n  </body>\n</html>"));
}

#[test]
fn schema_merging_keeps_existing_entries() {
    let existing: Vec<String> = vec!["User".into(), "Session".into()];
    let incoming: Vec<String> = vec!["TodoResponse".into(), "User".into(), "ErrorResponse".into()];
    assert_eq!(schema_keys_to_add(&existing, &incoming), vec![0, 2]);
    assert_eq!(schema_keys_to_add(&Vec::new(), &incoming), vec![0, 1, 2]);
    let repeated: Vec<String> = vec!["A".into(), "A".into()];
    assert_eq!(schema_keys_to_add(&Vec::new(), &repeated), vec![0]);
    assert!(schema_keys_to_add(&incoming, &incoming).is_empty());
}

fn obj(members: Vec<(&str, Json)>) -> Json {
    Json::Object(members.into_iter().map(|(k, v)| (k.to_string(), v)).collect())
}

fn app_schemas() -> Vec<(String, Json)> {
    vec![
        ("Todo".to_string(), Json::Str("app".into())),
        ("User".to_string(), Json::Str("app".into())),
        ("Todo".to_string(), Json::Str("again".into())),
    ]
}

#[test]
fn auth_spec_without_components_gets_the_app_schemas() {
    let spec = obj(vec![("openapi", Json::Str("3.1.0".into()))]);
    let merged = merge_auth_spec(spec, app_schemas());
    let expected = obj(vec![
        ("openapi", Json::Str("3.1.0".into())),
        (
            "components",
            obj(vec![(
                "schemas",
                obj(vec![("Todo", Json::Str("app".into())), ("User", Json::Str("app".into()))]),
            )]),
        ),
    ]);
    assert_eq!(merged, expected);
}

#[test]
fn auth_spec_schemas_keep_their_own_entries() {
    let spec = obj(vec![(
        "components",
        obj(vec![
            ("securitySchemes", Json::Null),
            ("schemas", obj(vec![("User", Json::Str("auth".into()))])),
        ]),
    )]);
    let merged = merge_auth_spec(spec, app_schemas());
    let expected = obj(vec![(
        "components",
        obj(vec![
            ("securitySchemes", Json::Null),
            ("schemas", obj(vec![("User", Json::Str("auth".into())), ("Todo", Json::Str("app".into()))])),
        ]),
    )]);
    assert_eq!(merged, expected);
}

#[test]
fn components_without_schemas_get_them_and_other_values_stay() {
    let spec = obj(vec![("components", obj(vec![]))]);
    let merged = merge_auth_spec(spec, app_schemas());
    let expected = obj(vec![(
        "components",
        obj(vec![("schemas", obj(vec![("Todo", Json::Str("app".into())), ("User", Json::Str("app".into()))]))]),
    )]);
    assert_eq!(merged, expected);

    let odd = obj(vec![("components", Json::Number("5".into()))]);
    assert_eq!(merge_auth_spec(odd, app_schemas()), obj(vec![("components", Json::Number("5".into()))]));
    assert_eq!(merge_auth_spec(Json::Array(vec![Json::Null]), app_schemas()), Json::Array(vec![Json::Null]));
}
