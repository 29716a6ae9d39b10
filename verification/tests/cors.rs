use rust_starter::configuration::schema::ServerConfig;
use rust_starter::web::cors::{build_cors_policy, AllowedHeaders, AllowedOrigins, HttpMethod, RequestHeader};

fn server(origins: &[&str]) -> ServerConfig {
    ServerConfig {
        host: "0.0.0.0".into(),
        port: 80,
        read_timeout_secs: 1,
        write_timeout_secs: 1,
        idle_timeout_secs: 1,
        request_timeout_secs: 1,
        shutdown_timeout_secs: 1,
        min_graceful_shutdown_secs: 0,
        max_body_size_bytes: 1,
        cors_allowed_origins: origins.iter().map(|s| s.to_string()).collect(),
        path_prefix: String::new(),
    }
}

#[test]
fn listed_origins_allow_credentials() {
    let p = build_cors_policy(&server(&["https://a.example", "bad\u{7f}origin", "https://b.example"]));
    assert!(p.allow_credentials);
    match p.origins {
        AllowedOrigins::List(l) => assert_eq!(l, vec!["https://a.example", "https://b.example"]),
        AllowedOrigins::Any => panic!("expected a list"),
    }
    match p.headers {
        AllowedHeaders::List(h) => assert_eq!(
            h,
            vec![RequestHeader::ContentType, RequestHeader::Authorization, RequestHeader::Accept]
        ),
        AllowedHeaders::Any => panic!("expected a list"),
    }
    assert_eq!(
        p.methods,
        vec![
            HttpMethod::Get,
            HttpMethod::Post,
            HttpMethod::Put,
            HttpMethod::Patch,
            HttpMethod::Delete,
            HttpMethod::Options
        ]
    );
}

#[test]
fn wildcard_allows_any_origin_without_credentials() {
    let p = build_cors_policy(&server(&["https://a.example", "*"]));
    assert!(!p.allow_credentials);
    assert!(matches!(p.origins, AllowedOrigins::Any));
    assert!(matches!(p.headers, AllowedHeaders::Any));
    assert_eq!(p.methods.len(), 6);
}

#[test]
fn no_origins_means_an_empty_list() {
    let p = build_cors_policy(&server(&[]));
    assert!(p.allow_credentials);
    assert!(matches!(p.origins, AllowedOrigins::List(ref l) if l.is_empty()));
}

#[test]
fn non_ascii_and_tab_origins_are_valid_header_values() {
    let p = build_cors_policy(&server(&["https://ex\u{e4}mple.de", "a\tb", "line\nbreak"]));
    match p.origins {
        AllowedOrigins::List(l) => assert_eq!(l, vec!["https://ex\u{e4}mple.de", "a\tb"]),
        AllowedOrigins::Any => panic!("expected a list"),
    }
}
