use rust_starter::web::attributes::{method_from_uppercase, route_method, route_protected, DbArgs};
use rust_starter::web::cors::HttpMethod;

const METHOD_ERROR: &str = "route method must be one of GET, POST, PUT, PATCH, DELETE";

#[test]
fn route_methods_are_read_in_any_case() {
    assert_eq!(route_method("GET").unwrap(), HttpMethod::Get);
    assert_eq!(route_method("post").unwrap(), HttpMethod::Post);
    assert_eq!(route_method("Put").unwrap(), HttpMethod::Put);
    assert_eq!(route_method("patch").unwrap(), HttpMethod::Patch);
    assert_eq!(route_method("delete").unwrap(), HttpMethod::Delete);
}

#[test]
fn unknown_route_methods_are_refused() {
    assert_eq!(route_method("HEAD").unwrap_err(), METHOD_ERROR);
    assert_eq!(route_method("options").unwrap_err(), METHOD_ERROR);
    assert_eq!(method_from_uppercase("get").unwrap_err(), METHOD_ERROR);
    assert_eq!(method_from_uppercase("DELETE").unwrap(), HttpMethod::Delete);
}

#[test]
fn only_the_protected_flag_protects_a_route() {
    assert!(route_protected(Some("protected")));
    assert!(!route_protected(Some("public")));
    assert!(!route_protected(None));
}

fn pairs(items: &[(&str, &str)]) -> Vec<(String, String)> {
    items.iter().map(|(k, v)| (k.to_string(), v.to_string())).collect()
}

#[test]
fn db_args_take_the_last_value_of_each_key() {
    let args = DbArgs::parse(&pairs(&[("statement", "SELECT")])).unwrap();
    assert_eq!(args.statement, "SELECT");
    assert_eq!(args.db, None);

    let args = DbArgs::parse(&pairs(&[("statement", "a"), ("db", "postgresql"), ("statement", "b")])).unwrap();
    assert_eq!(args.statement, "b");
    assert_eq!(args.db, Some("postgresql".to_string()));
}

#[test]
fn db_args_refuse_unknown_keys_and_a_missing_statement() {
    assert_eq!(
        DbArgs::parse(&pairs(&[("statement", "a"), ("table", "t")])).unwrap_err(),
        "unsupported argument; expected `statement` or `db`"
    );
    assert_eq!(
        DbArgs::parse(&pairs(&[("db", "postgresql")])).unwrap_err(),
        "`statement` is required for #[instrument_db]"
    );
    assert_eq!(DbArgs::parse(&Vec::new()).unwrap_err(), "`statement` is required for #[instrument_db]");
}
