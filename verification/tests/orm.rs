use rust_starter::orm::error::{
    cancelled_by_hook, map_db_err, require_found, transaction_end, transaction_result, DbFailure,
    OrmError, SqlErrorKind, TxEnd,
};
use rust_starter::orm::hooks::HookControl;
use rust_starter::orm::registry::{
    all_schema_field_names, app_schemas, classify_entity_fields, entity_required_fields,
    is_schema_field, required_field_names,
};

#[test]
fn error_constructors_and_messages() {
    assert!(matches!(OrmError::conflict("dup"), OrmError::Conflict(m) if m == "dup"));
    assert!(matches!(OrmError::forbidden("no"), OrmError::Forbidden(m) if m == "no"));
    assert!(matches!(OrmError::validation("bad"), OrmError::Validation(m) if m == "bad"));
    assert_eq!(OrmError::NotFound.message(), "record not found");
    assert_eq!(OrmError::conflict("dup").message(), "conflict: dup");
    assert_eq!(OrmError::Database("x".into()).message(), "database error: x");
    let e = cancelled_by_hook("insert");
    assert_eq!(e.message(), "hook cancelled operation: insert cancelled by hook");
    assert!(matches!(e, OrmError::HookCancelled(m) if m == "insert cancelled by hook"));
}

#[test]
fn database_failures_are_classified() {
    let e = map_db_err(DbFailure {
        sql: Some(SqlErrorKind::UniqueConstraintViolation("todos_pkey".into())),
        rendered: "whatever".into(),
    });
    assert!(matches!(e, OrmError::UniqueViolation(m) if m == "todos_pkey"));
    let e = map_db_err(DbFailure {
        sql: Some(SqlErrorKind::ForeignKeyConstraintViolation("fk".into())),
        rendered: "whatever".into(),
    });
    assert!(matches!(e, OrmError::ForeignKeyViolation(m) if m == "fk"));
    let e = map_db_err(DbFailure { sql: Some(SqlErrorKind::Other), rendered: "timeout".into() });
    assert!(matches!(e, OrmError::Database(m) if m == "timeout"));
    let e = map_db_err(DbFailure { sql: None, rendered: "io".into() });
    assert!(matches!(e, OrmError::Database(m) if m == "io"));
}

#[test]
fn missing_rows_become_not_found() {
    assert!(matches!(require_found::<u8>(None), Err(OrmError::NotFound)));
    assert_eq!(require_found(Some(3)).unwrap(), 3);
}

#[test]
fn transactions_commit_or_roll_back() {
    assert_eq!(transaction_end::<u8>(&Ok(1)), TxEnd::Commit);
    assert_eq!(transaction_end::<u8>(&Err(OrmError::NotFound)), TxEnd::Rollback);
    assert_eq!(transaction_result::<u8>(Ok(4), Ok(())).unwrap(), 4);
    assert!(matches!(transaction_result::<u8>(Err(OrmError::NotFound), Ok(())), Err(OrmError::NotFound)));
    let failed = DbFailure { sql: None, rendered: "rollback failed".into() };
    assert!(matches!(
        transaction_result::<u8>(Err(OrmError::NotFound), Err(failed)),
        Err(OrmError::Database(m)) if m == "rollback failed"
    ));
    let failed = DbFailure { sql: None, rendered: "commit failed".into() };
    assert!(matches!(transaction_result::<u8>(Ok(1), Err(failed)), Err(OrmError::Database(_))));
}

#[test]
fn hook_control_reports_cancellation() {
    assert!(HookControl::Cancel.is_cancelled());
    assert!(!HookControl::Continue.is_cancelled());
}

#[test]
fn registry_lists_required_and_plugin_fields() {
    assert_eq!(required_field_names(), vec!["id", "created_at", "updated_at"]);
    assert_eq!(all_schema_field_names(), vec!["deleted_at", "metadata", "slug"]);
    assert!(is_schema_field("slug"));
    assert!(is_schema_field("deleted_at"));
    assert!(!is_schema_field("id"));
    assert!(!is_schema_field("title"));
    let req = entity_required_fields();
    assert!(req[0].is_primary_key);
    assert_eq!(req[0].ty, "Uuid");
    let schemas = app_schemas();
    assert_eq!(schemas.len(), 3);
    assert_eq!(schemas[1].fields[0].column_name, Some("metadata"));
    assert_eq!(schemas[0].name, "soft-delete");
}

#[test]
fn entity_fields_are_classified() {
    let fields: Vec<String> = ["id", "title", "slug", "created_at", "done", "updated_at", "deleted_at"]
        .iter()
        .map(|s| s.to_string())
        .collect();
    let plan = classify_entity_fields(&fields).unwrap();
    assert_eq!(plan.extra, vec!["title", "done"]);
    assert!(plan.slug);
    assert!(plan.soft_delete);
    assert!(!plan.metadata);
}

#[test]
fn a_missing_required_field_is_reported() {
    let fields: Vec<String> = ["id", "title", "updated_at"].iter().map(|s| s.to_string()).collect();
    assert_eq!(
        classify_entity_fields(&fields).unwrap_err(),
        "OrmEntity: missing required field `created_at`"
    );
    assert_eq!(
        classify_entity_fields(&Vec::new()).unwrap_err(),
        "OrmEntity: missing required field `id`"
    );
}
