use dbcore::sql::build_delete_statement;
use dbcore::sql::build_insert_statement;
use dbcore::sql::build_table_ref;
use dbcore::sql::build_update_statement;
use dbcore::sql::escape_sql_identifier;
use dbcore::sql::format_sql_value;
use dbcore::sql::validate_raw_sql;
use dbcore::sql::RawSqlError;
use dbcore::value::render_json;
use dbcore::value::Value;

#[test]
fn escape_plain_identifier() {
    assert_eq!(escape_sql_identifier("users"), "\"users\"");
}

#[test]
fn escape_identifier_doubles_quotes() {
    assert_eq!(escape_sql_identifier("a\"b"), "\"a\"\"b\"");
}

#[test]
fn escape_identifier_empty() {
    assert_eq!(escape_sql_identifier(""), "\"\"");
}

#[test]
fn format_null_value() {
    assert_eq!(format_sql_value(&Value::Null), "NULL");
}

#[test]
fn format_bool_values() {
    assert_eq!(format_sql_value(&Value::Bool(true)), "TRUE");
    assert_eq!(format_sql_value(&Value::Bool(false)), "FALSE");
}

#[test]
fn format_number_as_is() {
    assert_eq!(format_sql_value(&Value::integer(42)), "42");
    assert_eq!(format_sql_value(&Value::integer(-7)), "-7");
    assert_eq!(format_sql_value(&Value::Number("3.25".to_string())), "3.25");
}

#[test]
fn format_string_doubles_single_quotes() {
    assert_eq!(
        format_sql_value(&Value::Str("O'Brien".to_string())),
        "'O''Brien'"
    );
}

#[test]
fn format_array_as_quoted_json() {
    let v = Value::Array(vec![Value::integer(1), Value::Str("a'b".to_string())]);
    assert_eq!(format_sql_value(&v), "'[1,\"a''b\"]'");
}

#[test]
fn format_object_as_quoted_json() {
    let v = Value::Object(vec![
        ("k".to_string(), Value::Bool(true)),
        ("n".to_string(), Value::Null),
    ]);
    assert_eq!(format_sql_value(&v), "'{\"k\":true,\"n\":null}'");
}

#[test]
fn json_escapes_control_characters() {
    let v = Value::Str("a\"b\\c\nd\te".to_string());
    assert_eq!(render_json(&v), "\"a\\\"b\\\\c\\nd\\te\"");
}

#[test]
fn validate_raw_sql_accepts_now() {
    assert!(validate_raw_sql("now()").is_ok());
    assert!(validate_raw_sql("NOW()").is_ok());
    assert!(validate_raw_sql("CURRENT_TIMESTAMP").is_ok());
    assert!(validate_raw_sql("gen_random_uuid()").is_ok());
}

#[test]
fn validate_raw_sql_rejects_injection_with_diagnostic() {
    match validate_raw_sql("now(); DROP TABLE x") {
        Err(RawSqlError::Dangerous(p)) => assert_eq!(p, ";"),
        other => panic!("expected a dangerous-pattern rejection, got {:?}", other.is_ok()),
    }
}

#[test]
fn validate_raw_sql_rejects_dangerous_keyword() {
    match validate_raw_sql("drop table x") {
        Err(RawSqlError::Dangerous(p)) => assert_eq!(p, "drop"),
        _ => panic!("expected a dangerous-pattern rejection"),
    }
}

#[test]
fn validate_raw_sql_rejects_unlisted_select() {
    match validate_raw_sql("SELECT 1") {
        Err(RawSqlError::NotAllowed) => {}
        _ => panic!("expected a not-on-the-allow-list rejection"),
    }
}

#[test]
fn validate_raw_sql_message_texts() {
    let e = validate_raw_sql("now(); DROP TABLE x").unwrap_err();
    assert_eq!(
        e.message(),
        "Raw SQL rejected: dangerous pattern ';' found"
    );
    let e2 = validate_raw_sql("SELECT 1").unwrap_err();
    assert_eq!(e2.message(), "Raw SQL rejected: not in the allow list");
}

#[test]
fn table_ref_sqlite_omits_schema() {
    assert_eq!(build_table_ref("sqlite", "main", "t"), "\"t\"");
    assert_eq!(build_table_ref("sqlite3", "main", "t"), "\"t\"");
}

#[test]
fn table_ref_qualified_for_others() {
    assert_eq!(build_table_ref("postgres", "public", "t"), "\"public\".\"t\"");
}

#[test]
fn update_statement_text() {
    let pk_cols = vec!["id".to_string()];
    let pk_vals = vec![Value::integer(3)];
    let updates = vec![
        ("name".to_string(), Value::Str("x".to_string())),
        ("age".to_string(), Value::integer(30)),
    ];
    let q = build_update_statement("postgres", "public", "users", &pk_cols, &pk_vals, &updates)
        .unwrap();
    assert_eq!(
        q,
        "UPDATE \"public\".\"users\" SET \"name\" = 'x', \"age\" = 30 WHERE \"id\" = 3"
    );
}

#[test]
fn update_statement_rejects_pk_mismatch_before_building() {
    let pk_cols = vec!["id".to_string(), "k".to_string()];
    let pk_vals = vec![Value::integer(3)];
    let updates = vec![("name".to_string(), Value::Null)];
    let e = build_update_statement("postgres", "public", "users", &pk_cols, &pk_vals, &updates)
        .unwrap_err();
    assert_eq!(e, "Primary key columns and values must match");
}

#[test]
fn update_statement_rejects_empty_pk() {
    let pk_cols: Vec<String> = vec![];
    let pk_vals: Vec<Value> = vec![];
    let updates = vec![("name".to_string(), Value::Null)];
    let e = build_update_statement("postgres", "public", "users", &pk_cols, &pk_vals, &updates)
        .unwrap_err();
    assert_eq!(e, "Primary key columns and values must match");
}

#[test]
fn update_statement_rejects_empty_updates() {
    let pk_cols = vec!["id".to_string()];
    let pk_vals = vec![Value::integer(3)];
    let updates: Vec<(String, Value)> = vec![];
    let e = build_update_statement("postgres", "public", "users", &pk_cols, &pk_vals, &updates)
        .unwrap_err();
    assert_eq!(e, "No updates provided");
}

#[test]
fn delete_statement_text() {
    let pk_cols = vec!["id".to_string(), "k".to_string()];
    let pk_vals = vec![Value::integer(3), Value::Str("a".to_string())];
    let q = build_delete_statement("sqlite", "main", "users", &pk_cols, &pk_vals).unwrap();
    assert_eq!(q, "DELETE FROM \"users\" WHERE \"id\" = 3 AND \"k\" = 'a'");
}

#[test]
fn delete_statement_rejects_pk_mismatch() {
    let pk_cols = vec!["id".to_string()];
    let pk_vals: Vec<Value> = vec![];
    let e = build_delete_statement("sqlite", "main", "users", &pk_cols, &pk_vals).unwrap_err();
    assert_eq!(e, "Primary key columns and values must match");
}

#[test]
fn insert_statement_text() {
    let cols = vec!["id".to_string(), "name".to_string()];
    let vals = vec![Value::integer(1), Value::Str("a".to_string())];
    let q = build_insert_statement("postgres", "public", "users", &cols, &vals).unwrap();
    assert_eq!(
        q,
        "INSERT INTO \"public\".\"users\" (\"id\", \"name\") VALUES (1, 'a')"
    );
}

#[test]
fn insert_statement_rejects_empty_and_mismatch() {
    let none: Vec<String> = vec![];
    let vals = vec![Value::integer(1)];
    assert_eq!(
        build_insert_statement("postgres", "p", "t", &none, &vals).unwrap_err(),
        "No columns provided"
    );
    let cols = vec!["id".to_string(), "name".to_string()];
    assert_eq!(
        build_insert_statement("postgres", "p", "t", &cols, &vals).unwrap_err(),
        "Column and value counts must match"
    );
}
