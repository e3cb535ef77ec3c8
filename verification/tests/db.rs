use vibesql_mail::db::{
    is_ignorable_error, migration_statements, DbClient, MigrationRun, MigrationStep, QueryResponse,
};
use vibesql_mail::json::{JsonField, JsonObject, JsonValue};

fn db_obj(pairs: Vec<(&str, JsonValue)>) -> JsonObject {
    JsonObject {
        fields: pairs.into_iter().map(|(k, v)| JsonField { key: k.to_string(), value: v }).collect(),
    }
}

fn db_resp(rows: Option<Vec<JsonObject>>, error: Option<JsonObject>) -> QueryResponse {
    QueryResponse { success: Some(error.is_none()), rows, row_count: None, error }
}

fn s(v: &str) -> JsonValue {
    JsonValue::Str(v.to_string())
}

#[test]
fn client_trims_trailing_slashes() {
    assert_eq!(DbClient::new("http://localhost:5173/").micro_url, "http://localhost:5173");
    assert_eq!(DbClient::new("http://h//").micro_url, "http://h");
    assert_eq!(DbClient::new("http://h").micro_url, "http://h");
    assert_eq!(DbClient::new("///").micro_url, "");
    assert_eq!(DbClient::new("http://h/").query_url(), "http://h/v1/query");
    let once = DbClient::new("http://h///").micro_url;
    assert_eq!(DbClient::new(&once).micro_url, once);
}

#[test]
fn reported_errors_become_sql_errors() {
    let detail = db_resp(None, Some(db_obj(vec![("message", s("m")), ("detail", s("d"))])));
    assert_eq!(DbClient::check_response(detail).err(), Some("SQL error: d".to_string()));
    let message = db_resp(None, Some(db_obj(vec![("code", s("42P01")), ("message", s("no table"))])));
    assert_eq!(DbClient::check_response(message).err(), Some("SQL error: no table".to_string()));
    // A detail that is not text is not replaced by the message.
    let odd = db_resp(None, Some(db_obj(vec![("detail", JsonValue::Null), ("message", s("m"))])));
    assert_eq!(DbClient::check_response(odd).err(), Some("SQL error: Unknown error".to_string()));
    let bare = db_resp(None, Some(JsonObject { fields: vec![] }));
    assert_eq!(DbClient::check_response(bare).err(), Some("SQL error: Unknown error".to_string()));
    let ok = db_resp(Some(vec![db_obj(vec![("id", JsonValue::Int(3))])]), None);
    let back = DbClient::check_response(ok).ok().unwrap();
    assert_eq!(DbClient::field_i64(&back, 0, "id"), Some(3));
}

#[test]
fn field_accessors() {
    let r = db_resp(
        Some(vec![db_obj(vec![
            ("id", JsonValue::Int(7)),
            ("name", s("BAPert")),
            ("big", JsonValue::Number),
            ("flag", JsonValue::Bool(true)),
        ])]),
        None,
    );
    assert_eq!(DbClient::field_i64(&r, 0, "id"), Some(7));
    assert_eq!(DbClient::field_i64(&r, 0, "name"), None);
    assert_eq!(DbClient::field_i64(&r, 0, "big"), None);
    assert_eq!(DbClient::field_i64(&r, 1, "id"), None);
    assert_eq!(DbClient::field_str(&r, 0, "name"), Some("BAPert".to_string()));
    assert_eq!(DbClient::field_str(&r, 0, "id"), None);
    assert!(matches!(DbClient::field(&r, 0, "flag"), Some(JsonValue::Bool(true))));
    assert!(DbClient::field(&r, 0, "missing").is_none());
    let none = db_resp(None, None);
    assert_eq!(DbClient::field_i64(&none, 0, "id"), None);
    assert!(matches!(vibesql_mail::db::opt_str(Some("x")), JsonValue::Str(ref v) if v == "x"));
    assert!(matches!(vibesql_mail::db::opt_str(None), JsonValue::Null));
}

const SCRIPT: &str = "-- schema\nCREATE TABLE a (id int);\n\n  -- second\nCREATE INDEX i ON a (id); -- trailing\n;\n  \n";

#[test]
fn migration_statements_drop_comments_and_blanks() {
    let st = migration_statements(SCRIPT);
    assert_eq!(st, vec!["CREATE TABLE a (id int);", "CREATE INDEX i ON a (id);"]);
    assert!(migration_statements("").is_empty());
    assert!(migration_statements(" ; ;\n-- only a comment\n;").is_empty());
    assert_eq!(migration_statements("SELECT 1"), vec!["SELECT 1;"]);
}

#[test]
fn migration_run_continues_past_existing_objects() {
    let (mut run, step) = MigrationRun::start("CREATE TABLE a (x int);CREATE TABLE b (y int);");
    match step {
        MigrationStep::Execute(q) => {
            assert_eq!(q.sql, "CREATE TABLE a (x int);");
            assert!(q.params.is_empty());
        },
        _ => panic!("expected a statement"),
    }
    match run.resume(Err("SQL error: relation \"a\" already exists".to_string())) {
        MigrationStep::Execute(q) => assert_eq!(q.sql, "CREATE TABLE b (y int);"),
        _ => panic!("expected the second statement"),
    }
    assert!(matches!(run.resume(Ok(())), MigrationStep::Finished));
}

#[test]
fn migration_run_stops_on_other_errors() {
    let (mut run, step) = MigrationRun::start("CREATE TABLE a (x int);CREATE TABLE b (y int);");
    assert!(matches!(step, MigrationStep::Execute(_)));
    match run.resume(Err("Failed to reach vibesql-micro: refused".to_string())) {
        MigrationStep::Failed(e) => assert_eq!(e, "Failed to reach vibesql-micro: refused"),
        _ => panic!("expected a failure"),
    }
    let (_, empty) = MigrationRun::start("  ");
    assert!(matches!(empty, MigrationStep::Finished));
    assert!(is_ignorable_error("index already exists"));
    assert!(!is_ignorable_error("Already Exists"));
}
