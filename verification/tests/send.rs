use vibesql_mail::db::{QueryResponse, SqlQuery};
use vibesql_mail::error::ApiError;
use vibesql_mail::json::{JsonField, JsonObject, JsonValue};
use vibesql_mail::mcp::SQL_SEND;
use vibesql_mail::mcp_send::{McpSendFlow, McpSendStep};
use vibesql_mail::models::SendMessageRequest;
use vibesql_mail::routes::agents::{ResolveError, SQL_AGENT_ID_BY_NAME, SQL_REGISTER_NAME, SQL_TOUCH_AGENT};
use vibesql_mail::routes::delivery::{DeliveryRun, DeliveryStep};
use vibesql_mail::routes::messages::{SQL_INBOX_CC, SQL_INBOX_TO, SQL_INSERT_MESSAGE};
use vibesql_mail::routes::send::{SendFlow, SendStep};

fn s_row(pairs: Vec<(&str, JsonValue)>) -> QueryResponse {
    let obj = JsonObject {
        fields: pairs.into_iter().map(|(k, v)| JsonField { key: k.to_string(), value: v }).collect(),
    };
    QueryResponse { success: Some(true), rows: Some(vec![obj]), row_count: Some(1), error: None }
}

fn s_empty() -> QueryResponse {
    QueryResponse { success: Some(true), rows: Some(vec![]), row_count: Some(0), error: None }
}

fn s_id(id: i64) -> QueryResponse {
    s_row(vec![("id", JsonValue::Int(id))])
}

fn s_str(s: &str) -> JsonValue {
    JsonValue::Str(s.to_string())
}

fn is_query(q: &SqlQuery, sql: &str, params: &[JsonValue]) -> bool {
    q.sql == sql
        && q.params.len() == params.len()
        && q.params.iter().zip(params.iter()).all(|(a, b)| match (a, b) {
            (JsonValue::Int(x), JsonValue::Int(y)) => x == y,
            (JsonValue::Str(x), JsonValue::Str(y)) => x == y,
            (JsonValue::Null, JsonValue::Null) => true,
            _ => false,
        })
}

fn http_request(to: &[&str], cc: &[&str]) -> SendMessageRequest {
    SendMessageRequest {
        from_agent: "BAPert".to_string(),
        to: to.iter().map(|s| s.to_string()).collect(),
        cc: cc.iter().map(|s| s.to_string()).collect(),
        subject: Some("Deploy ready".to_string()),
        body: "All green.".to_string(),
        body_format: "markdown".to_string(),
        importance: "high".to_string(),
        thread_id: Some("t-42".to_string()),
    }
}

fn expect_send_query(step: SendStep, sql: &str, params: &[JsonValue]) -> SendFlow {
    match step {
        SendStep::Query(f, q) => {
            assert!(is_query(&q, sql, params), "unexpected query {}", q.sql);
            f
        }
        SendStep::Sent(_) => panic!("sent too early"),
        SendStep::Failed(e) => panic!("failed: {}", e.message()),
    }
}

#[test]
fn delivery_resolves_each_recipient_then_writes_its_entry() {
    let targets = vec![("QAPert".to_string(), false), ("Ops".to_string(), true)];
    let (mut run, step) = DeliveryRun::start(940, targets);
    assert!(matches!(step, DeliveryStep::Query(ref q) if is_query(q, SQL_AGENT_ID_BY_NAME, &[s_str("QAPert")])));
    assert!(matches!(run.resume(Ok(s_id(7))), DeliveryStep::Query(ref q) if is_query(q, SQL_TOUCH_AGENT, &[JsonValue::Int(7)])));
    assert!(matches!(run.resume(Ok(s_empty())), DeliveryStep::Query(ref q) if is_query(q, SQL_INBOX_TO, &[JsonValue::Int(940), JsonValue::Int(7)])));
    assert!(matches!(run.resume(Ok(s_empty())), DeliveryStep::Query(ref q) if is_query(q, SQL_AGENT_ID_BY_NAME, &[s_str("Ops")])));
    assert!(matches!(run.resume(Ok(s_empty())), DeliveryStep::Query(ref q) if is_query(q, SQL_REGISTER_NAME, &[s_str("Ops")])));
    assert!(matches!(run.resume(Ok(s_id(8))), DeliveryStep::Query(ref q) if is_query(q, SQL_INBOX_CC, &[JsonValue::Int(940), JsonValue::Int(8)])));
    assert!(matches!(run.resume(Ok(s_empty())), DeliveryStep::Delivered));
}

#[test]
fn delivery_stops_at_the_first_failure() {
    let (mut run, _) = DeliveryRun::start(1, vec![("A".to_string(), false), ("B".to_string(), false)]);
    assert!(matches!(run.resume(Ok(s_id(2))), DeliveryStep::Query(_)));
    assert!(matches!(run.resume(Ok(s_empty())), DeliveryStep::Query(_)));
    match run.resume(Err("disk full".to_string())) {
        DeliveryStep::Failed(ResolveError::Db(m)) => assert_eq!(m, "disk full"),
        _ => panic!("expected a failure"),
    }
    let (_, nothing) = DeliveryRun::start(1, vec![]);
    assert!(matches!(nothing, DeliveryStep::Delivered));
}

#[test]
fn http_send_runs_every_query_in_order() {
    let step = SendFlow::start(http_request(&["QAPert"], &["Ops"]));
    let f = expect_send_query(step, SQL_AGENT_ID_BY_NAME, &[s_str("BAPert")]);
    assert_eq!(f.thread_id, "t-42");
    let f = expect_send_query(f.resume(Ok(s_id(3))), SQL_TOUCH_AGENT, &[JsonValue::Int(3)]);
    let insert = [
        JsonValue::Int(3),
        s_str("t-42"),
        s_str("Deploy ready"),
        s_str("All green."),
        s_str("markdown"),
        s_str("high"),
    ];
    let f = expect_send_query(f.resume(Err("touch failed".to_string())), SQL_INSERT_MESSAGE, &insert);
    let stored = s_row(vec![("id", JsonValue::Int(940)), ("created_at", s_str("2026-03-22 10:00:00"))]);
    let f = expect_send_query(f.resume(Ok(stored)), SQL_AGENT_ID_BY_NAME, &[s_str("QAPert")]);
    let f = expect_send_query(f.resume(Ok(s_id(7))), SQL_TOUCH_AGENT, &[JsonValue::Int(7)]);
    let f = expect_send_query(f.resume(Ok(s_empty())), SQL_INBOX_TO, &[JsonValue::Int(940), JsonValue::Int(7)]);
    let f = expect_send_query(f.resume(Ok(s_empty())), SQL_AGENT_ID_BY_NAME, &[s_str("Ops")]);
    let f = expect_send_query(f.resume(Ok(s_id(8))), SQL_TOUCH_AGENT, &[JsonValue::Int(8)]);
    let f = expect_send_query(f.resume(Ok(s_empty())), SQL_INBOX_CC, &[JsonValue::Int(940), JsonValue::Int(8)]);
    match f.resume(Ok(s_empty())) {
        SendStep::Sent(m) => {
            assert_eq!(m.response.message_id, 940);
            assert_eq!(m.response.thread_id, "t-42");
            assert_eq!(m.response.from_agent, "BAPert");
            assert_eq!(m.response.to, vec!["QAPert".to_string()]);
            assert_eq!(m.response.cc, vec!["Ops".to_string()]);
            assert_eq!(m.response.subject.as_deref(), Some("Deploy ready"));
            assert_eq!(m.response.importance, "high");
            assert_eq!(m.response.created_at, "2026-03-22 10:00:00");
            assert_eq!(m.notify, vec!["QAPert".to_string(), "Ops".to_string()]);
            assert_eq!(m.event, "{\"from\":\"BAPert\",\"message_id\":940,\"subject\":\"Deploy ready\"}");
        }
        _ => panic!("expected the send to complete"),
    }
}

#[test]
fn http_send_failures() {
    match SendFlow::start(http_request(&[], &["Ops"])) {
        SendStep::Failed(ApiError::BadRequest(m)) => assert_eq!(m, "'to' must have at least one recipient"),
        _ => panic!("expected a refusal"),
    }
    let mut req = http_request(&["QAPert"], &[]);
    req.thread_id = None;
    let f = expect_send_query(SendFlow::start(req), SQL_AGENT_ID_BY_NAME, &[s_str("BAPert")]);
    assert_eq!(f.thread_id.len(), 16);
    assert!(f.thread_id.chars().all(|c| c.is_ascii_hexdigit() && !c.is_ascii_uppercase()));
    match f.resume(Err("Failed to reach vibesql-micro: refused".to_string())) {
        SendStep::Failed(ApiError::DbError(m)) => assert_eq!(m, "Failed to reach vibesql-micro: refused"),
        _ => panic!("expected a database error"),
    }
    let f = expect_send_query(SendFlow::start(http_request(&["QAPert"], &[])), SQL_AGENT_ID_BY_NAME, &[s_str("BAPert")]);
    let f = expect_send_query(f.resume(Ok(s_empty())), SQL_REGISTER_NAME, &[s_str("BAPert")]);
    match f.resume(Ok(s_empty())) {
        SendStep::Failed(ApiError::Internal(m)) => assert_eq!(m, "Failed to register agent"),
        _ => panic!("expected an internal error"),
    }
    let f = expect_send_query(SendFlow::start(http_request(&["QAPert"], &[])), SQL_AGENT_ID_BY_NAME, &[s_str("BAPert")]);
    let f = expect_send_query(f.resume(Ok(s_id(3))), SQL_TOUCH_AGENT, &[JsonValue::Int(3)]);
    let f = match f.resume(Ok(s_empty())) {
        SendStep::Query(f, _) => f,
        _ => panic!("expected the insert"),
    };
    match f.resume(Ok(s_empty())) {
        SendStep::Failed(ApiError::Internal(m)) => assert_eq!(m, "Failed to insert message"),
        _ => panic!("expected an internal error"),
    }
}

#[test]
fn mcp_send_stores_then_delivers() {
    let step = McpSendFlow::start(
        5,
        vec!["QAPert".to_string()],
        vec![],
        "RE: Deploy".to_string(),
        "Thanks",
        Some("t-9"),
        "normal",
    );
    let f = match step {
        McpSendStep::Query(f, q) => {
            assert!(is_query(
                &q,
                SQL_SEND,
                &[JsonValue::Int(5), s_str("t-9"), s_str("RE: Deploy"), s_str("Thanks"), s_str("normal")]
            ));
            f
        }
        _ => panic!("expected the insert"),
    };
    let f = match f.resume(Ok(s_id(41))) {
        McpSendStep::Query(f, q) => {
            assert!(is_query(&q, SQL_AGENT_ID_BY_NAME, &[s_str("QAPert")]));
            f
        }
        _ => panic!("expected the lookup"),
    };
    let f = match f.resume(Ok(s_id(7))) {
        McpSendStep::Query(f, _) => f,
        _ => panic!("expected the touch"),
    };
    let f = match f.resume(Ok(s_empty())) {
        McpSendStep::Query(f, q) => {
            assert!(is_query(&q, SQL_INBOX_TO, &[JsonValue::Int(41), JsonValue::Int(7)]));
            f
        }
        _ => panic!("expected the inbox entry"),
    };
    match f.resume(Ok(s_empty())) {
        McpSendStep::Sent(t) => assert_eq!(t, "Message sent (ID: 41)\nThread: t-9\nTo: QAPert\nSubject: RE: Deploy"),
        _ => panic!("expected the send to complete"),
    }
}

#[test]
fn mcp_send_failures_and_fresh_threads() {
    let f = match McpSendFlow::start(5, vec!["A".to_string()], vec![], "s".to_string(), "b", Some(""), "low") {
        McpSendStep::Query(f, _) => f,
        _ => panic!("expected the insert"),
    };
    assert_eq!(f.thread_id.len(), 16);
    match f.resume(Ok(s_empty())) {
        McpSendStep::Failed(m) => assert_eq!(m, "Failed to insert message"),
        _ => panic!("expected a failure"),
    }
    let f = match McpSendFlow::start(5, vec!["A".to_string()], vec![], "s".to_string(), "b", None, "low") {
        McpSendStep::Query(f, _) => f,
        _ => panic!("expected the insert"),
    };
    let f = match f.resume(Ok(s_id(1))) {
        McpSendStep::Query(f, _) => f,
        _ => panic!("expected the lookup"),
    };
    match f.resume(Err("SQL error: boom".to_string())) {
        McpSendStep::Failed(m) => assert_eq!(m, "SQL error: boom"),
        _ => panic!("expected a failure"),
    }
}
