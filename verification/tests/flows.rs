use vibesql_mail::db::{QueryResponse, SqlQuery};
use vibesql_mail::error::ApiError;
use vibesql_mail::json::{JsonField, JsonObject, JsonValue};
use vibesql_mail::mcp::{McpSession, SQL_MARK_READ_FOR, SQL_RECENT, SQL_REPLY_SOURCE, SQL_SEND, SQL_TOTAL_OF, SQL_UNREAD_OF};
use vibesql_mail::mcp_read::{McpReadFlow, McpReadStep, SummaryFlow, SummaryStep};
use vibesql_mail::mcp_send::{reply_source_query, start_reply, McpSendStep};
use vibesql_mail::mcp_start::{StartupFlow, StartupStep};
use vibesql_mail::routes::admin::{StatusFlow, StatusStep, SQL_COUNT_AGENTS, SQL_PROJECT_NAME};
use vibesql_mail::routes::agents::{AgentResolver, ResolveStep, SQL_AGENT_ID_BY_NAME, SQL_REGISTER_NAME, SQL_TOUCH_AGENT};
use vibesql_mail::routes::listing::{InboxFlow, InboxStep, MarkReadFlow, MarkReadStep, SentFlow, SentStep};
use vibesql_mail::routes::messages::{
    InboxQuery, MarkReadRequest, SQL_INBOX_COUNT_UNREAD, SQL_INBOX_PAGE_UNREAD, SQL_MARK_READ,
    SQL_MESSAGE_BY_ID, SQL_RECIPIENTS_OF, SQL_SENT_COUNT, SQL_SENT_PAGE, SQL_SENT_RECIPIENTS,
    SQL_UNREAD_COUNT,
};
use vibesql_mail::routes::reading::{ReadFlow, ReadStep, ThreadFlow, ThreadStep};
use vibesql_mail::routes::threads::SQL_THREAD;
use vibesql_mail::schema::MIGRATION_SQL;
use vibesql_mail::db::migration_statements;

fn f_obj(pairs: Vec<(&str, JsonValue)>) -> JsonObject {
    JsonObject { fields: pairs.into_iter().map(|(k, v)| JsonField { key: k.to_string(), value: v }).collect() }
}

fn f_rows(rows: Vec<JsonObject>) -> QueryResponse {
    QueryResponse { success: Some(true), rows: Some(rows), row_count: None, error: None }
}

fn f_none() -> QueryResponse {
    f_rows(vec![])
}

fn f_s(s: &str) -> JsonValue {
    JsonValue::Str(s.to_string())
}

fn f_count(n: i64) -> QueryResponse {
    f_rows(vec![f_obj(vec![("cnt", JsonValue::Int(n))])])
}

fn f_id(n: i64) -> QueryResponse {
    f_rows(vec![f_obj(vec![("id", JsonValue::Int(n))])])
}

fn same_query(q: &SqlQuery, sql: &str, params: &[JsonValue]) -> bool {
    q.sql == sql
        && q.params.len() == params.len()
        && q.params.iter().zip(params.iter()).all(|(a, b)| match (a, b) {
            (JsonValue::Int(x), JsonValue::Int(y)) => x == y,
            (JsonValue::Str(x), JsonValue::Str(y)) => x == y,
            (JsonValue::Null, JsonValue::Null) => true,
            _ => false,
        })
}

#[test]
fn inbox_listing_queries_then_builds_the_page() {
    let query = InboxQuery { unread: Some(true), page: Some(2), page_size: Some(10) };
    let (flow, q) = InboxFlow::start("BAPert".to_string(), &query);
    assert!(same_query(&q, SQL_AGENT_ID_BY_NAME, &[f_s("BAPert")]));
    let (flow, q) = match flow.resume(Ok(f_id(3))) {
        InboxStep::Query(f, q) => (f, q),
        _ => panic!("expected the count"),
    };
    assert!(same_query(&q, SQL_INBOX_COUNT_UNREAD, &[JsonValue::Int(3)]));
    let (flow, q) = match flow.resume(Ok(f_count(25))) {
        InboxStep::Query(f, q) => (f, q),
        _ => panic!("expected the unread count"),
    };
    assert!(same_query(&q, SQL_UNREAD_COUNT, &[JsonValue::Int(3)]));
    let (flow, q) = match flow.resume(Ok(f_count(25))) {
        InboxStep::Query(f, q) => (f, q),
        _ => panic!("expected the page"),
    };
    assert!(same_query(&q, SQL_INBOX_PAGE_UNREAD, &[JsonValue::Int(3), JsonValue::Int(10), JsonValue::Int(10)]));
    let page = f_rows(vec![f_obj(vec![("inbox_id", JsonValue::Int(1)), ("message_id", JsonValue::Int(940)), ("from_agent", f_s("QAPert"))])]);
    match flow.resume(Ok(page)) {
        InboxStep::Done(p) => {
            assert_eq!(p.data.agent, "BAPert");
            assert_eq!(p.data.unread_count, 25);
            assert_eq!(p.data.messages.len(), 1);
            assert_eq!(p.data.messages[0].from_agent, "QAPert");
            assert_eq!(p.pagination.page, 2);
            assert_eq!(p.pagination.total_count, 25);
            assert_eq!(p.pagination.total_pages, 3);
        }
        _ => panic!("expected the page"),
    }
}

#[test]
fn inbox_listing_errors() {
    let query = InboxQuery { unread: None, page: None, page_size: None };
    let (flow, _) = InboxFlow::start("Ghost".to_string(), &query);
    match flow.resume(Ok(f_none())) {
        InboxStep::Failed(ApiError::NotFound(m)) => assert_eq!(m, "Agent 'Ghost' not found"),
        _ => panic!("expected not found"),
    }
    let (flow, _) = InboxFlow::start("A".to_string(), &query);
    let flow = match flow.resume(Ok(f_id(1))) {
        InboxStep::Query(f, _) => f,
        _ => panic!("expected the count"),
    };
    match flow.resume(Err("SQL error: gone".to_string())) {
        InboxStep::Failed(ApiError::DbError(m)) => assert_eq!(m, "SQL error: gone"),
        _ => panic!("expected a database error"),
    }
}

#[test]
fn sent_listing_asks_count_page_and_recipients() {
    let query = InboxQuery { unread: None, page: None, page_size: None };
    let (flow, _) = SentFlow::start("BAPert".to_string(), &query);
    let (flow, q) = match flow.resume(Ok(f_id(3))) {
        SentStep::Query(f, q) => (f, q),
        _ => panic!("expected the count"),
    };
    assert!(same_query(&q, SQL_SENT_COUNT, &[JsonValue::Int(3)]));
    let (flow, q) = match flow.resume(Ok(f_count(1))) {
        SentStep::Query(f, q) => (f, q),
        _ => panic!("expected the page"),
    };
    assert!(same_query(&q, SQL_SENT_PAGE, &[JsonValue::Int(3), JsonValue::Int(20), JsonValue::Int(0)]));
    let (flow, q) = match flow.resume(Ok(f_rows(vec![f_obj(vec![("message_id", JsonValue::Int(940))])]))) {
        SentStep::Query(f, q) => (f, q),
        _ => panic!("expected the recipients"),
    };
    assert!(same_query(&q, SQL_SENT_RECIPIENTS, &[JsonValue::Int(3), JsonValue::Int(20), JsonValue::Int(0)]));
    let recips = f_rows(vec![
        f_obj(vec![("message_id", JsonValue::Int(940)), ("name", f_s("QAPert")), ("recipient_type", f_s("to"))]),
        f_obj(vec![("message_id", JsonValue::Int(940)), ("name", f_s("Ops")), ("recipient_type", f_s("cc"))]),
    ]);
    match flow.resume(Ok(recips)) {
        SentStep::Done(p) => {
            assert_eq!(p.messages.len(), 1);
            assert_eq!(p.messages[0].to, vec!["QAPert".to_string()]);
            assert_eq!(p.messages[0].cc, vec!["Ops".to_string()]);
            assert_eq!(p.pagination.total_pages, 1);
        }
        _ => panic!("expected the page"),
    }
}

#[test]
fn mark_read_counts_touched_entries() {
    let (flow, q) = MarkReadFlow::start(940, MarkReadRequest { agent: "QAPert".to_string() });
    assert!(same_query(&q, SQL_AGENT_ID_BY_NAME, &[f_s("QAPert")]));
    let (flow, q) = match flow.resume(Ok(f_id(7))) {
        MarkReadStep::Query(f, q) => (f, q),
        _ => panic!("expected the update"),
    };
    assert!(same_query(&q, SQL_MARK_READ, &[JsonValue::Int(940), JsonValue::Int(7)]));
    match flow.resume(Ok(f_id(12))) {
        MarkReadStep::Done(m) => {
            assert_eq!(m.message_id, 940);
            assert_eq!(m.agent, "QAPert");
            assert_eq!(m.marked_read, 1);
        }
        _ => panic!("expected the answer"),
    }
    let (flow, _) = MarkReadFlow::start(1, MarkReadRequest { agent: "Ghost".to_string() });
    assert!(matches!(flow.resume(Ok(f_none())), MarkReadStep::Failed(ApiError::NotFound(_))));
}

#[test]
fn reading_a_message_and_a_thread() {
    let (flow, q) = ReadFlow::start(940);
    assert!(same_query(&q, SQL_MESSAGE_BY_ID, &[JsonValue::Int(940)]));
    let row = f_rows(vec![f_obj(vec![("from_agent", f_s("BAPert")), ("thread_id", f_s("t-1")), ("body", f_s("hi"))])]);
    let (flow, q) = match flow.resume(Ok(row)) {
        ReadStep::Query(f, q) => (f, q),
        _ => panic!("expected the recipients"),
    };
    assert!(same_query(&q, SQL_RECIPIENTS_OF, &[JsonValue::Int(940)]));
    let recips = f_rows(vec![f_obj(vec![("name", f_s("QAPert")), ("recipient_type", f_s("to"))])]);
    match flow.resume(Ok(recips)) {
        ReadStep::Done(r) => {
            assert_eq!(r.message_id, 940);
            assert_eq!(r.from_agent, "BAPert");
            assert_eq!(r.to, vec!["QAPert".to_string()]);
            assert_eq!(r.thread_id, "t-1");
            assert_eq!(r.body_format, "markdown");
        }
        _ => panic!("expected the message"),
    }
    let (flow, _) = ReadFlow::start(5);
    match flow.resume(Ok(f_none())) {
        ReadStep::Failed(ApiError::NotFound(m)) => assert_eq!(m, "Message 5 not found"),
        _ => panic!("expected not found"),
    }

    let (flow, q) = ThreadFlow::start("t-1".to_string());
    assert!(same_query(&q, SQL_THREAD, &[f_s("t-1")]));
    let msgs = f_rows(vec![
        f_obj(vec![("message_id", JsonValue::Int(1)), ("from_agent", f_s("A"))]),
        f_obj(vec![("message_id", JsonValue::Int(2)), ("from_agent", f_s("B"))]),
    ]);
    let (flow, q) = match flow.resume(Ok(msgs)) {
        ThreadStep::Query(f, q) => (f, q),
        _ => panic!("expected the first recipients"),
    };
    assert!(same_query(&q, SQL_RECIPIENTS_OF, &[JsonValue::Int(1)]));
    let (flow, q) = match flow.resume(Ok(f_rows(vec![f_obj(vec![("name", f_s("B"))])]))) {
        ThreadStep::Query(f, q) => (f, q),
        _ => panic!("expected the second recipients"),
    };
    assert!(same_query(&q, SQL_RECIPIENTS_OF, &[JsonValue::Int(2)]));
    match flow.resume(Ok(f_rows(vec![f_obj(vec![("name", f_s("A")), ("recipient_type", f_s("cc"))])]))) {
        ThreadStep::Done(t) => {
            assert_eq!(t.thread_id, "t-1");
            assert_eq!(t.message_count, 2);
            assert_eq!(t.messages[0].to, vec!["B".to_string()]);
            assert_eq!(t.messages[1].cc, vec!["A".to_string()]);
        }
        _ => panic!("expected the thread"),
    }
    let (flow, _) = ThreadFlow::start("none".to_string());
    match flow.resume(Ok(f_none())) {
        ThreadStep::Failed(ApiError::NotFound(m)) => assert_eq!(m, "Thread 'none' not found"),
        _ => panic!("expected not found"),
    }
}

#[test]
fn status_leaves_out_a_missing_project_name() {
    let (flow, q) = StatusFlow::start();
    assert!(same_query(&q, SQL_COUNT_AGENTS, &[]));
    let flow = match flow.resume(Ok(f_count(4))) {
        StatusStep::Query(f, _) => f,
        _ => panic!("expected the message count"),
    };
    let flow = match flow.resume(Ok(f_count(9))) {
        StatusStep::Query(f, _) => f,
        _ => panic!("expected the unread count"),
    };
    let (flow, q) = match flow.resume(Ok(f_count(2))) {
        StatusStep::Query(f, q) => (f, q),
        _ => panic!("expected the project name"),
    };
    assert!(same_query(&q, SQL_PROJECT_NAME, &[]));
    match flow.resume(Err("no table".to_string())) {
        StatusStep::Done(s) => {
            assert_eq!((s.agents, s.messages, s.unread_inbox), (4, 9, 2));
            assert!(s.project_name.is_none());
        }
        _ => panic!("expected the status"),
    }
    let (flow, _) = StatusFlow::start();
    assert!(matches!(flow.resume(Err("down".to_string())), StatusStep::Failed(ApiError::DbError(_))));
}

#[test]
fn mcp_summary_and_read() {
    let (flow, _) = SummaryFlow::start("BAPert");
    let (flow, q) = match flow.resume(Ok(f_id(3))) {
        SummaryStep::Query(f, q) => (f, q),
        _ => panic!("expected the unread count"),
    };
    assert!(same_query(&q, SQL_UNREAD_OF, &[JsonValue::Int(3)]));
    let (flow, q) = match flow.resume(Ok(f_count(1))) {
        SummaryStep::Query(f, q) => (f, q),
        _ => panic!("expected the total"),
    };
    assert!(same_query(&q, SQL_TOTAL_OF, &[JsonValue::Int(3)]));
    let (flow, q) = match flow.resume(Ok(f_count(2))) {
        SummaryStep::Query(f, q) => (f, q),
        _ => panic!("expected the recent entries"),
    };
    assert!(same_query(&q, SQL_RECENT, &[JsonValue::Int(3)]));
    match flow.resume(Ok(f_none())) {
        SummaryStep::Done(t) => assert_eq!(t, "Inbox for BAPert (1 unread of 2 total)\n\n  (no messages)\n\n* = unread"),
        _ => panic!("expected the summary"),
    }
    let (flow, _) = SummaryFlow::start("Ghost");
    match flow.resume(Ok(f_none())) {
        SummaryStep::Failed(m) => assert_eq!(m, "Agent 'Ghost' not found"),
        _ => panic!("expected not found"),
    }

    let (flow, _) = McpReadFlow::start(940, 3);
    let row = f_rows(vec![f_obj(vec![("from_agent", f_s("QAPert")), ("subject", f_s("Hi")), ("body", f_s("Body")), ("thread_id", f_s("t"))])]);
    let flow = match flow.resume(Ok(row)) {
        McpReadStep::Query(f, _) => f,
        _ => panic!("expected the recipients"),
    };
    let (flow, q) = match flow.resume(Ok(f_rows(vec![f_obj(vec![("name", f_s("BAPert"))])]))) {
        McpReadStep::Query(f, q) => (f, q),
        _ => panic!("expected the mark-read update"),
    };
    assert!(same_query(&q, SQL_MARK_READ_FOR, &[JsonValue::Int(940), JsonValue::Int(3)]));
    match flow.resume(Err("update failed".to_string())) {
        McpReadStep::Done(t) => assert_eq!(t, "Message #940\nFrom: QAPert\nTo: BAPert\nDate: \nThread: t\nSubject: Hi\n\nBody"),
        _ => panic!("expected the message"),
    }
}

#[test]
fn mcp_reply_goes_back_to_the_sender_in_the_thread() {
    assert!(same_query(&reply_source_query(940), SQL_REPLY_SOURCE, &[JsonValue::Int(940)]));
    let source = f_rows(vec![f_obj(vec![("from_agent", f_s("QAPert")), ("subject", f_s("Deploy")), ("thread_id", f_s("t-7"))])]);
    match start_reply(&source, 940, 3, "Thanks") {
        Ok(McpSendStep::Query(f, q)) => {
            assert_eq!(f.to, vec!["QAPert".to_string()]);
            assert!(f.cc.is_empty());
            assert_eq!(f.subject, "RE: Deploy");
            assert_eq!(f.thread_id, "t-7");
            assert!(same_query(&q, SQL_SEND, &[JsonValue::Int(3), f_s("t-7"), f_s("RE: Deploy"), f_s("Thanks"), f_s("normal")]));
        }
        _ => panic!("expected the insert"),
    }
    match start_reply(&f_none(), 41, 3, "x") {
        Err(m) => assert_eq!(m, "Message 41 not found"),
        Ok(_) => panic!("expected not found"),
    }
    match start_reply(&source, 940, 3, "") {
        Err(m) => assert_eq!(m, "Body cannot be empty"),
        Ok(_) => panic!("expected a refusal"),
    }
    match start_reply(&source, 940, 3, &"x".repeat(65537)) {
        Err(m) => assert_eq!(m, "Body exceeds max size of 65536 bytes"),
        Ok(_) => panic!("expected a refusal"),
    }
    assert!(start_reply(&source, 940, 3, &"x".repeat(65536)).is_ok());
}

#[test]
fn mcp_start_up_applies_the_schema_then_resolves() {
    let session = McpSession::new("BAPert".to_string(), "http://h:1".to_string());
    let statements = migration_statements(MIGRATION_SQL);
    assert!(!statements.is_empty());
    assert!(statements.iter().all(|s| !s.trim_start().starts_with("--") && s.ends_with(';')));
    let mut step = StartupFlow::start(&session);
    for (i, stmt) in statements.iter().enumerate() {
        let (flow, q) = match step {
            StartupStep::Query(f, q) => (f, q),
            _ => panic!("expected a statement"),
        };
        assert_eq!(&q.sql, stmt);
        let outcome = if i == 0 { Err("SQL error: relation \"agents\" already exists".to_string()) } else { Ok(f_none()) };
        step = flow.resume(&session, outcome);
    }
    let (flow, q) = match step {
        StartupStep::Query(f, q) => (f, q),
        _ => panic!("expected the lookup"),
    };
    assert!(same_query(&q, SQL_AGENT_ID_BY_NAME, &[f_s("BAPert")]));
    let (flow, q) = match flow.resume(&session, Ok(f_none())) {
        StartupStep::Query(f, q) => (f, q),
        _ => panic!("expected the registration"),
    };
    assert!(same_query(&q, SQL_REGISTER_NAME, &[f_s("BAPert")]));
    assert!(matches!(flow.resume(&session, Ok(f_id(12))), StartupStep::Ready(12)));

    let step = StartupFlow::start(&session);
    let flow = match step {
        StartupStep::Query(f, _) => f,
        _ => panic!("expected a statement"),
    };
    match flow.resume(&session, Err("Failed to reach vibesql-micro: refused".to_string())) {
        StartupStep::Failed(m) => assert_eq!(
            m,
            "Cannot reach vibesql-micro (http://h:1). Is it running? Error: Failed to reach vibesql-micro: refused"
        ),
        _ => panic!("expected a failure"),
    }
}

#[test]
fn second_mark_read_reports_none() {
    // The same request twice: the update reports one entry the first time,
    // and none once that entry is read.
    let mut answers = Vec::new();
    for touched in [vec![f_obj(vec![("id", JsonValue::Int(31))])], vec![]] {
        let (flow, _) = MarkReadFlow::start(940, MarkReadRequest { agent: "QAPert".to_string() });
        let flow = match flow.resume(Ok(f_id(7))) {
            MarkReadStep::Query(f, _) => f,
            _ => panic!("expected the update"),
        };
        match flow.resume(Ok(f_rows(touched))) {
            MarkReadStep::Done(m) => answers.push(m.marked_read),
            _ => panic!("expected the answer"),
        }
    }
    assert_eq!(answers, vec![1, 0]);
}

#[test]
fn second_resolution_registers_nothing() {
    // First: the name is unknown, so it is registered and gets id 5.
    let (mut r, _) = AgentResolver::start("NewPert");
    match r.resume(Ok(f_none())) {
        ResolveStep::Query(q) => assert!(same_query(&q, SQL_REGISTER_NAME, &[f_s("NewPert")])),
        _ => panic!("expected the registration"),
    }
    assert!(matches!(r.resume(Ok(f_id(5))), ResolveStep::Resolved(5)));
    // Second: the lookup finds id 5; only its activity is recorded.
    let (mut r, _) = AgentResolver::start("NewPert");
    match r.resume(Ok(f_id(5))) {
        ResolveStep::Query(q) => assert!(same_query(&q, SQL_TOUCH_AGENT, &[JsonValue::Int(5)])),
        _ => panic!("expected the activity update"),
    }
    assert!(matches!(r.resume(Ok(f_none())), ResolveStep::Resolved(5)));
}
