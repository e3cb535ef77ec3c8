use vibesql_mail::db::QueryResponse;
use vibesql_mail::error::ApiError;
use vibesql_mail::json::{JsonField, JsonObject, JsonValue};
use vibesql_mail::models::{RegisterAgentRequest, SendMessageRequest};
use vibesql_mail::routes::admin::{
    project_name_query, setting_query, settings_from, status_queries, status_report, InitRequest,
    SettingRequest, SQL_COUNT_AGENTS,
};
use vibesql_mail::routes::agents::{
    list_agents, list_agents_query, register_query, registered_agent, validate_agent_name,
    AgentResolver, ResolveError, ResolvePhase, ResolveStep, SQL_AGENT_ID_BY_NAME, SQL_REGISTER_NAME,
    SQL_TOUCH_AGENT,
};
use vibesql_mail::routes::messages::{
    agent_id_or_not_found, all_recipients, deliveries, inbox_insert_query, inbox_page,
    inbox_queries, insert_message_query, inserted_message, mark_read_query, message_row,
    page_window, read_message_response, rows_touched, send_response, sent_page, sent_queries,
    total_pages, unread_only, validate_send, InboxQuery, SQL_INBOX_CC, SQL_INBOX_COUNT_ALL,
    SQL_INBOX_COUNT_UNREAD, SQL_INBOX_PAGE_UNREAD, SQL_INBOX_TO, SQL_UNREAD_COUNT,
};
use vibesql_mail::routes::threads::{thread_recipient_queries, thread_response};

fn r_obj(pairs: Vec<(&str, JsonValue)>) -> JsonObject {
    JsonObject {
        fields: pairs.into_iter().map(|(k, v)| JsonField { key: k.to_string(), value: v }).collect(),
    }
}

fn rs(v: &str) -> JsonValue {
    JsonValue::Str(v.to_string())
}

fn r_resp(rows: Vec<JsonObject>) -> QueryResponse {
    QueryResponse { success: Some(true), rows: Some(rows), row_count: None, error: None }
}

fn err_text(e: ApiError) -> (String, String) {
    match e {
        ApiError::BadRequest(m) => ("bad".to_string(), m),
        ApiError::NotFound(m) => ("notfound".to_string(), m),
        ApiError::DbError(m) => ("db".to_string(), m),
        ApiError::Internal(m) => ("internal".to_string(), m),
    }
}

fn send_req(to: Vec<&str>, cc: Vec<&str>, body: &str) -> SendMessageRequest {
    SendMessageRequest {
        from_agent: "BAPert".to_string(),
        to: to.into_iter().map(String::from).collect(),
        cc: cc.into_iter().map(String::from).collect(),
        subject: Some("Deploy ready".to_string()),
        body: body.to_string(),
        body_format: "markdown".to_string(),
        importance: "normal".to_string(),
        thread_id: None,
    }
}

fn bad(r: Result<(), ApiError>) -> String {
    let (kind, m) = err_text(r.err().expect("refused"));
    assert_eq!(kind, "bad");
    m
}

#[test]
fn send_validation_each_error() {
    assert!(validate_send(&send_req(vec!["A"], vec![], "hi")).is_ok());
    assert_eq!(bad(validate_send(&send_req(vec![], vec!["B"], "hi"))), "'to' must have at least one recipient");
    let many: Vec<&str> = vec!["a", "b", "c", "d", "e", "f"];
    assert!(validate_send(&send_req(many.clone(), vec!["g", "h", "i", "j"], "hi")).is_ok());
    assert_eq!(bad(validate_send(&send_req(many, vec!["g", "h", "i", "j", "k"], "hi"))), "Max 10 recipients");
    assert_eq!(bad(validate_send(&send_req(vec!["A"], vec![], ""))), "Body cannot be empty");
    let big = "x".repeat(65536);
    assert!(validate_send(&send_req(vec!["A"], vec![], &big)).is_ok());
    let bigger = "x".repeat(65537);
    assert_eq!(bad(validate_send(&send_req(vec!["A"], vec![], &bigger))), "Body exceeds max size of 65536 bytes");
    let mut r = send_req(vec!["A"], vec![], "hi");
    r.subject = Some("é".repeat(257));
    assert_eq!(bad(validate_send(&r)), "Subject exceeds max length of 256 chars");
    r.subject = Some("é".repeat(256));
    assert!(validate_send(&r).is_ok());
    r.subject = Some("é".repeat(200));
    assert!(validate_send(&r).is_ok());
    r.body_format = "html".to_string();
    assert_eq!(bad(validate_send(&r)), "body_format must be 'plain' or 'markdown'");
    r.body_format = "plain".to_string();
    r.importance = "critical".to_string();
    assert_eq!(bad(validate_send(&r)), "importance must be low, normal, high, or urgent");
    r.importance = "urgent".to_string();
    assert!(validate_send(&r).is_ok());
}

#[test]
fn paging_window_and_totals() {
    let w = page_window(None, None);
    assert_eq!((w.page, w.page_size, w.offset), (1, 20, 0));
    let w = page_window(Some(3), Some(50));
    assert_eq!((w.page, w.page_size, w.offset), (3, 50, 100));
    let w = page_window(Some(-4), Some(0));
    assert_eq!((w.page, w.page_size, w.offset), (1, 1, 0));
    let w = page_window(Some(2), Some(1000));
    assert_eq!((w.page, w.page_size, w.offset), (2, 100, 100));
    let w = page_window(Some(i64::MAX), Some(2));
    assert_eq!(w.offset, (i64::MAX - 1).wrapping_mul(2));
    assert_eq!(total_pages(0, 20), 0);
    assert_eq!(total_pages(1, 20), 1);
    assert_eq!(total_pages(20, 20), 1);
    assert_eq!(total_pages(21, 20), 2);
    assert_eq!(total_pages(45, 20), 3);
    assert_eq!(total_pages(-100, 20), -4);
    assert_eq!(total_pages(i64::MAX, 100), (i64::MAX.wrapping_add(99)) / 100);
}

#[test]
fn agent_resolution_of_known_name() {
    let (mut r, q) = AgentResolver::start("BAPert");
    assert_eq!(q.sql, SQL_AGENT_ID_BY_NAME);
    assert!(matches!(q.params.as_slice(), [JsonValue::Str(n)] if n == "BAPert"));
    match r.resume(Ok(r_resp(vec![r_obj(vec![("id", JsonValue::Int(12))])]))) {
        ResolveStep::Query(q) => {
            assert_eq!(q.sql, SQL_TOUCH_AGENT);
            assert!(matches!(q.params.as_slice(), [JsonValue::Int(12)]));
        },
        _ => panic!("expected the activity update"),
    }
    assert!(r.phase == ResolvePhase::Touch(12));
    // The update's failure does not matter.
    assert!(matches!(r.resume(Err("timeout".to_string())), ResolveStep::Resolved(12)));
}

#[test]
fn agent_resolution_registers_unknown_name() {
    let (mut r, _) = AgentResolver::start("NewPert");
    match r.resume(Ok(r_resp(vec![]))) {
        ResolveStep::Query(q) => {
            assert_eq!(q.sql, SQL_REGISTER_NAME);
            assert!(matches!(q.params.as_slice(), [JsonValue::Str(n)] if n == "NewPert"));
        },
        _ => panic!("expected a registration"),
    }
    assert!(matches!(r.resume(Ok(r_resp(vec![r_obj(vec![("id", JsonValue::Int(5))])]))), ResolveStep::Resolved(5)));
    let (mut r2, _) = AgentResolver::start("X");
    let _ = r2.resume(Ok(r_resp(vec![])));
    match r2.resume(Ok(r_resp(vec![]))) {
        ResolveStep::Failed(e) => {
            assert_eq!(e.text(), "Failed to register agent");
            assert_eq!(err_text(e.to_api()), ("internal".to_string(), "Failed to register agent".to_string()));
        },
        _ => panic!("expected a failure"),
    }
    let (mut r3, _) = AgentResolver::start("Y");
    match r3.resume(Err("SQL error: boom".to_string())) {
        ResolveStep::Failed(ResolveError::Db(e)) => assert_eq!(e, "SQL error: boom"),
        _ => panic!("expected a database failure"),
    }
}

#[test]
fn agent_name_rules() {
    assert_eq!(validate_agent_name("  BAPert_2-x ").ok(), Some("BAPert_2-x".to_string()));
    assert_eq!(validate_agent_name("Ünïcödé").ok(), Some("Ünïcödé".to_string()));
    let e = |n: &str| err_text(validate_agent_name(n).err().unwrap());
    assert_eq!(e("   "), ("bad".to_string(), "Agent name must be 1-64 characters".to_string()));
    assert_eq!(e(&"a".repeat(65)).1, "Agent name must be 1-64 characters");
    assert!(validate_agent_name(&"a".repeat(64)).is_ok());
    assert!(validate_agent_name(&"é".repeat(40)).is_ok());
    assert!(validate_agent_name(&"é".repeat(64)).is_ok());
    assert_eq!(e(&"é".repeat(65)).1, "Agent name must be 1-64 characters");
    assert!(validate_agent_name(&"é".repeat(33)).is_ok());
    assert_eq!(e("bad name").1, "Agent name must be alphanumeric, hyphens, or underscores");
    assert_eq!(e("x!").1, "Agent name must be alphanumeric, hyphens, or underscores");
}

#[test]
fn register_and_list_agents() {
    let req = RegisterAgentRequest {
        name: " QAPert ".to_string(),
        display_name: Some("QA".to_string()),
        role: None,
        program: None,
        model: Some("m".to_string()),
    };
    let q = register_query("QAPert", &req);
    assert!(q.sql.starts_with("INSERT INTO agents (name, display_name, role, program, model)"));
    assert!(matches!(q.params.as_slice(),
        [JsonValue::Str(n), JsonValue::Str(d), JsonValue::Null, JsonValue::Null, JsonValue::Str(m)]
        if n == "QAPert" && d == "QA" && m == "m"));
    let created = registered_agent(&r_resp(vec![r_obj(vec![("id", JsonValue::Int(1)), ("name", rs("QAPert"))])]));
    assert_eq!(created.ok().unwrap().name, "QAPert");
    assert_eq!(err_text(registered_agent(&r_resp(vec![])).err().unwrap()).1, "Failed to create agent");
    assert!(list_agents_query().params.is_empty());
    assert_eq!(list_agents(&r_resp(vec![r_obj(vec![]), r_obj(vec![])])).len(), 2);
}

#[test]
fn sending_pieces() {
    let mut req = send_req(vec!["A", "B"], vec!["C"], "hi");
    req.subject = None;
    let q = insert_message_query(3, "abc", &req);
    assert!(matches!(q.params.as_slice(),
        [JsonValue::Int(3), JsonValue::Str(t), JsonValue::Null, JsonValue::Str(b), JsonValue::Str(f), JsonValue::Str(i)]
        if t == "abc" && b == "hi" && f == "markdown" && i == "normal"));
    let got = inserted_message(&r_resp(vec![r_obj(vec![("id", JsonValue::Int(940)), ("created_at", rs("2026"))])]));
    assert_eq!(got.ok(), Some((940, "2026".to_string())));
    let no_time = inserted_message(&r_resp(vec![r_obj(vec![("id", JsonValue::Int(1))])]));
    assert_eq!(no_time.ok(), Some((1, String::new())));
    assert_eq!(err_text(inserted_message(&r_resp(vec![])).err().unwrap()).1, "Failed to insert message");
    assert_eq!(inbox_insert_query(1, 2, false).sql, SQL_INBOX_TO);
    assert_eq!(inbox_insert_query(1, 2, true).sql, SQL_INBOX_CC);
    let d = deliveries(&req.to, &req.cc);
    assert_eq!(d, vec![("A".to_string(), false), ("B".to_string(), false), ("C".to_string(), true)]);
    assert_eq!(all_recipients(&req.to, &req.cc), vec!["A", "B", "C"]);
    let resp = send_response(req, 940, "abc".to_string(), "now".to_string());
    assert_eq!((resp.message_id, resp.thread_id.as_str(), resp.from_agent.as_str()), (940, "abc", "BAPert"));
    assert_eq!(resp.to, vec!["A", "B"]);
}

#[test]
fn inbox_page_from_replies() {
    let w = page_window(Some(2), Some(2));
    let (c, u, p) = inbox_queries(8, true, &w);
    assert_eq!(c.sql, SQL_INBOX_COUNT_UNREAD);
    assert_eq!(u.sql, SQL_UNREAD_COUNT);
    assert_eq!(p.sql, SQL_INBOX_PAGE_UNREAD);
    assert!(matches!(p.params.as_slice(), [JsonValue::Int(8), JsonValue::Int(2), JsonValue::Int(2)]));
    assert_eq!(inbox_queries(8, false, &w).0.sql, SQL_INBOX_COUNT_ALL);
    let count = r_resp(vec![r_obj(vec![("cnt", JsonValue::Int(5))])]);
    let unread = r_resp(vec![r_obj(vec![("cnt", JsonValue::Int(3))])]);
    let page = r_resp(vec![r_obj(vec![("message_id", JsonValue::Int(934)), ("from_agent", rs("QAPert"))])]);
    let ip = inbox_page("BAPert".to_string(), &w, &count, &unread, &page);
    assert_eq!(ip.data.agent, "BAPert");
    assert_eq!(ip.data.unread_count, 3);
    assert_eq!(ip.data.messages.len(), 1);
    assert_eq!(ip.data.messages[0].from_agent, "QAPert");
    assert_eq!((ip.pagination.page, ip.pagination.page_size, ip.pagination.total_count, ip.pagination.total_pages), (2, 2, 5, 3));
    let empty = inbox_page("X".to_string(), &w, &r_resp(vec![]), &r_resp(vec![]), &r_resp(vec![]));
    assert_eq!((empty.data.unread_count, empty.pagination.total_count, empty.pagination.total_pages), (0, 0, 0));
    assert!(unread_only(&InboxQuery { unread: Some(true), page: None, page_size: None }));
    assert!(!unread_only(&InboxQuery { unread: None, page: None, page_size: None }));
}

#[test]
fn reading_and_marking() {
    assert_eq!(err_text(message_row(&r_resp(vec![]), 77).err().unwrap()), ("notfound".to_string(), "Message 77 not found".to_string()));
    let msg = r_resp(vec![r_obj(vec![("from_agent", rs("QAPert")), ("thread_id", rs("40a0")), ("subject", JsonValue::Null)])]);
    let row = message_row(&msg, 934).ok().unwrap();
    let recips = r_resp(vec![
        r_obj(vec![("name", rs("BAPert")), ("recipient_type", rs("to"))]),
        r_obj(vec![("name", rs("DotNetPert")), ("recipient_type", rs("cc"))]),
    ]);
    let r = read_message_response(934, row, &recips);
    assert_eq!((r.message_id, r.from_agent.as_str(), r.thread_id.as_str()), (934, "QAPert", "40a0"));
    assert_eq!(r.to, vec!["BAPert"]);
    assert_eq!(r.cc, vec!["DotNetPert"]);
    assert!(r.subject.is_none());
    assert_eq!((r.body.as_str(), r.body_format.as_str(), r.importance.as_str()), ("", "markdown", "normal"));
    assert_eq!(err_text(agent_id_or_not_found(&r_resp(vec![]), "Ghost").err().unwrap()), ("notfound".to_string(), "Agent 'Ghost' not found".to_string()));
    assert_eq!(agent_id_or_not_found(&r_resp(vec![r_obj(vec![("id", JsonValue::Int(4))])]), "A").ok(), Some(4));
    assert!(matches!(mark_read_query(934, 4).params.as_slice(), [JsonValue::Int(934), JsonValue::Int(4)]));
    assert_eq!(rows_touched(&r_resp(vec![r_obj(vec![]), r_obj(vec![])])), 2);
    assert_eq!(rows_touched(&QueryResponse { success: None, rows: None, row_count: None, error: None }), 0);
}

#[test]
fn sent_page_groups_recipients() {
    let w = page_window(None, None);
    let (c, p, r) = sent_queries(3, &w);
    assert!(matches!(c.params.as_slice(), [JsonValue::Int(3)]));
    assert!(matches!(p.params.as_slice(), [JsonValue::Int(3), JsonValue::Int(20), JsonValue::Int(0)]));
    assert!(matches!(r.params.as_slice(), [JsonValue::Int(3), JsonValue::Int(20), JsonValue::Int(0)]));
    let page = r_resp(vec![
        r_obj(vec![("message_id", JsonValue::Int(10)), ("subject", rs("s"))]),
        r_obj(vec![("message_id", JsonValue::Int(11))]),
    ]);
    let recips = r_resp(vec![
        r_obj(vec![("message_id", JsonValue::Int(11)), ("name", rs("x"))]),
        r_obj(vec![("message_id", JsonValue::Int(10)), ("name", rs("y")), ("recipient_type", rs("cc"))]),
        r_obj(vec![("message_id", JsonValue::Int(10)), ("name", rs("z"))]),
    ]);
    let sp = sent_page("A".to_string(), &w, &r_resp(vec![r_obj(vec![("cnt", JsonValue::Int(2))])]), &page, &recips);
    assert_eq!(sp.messages.len(), 2);
    assert_eq!(sp.messages[0].to, vec!["z"]);
    assert_eq!(sp.messages[0].cc, vec!["y"]);
    assert_eq!(sp.messages[1].to, vec!["x"]);
    assert!(sp.messages[1].cc.is_empty());
    assert_eq!(sp.messages[1].thread_id, "");
    assert_eq!((sp.pagination.total_count, sp.pagination.total_pages), (2, 1));
}

#[test]
fn thread_view_and_not_found() {
    let msgs = r_resp(vec![
        r_obj(vec![("message_id", JsonValue::Int(1)), ("from_agent", rs("A"))]),
        r_obj(vec![("message_id", JsonValue::Int(2)), ("from_agent", rs("B"))]),
    ]);
    let qs = thread_recipient_queries(&msgs);
    assert_eq!(qs.len(), 2);
    assert!(matches!(qs[1].params.as_slice(), [JsonValue::Int(2)]));
    let recips = vec![r_resp(vec![r_obj(vec![("name", rs("B"))])]), r_resp(vec![r_obj(vec![("name", rs("A")), ("recipient_type", rs("cc"))])])];
    let t = thread_response("t1", &msgs, &recips).ok().unwrap();
    assert_eq!((t.thread_id.as_str(), t.message_count), ("t1", 2));
    assert_eq!(t.messages[0].to, vec!["B"]);
    assert_eq!(t.messages[1].cc, vec!["A"]);
    let none = thread_response("t9", &r_resp(vec![]), &vec![]);
    assert_eq!(err_text(none.err().unwrap()), ("notfound".to_string(), "Thread 't9' not found".to_string()));
}

#[test]
fn admin_pieces() {
    let (a, _, _, p) = status_queries();
    assert_eq!(a.sql, SQL_COUNT_AGENTS);
    assert!(p.params.is_empty());
    let st = status_report(
        &r_resp(vec![r_obj(vec![("cnt", JsonValue::Int(4))])]),
        &r_resp(vec![r_obj(vec![("cnt", JsonValue::Int(15))])]),
        &r_resp(vec![]),
        Some(&r_resp(vec![r_obj(vec![("value", rs("mail"))])])),
    );
    assert_eq!((st.agents, st.messages, st.unread_inbox, st.project_name.as_deref()), (4, 15, 0, Some("mail")));
    let st2 = status_report(&r_resp(vec![]), &r_resp(vec![]), &r_resp(vec![]), None);
    assert!(st2.project_name.is_none());
    assert!(project_name_query(&None).is_none());
    assert!(project_name_query(&Some(InitRequest { project_name: None })).is_none());
    let q = project_name_query(&Some(InitRequest { project_name: Some("p".to_string()) })).unwrap();
    assert!(matches!(q.params.as_slice(), [JsonValue::Str(n)] if n == "p"));
    let sq = setting_query(&SettingRequest { key: "k".to_string(), value: "v".to_string() });
    assert!(matches!(sq.params.as_slice(), [JsonValue::Str(k), JsonValue::Str(v)] if k == "k" && v == "v"));
    let settings = settings_from(&r_resp(vec![
        r_obj(vec![("key", rs("a")), ("value", rs("1"))]),
        r_obj(vec![("key", rs("b")), ("value", JsonValue::Null)]),
        r_obj(vec![("key", rs("c")), ("value", rs("3"))]),
    ]));
    assert_eq!(settings, vec![("a".to_string(), "1".to_string()), ("c".to_string(), "3".to_string())]);
}
