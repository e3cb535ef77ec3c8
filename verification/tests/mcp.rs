use vibesql_mail::db::QueryResponse;
use vibesql_mail::json::{JsonField, JsonObject, JsonValue};
use vibesql_mail::mcp::{
    answers, inbox_summary_queries, mark_read_for_query, mcp_error,
    method_not_found, parse_args, parse_send_args, reply_source, reply_subject, required_i64,
    required_str, resolve_cli, route_resource, rpc_method, search_args, search_query, send_query,
    sent_id, split_names, startup_error, startup_outcome, thread_text_query, tool_kind,
    tool_outcome, unknown_resource, unknown_tool, CliArgs, McpSession, ResourceRoute, RpcMethod,
    SearchArgs, ToolKind, SQL_RECENT,
};
use vibesql_mail::mcp_text::{
    directory_text, inbox_text, message_text, preview, search_text, sent_text, thread_text,
};

fn c_obj(pairs: Vec<(&str, JsonValue)>) -> JsonObject {
    JsonObject {
        fields: pairs.into_iter().map(|(k, v)| JsonField { key: k.to_string(), value: v }).collect(),
    }
}

fn cs(v: &str) -> JsonValue {
    JsonValue::Str(v.to_string())
}

fn strings(v: &[&str]) -> Vec<String> {
    v.iter().map(|s| s.to_string()).collect()
}

#[test]
fn command_line_flags() {
    let a = parse_args(&strings(&["mcp", "--agent", "BAPert", "--micro-url", "http://h:1"]));
    assert_eq!(a.agent.as_deref(), Some("BAPert"));
    assert_eq!(a.micro_url.as_deref(), Some("http://h:1"));
    let b = parse_args(&strings(&["mcp", "x", "--agent", "A", "--agent", "B"]));
    assert_eq!(b.agent.as_deref(), Some("B"));
    let c = parse_args(&strings(&["mcp", "--agent", "A", "--agent"]));
    assert!(c.agent.is_none());
    let d = parse_args(&strings(&["--agent", "ignored-because-first"]));
    assert!(d.agent.is_none());
    let e = parse_args(&strings(&["mcp", "--agent", "--micro-url", "u"]));
    assert_eq!(e.agent.as_deref(), Some("--micro-url"));
    assert!(e.micro_url.is_none());
}

#[test]
fn command_line_fallbacks() {
    let none = CliArgs { agent: None, micro_url: None };
    assert!(resolve_cli(none, None, None).is_none());
    let env = resolve_cli(CliArgs { agent: None, micro_url: None }, Some("E".to_string()), None).unwrap();
    assert_eq!(env, ("E".to_string(), "http://localhost:5173".to_string()));
    let cli = resolve_cli(
        CliArgs { agent: Some("C".to_string()), micro_url: None },
        Some("E".to_string()),
        Some("http://env".to_string()),
    ).unwrap();
    assert_eq!(cli, ("C".to_string(), "http://env".to_string()));
}

#[test]
fn rpc_and_resource_routing() {
    assert!(rpc_method("initialize") == RpcMethod::Initialize);
    assert!(rpc_method("tools/list") == RpcMethod::ToolsList);
    assert!(rpc_method("tools/call") == RpcMethod::ToolsCall);
    assert!(rpc_method("resources/list") == RpcMethod::ResourcesList);
    assert!(rpc_method("resources/read") == RpcMethod::ResourcesRead);
    assert!(rpc_method("ping") == RpcMethod::Unknown);
    let nf = method_not_found("ping");
    assert_eq!((nf.code, nf.message.as_str()), (-32601, "Method not found: ping"));
    let e = mcp_error("boom");
    assert_eq!((e.code, e.message.as_str()), (-32000, "boom"));
    assert!(answers(true) && !answers(false));
    assert!(matches!(route_resource("mail://agents"), ResourceRoute::Agents));
    assert!(matches!(route_resource("mail://inbox/BAPert"), ResourceRoute::Inbox(a) if a == "BAPert"));
    assert!(matches!(route_resource("mail://thread/40a0"), ResourceRoute::Thread(t) if t == "40a0"));
    assert!(matches!(route_resource("mail://inbox/"), ResourceRoute::Inbox(a) if a.is_empty()));
    assert!(matches!(route_resource("mail://agents/x"), ResourceRoute::Unknown));
    assert_eq!(unknown_resource("x://y"), "Unknown resource: x://y");
}

#[test]
fn tool_routing_and_outcomes() {
    assert!(tool_kind("check_inbox") == ToolKind::CheckInbox);
    assert!(tool_kind("read_message") == ToolKind::ReadMessage);
    assert!(tool_kind("send_mail") == ToolKind::SendMail);
    assert!(tool_kind("reply") == ToolKind::Reply);
    assert!(tool_kind("list_agents") == ToolKind::ListAgents);
    assert!(tool_kind("search_mail") == ToolKind::SearchMail);
    assert!(tool_kind("delete") == ToolKind::Unknown);
    assert_eq!(unknown_tool("delete"), "Unknown tool: delete");
    let ok = tool_outcome(Ok("fine".to_string()));
    assert_eq!((ok.text.as_str(), ok.is_error), ("fine", false));
    let err = tool_outcome(Err("bad".to_string()));
    assert_eq!((err.text.as_str(), err.is_error), ("Error: bad", true));
    assert_eq!(startup_error("x"), "agent-mail-mcp startup error: x");
    let so = startup_outcome("x");
    assert!(so.is_error);
}

#[test]
fn session_start_up() {
    let mut s = McpSession::new("BAPert".to_string(), "http://h".to_string());
    assert!(s.ready().is_none());
    assert_eq!(s.migration_failure("refused"), "Cannot reach vibesql-micro (http://h). Is it running? Error: refused");
    assert_eq!(s.resolve_failure("no"), "Connected to vibesql-micro but failed to resolve agent 'BAPert': no");
    s.mark_ready(42);
    assert_eq!(s.ready(), Some(Ok(42)));
    assert_eq!(s.get_agent_id(), 42);
    let odd = McpSession { agent_name: String::new(), micro_url: String::new(), agent_id: None, initialized: true };
    assert_eq!(odd.ready(), Some(Err("Agent ID not resolved (this should not happen)".to_string())));
}

#[test]
fn tool_arguments() {
    let args = c_obj(vec![("id", JsonValue::Int(9)), ("body", cs("b")), ("x", JsonValue::Number)]);
    assert_eq!(required_i64(&args, "id"), Ok(9));
    assert_eq!(required_i64(&args, "x"), Err("Missing required argument: x".to_string()));
    assert_eq!(required_str(&args, "body"), Ok("b".to_string()));
    assert_eq!(required_str(&args, "id"), Err("Missing required argument: id".to_string()));
    assert_eq!(split_names(" A, ,B ,, "), vec!["A", "B"]);
    assert!(split_names("").is_empty());
}

fn send_err(pairs: Vec<(&str, JsonValue)>) -> String {
    parse_send_args(&c_obj(pairs)).err().expect("refused")
}

#[test]
fn send_mail_arguments() {
    let ok = parse_send_args(&c_obj(vec![
        ("to", cs("BAPert, DotNetPert")),
        ("subject", cs("Deploy ready")),
        ("body", cs("All tests pass.")),
        ("cc", cs("QAPert")),
        ("importance", cs("high")),
        ("thread_id", cs("abc123")),
    ])).ok().unwrap();
    assert_eq!(ok.to, vec!["BAPert", "DotNetPert"]);
    assert_eq!(ok.cc, vec!["QAPert"]);
    assert_eq!((ok.importance.as_str(), ok.thread_id.as_deref()), ("high", Some("abc123")));
    let dflt = parse_send_args(&c_obj(vec![("to", cs("A")), ("subject", cs("")), ("body", cs("b"))])).ok().unwrap();
    assert_eq!(dflt.importance, "normal");
    assert!(dflt.cc.is_empty() && dflt.thread_id.is_none());
    assert_eq!(send_err(vec![]), "Missing required argument: to");
    assert_eq!(send_err(vec![("to", cs("A"))]), "Missing required argument: subject");
    assert_eq!(send_err(vec![("to", cs("A")), ("subject", cs("s"))]), "Missing required argument: body");
    assert_eq!(send_err(vec![("to", cs(" , ")), ("subject", cs("s")), ("body", cs("b"))]), "'to' must have at least one recipient");
    assert_eq!(send_err(vec![("to", cs("a,b,c,d,e,f")), ("cc", cs("g,h,i,j,k")), ("subject", cs("s")), ("body", cs("b"))]), "Max 10 recipients");
    assert_eq!(send_err(vec![("to", cs("a")), ("subject", cs("s")), ("body", cs(""))]), "Body cannot be empty");
    assert_eq!(send_err(vec![("to", cs("a")), ("subject", cs("s")), ("body", cs(&"x".repeat(65537)))]), "Body exceeds max size of 65536 bytes");
    assert_eq!(send_err(vec![("to", cs("a")), ("subject", cs(&"s".repeat(257))), ("body", cs("b"))]), "Subject exceeds max length of 256 chars");
    assert_eq!(send_err(vec![("to", cs("a")), ("subject", cs("s")), ("body", cs("b")), ("importance", cs("max"))]), "importance must be low, normal, high, or urgent");
    assert!(parse_send_args(&c_obj(vec![("to", cs("a")), ("subject", cs(&"é".repeat(256))), ("body", cs("b"))])).is_ok());
    assert_eq!(send_err(vec![("to", cs("a")), ("subject", cs(&"é".repeat(257))), ("body", cs("b"))]), "Subject exceeds max length of 256 chars");
}

#[test]
fn send_mail_checks_recipient_names() {
    assert_eq!(send_err(vec![("to", cs("bad name!")), ("subject", cs("s")), ("body", cs("b"))]), "Agent name must be alphanumeric, hyphens, or underscores");
    assert_eq!(send_err(vec![("to", cs("ok")), ("cc", cs("Q/A")), ("subject", cs("s")), ("body", cs("b"))]), "Agent name must be alphanumeric, hyphens, or underscores");
    assert_eq!(send_err(vec![("to", cs(&"x".repeat(65))), ("subject", cs("s")), ("body", cs("b"))]), "Agent name must be 1-64 characters");
    assert!(parse_send_args(&c_obj(vec![("to", cs("Dev-1, QA_2")), ("cc", cs("Ünï")), ("subject", cs("s")), ("body", cs("b"))])).is_ok());
}

#[test]
fn reply_subjects() {
    assert_eq!(reply_subject("Code Review"), "RE: Code Review");
    assert_eq!(reply_subject("RE: Code Review"), "RE: Code Review");
    assert_eq!(reply_subject(&reply_subject("x")), "RE: x");
    assert_eq!(reply_subject("Re: x"), "RE: Re: x");
    assert_eq!(reply_subject(""), "RE: ");
    let src = reply_source(&c_obj(vec![("from_agent", cs("QAPert")), ("subject", JsonValue::Null)]));
    assert_eq!((src.from_agent.as_str(), src.subject.as_str(), src.thread_id.as_str()), ("QAPert", "", ""));
}

#[test]
fn tool_queries() {
    let (u, t, r) = inbox_summary_queries(5);
    assert!(u.sql.contains("read_at IS NULL") && !t.sql.contains("read_at IS NULL"));
    assert_eq!(r.sql, SQL_RECENT);
    assert!(matches!(mark_read_for_query(9, 5).params.as_slice(), [JsonValue::Int(9), JsonValue::Int(5)]));
    let q = send_query(5, "t", "s", "b", "low");
    assert!(q.sql.contains("'markdown'"));
    assert_eq!(q.params.len(), 5);
    assert_eq!(sent_id(&QueryResponse { success: None, rows: Some(vec![c_obj(vec![("id", JsonValue::Int(940))])]), row_count: None, error: None }), Ok(940));
    assert_eq!(sent_id(&QueryResponse { success: None, rows: None, row_count: None, error: None }), Err("Failed to insert message".to_string()));
    assert!(matches!(thread_text_query("t").params.as_slice(), [JsonValue::Str(x)] if x == "t"));
}

#[test]
fn search_sql_numbers_parameters() {
    let all = SearchArgs { keyword: Some("deploy".to_string()), from: Some("QAPert".to_string()), since: Some("2026-01-01".to_string()), limit: 20 };
    let q = search_query(7, &all);
    assert_eq!(
        q.sql,
        "SELECT m.id as message_id, a.name as from_agent, m.subject, m.body, m.created_at::text as created_at, i.read_at::text as read_at FROM inbox i JOIN messages m ON m.id = i.message_id JOIN agents a ON a.id = m.from_agent_id WHERE i.agent_id = $1::int AND i.archived_at IS NULL AND (m.subject ILIKE $2::text OR m.body ILIKE $2::text) AND a.name = $3::text AND m.created_at >= $4::timestamptz ORDER BY m.created_at DESC LIMIT $5::int"
    );
    assert!(matches!(q.params.as_slice(),
        [JsonValue::Int(7), JsonValue::Str(k), JsonValue::Str(f), JsonValue::Str(d), JsonValue::Int(20)]
        if k == "%deploy%" && f == "QAPert" && d == "2026-01-01"));
    let some = SearchArgs { keyword: None, from: Some("A".to_string()), since: None, limit: 3 };
    let q2 = search_query(7, &some);
    assert!(q2.sql.ends_with("WHERE i.agent_id = $1::int AND i.archived_at IS NULL AND a.name = $2::text ORDER BY m.created_at DESC LIMIT $3::int"));
    assert_eq!(q2.params.len(), 3);
    let a = search_args(&c_obj(vec![("query", cs("x")), ("limit", JsonValue::Int(500))]));
    assert_eq!((a.keyword.as_deref(), a.limit), (Some("x"), 100));
    assert_eq!(search_args(&c_obj(vec![])).limit, 20);
    assert_eq!(search_args(&c_obj(vec![("limit", JsonValue::Int(-3))])).limit, -3);
}

#[test]
fn inbox_summary_text() {
    let rows = Some(vec![
        c_obj(vec![("message_id", JsonValue::Int(934)), ("from_agent", cs("QAPert")), ("subject", cs("Code Review: MCP package")), ("created_at", cs("12:05 PM")), ("read_at", JsonValue::Null)]),
        c_obj(vec![("message_id", JsonValue::Int(928)), ("from_agent", cs("NextPert")), ("created_at", cs("11:20 AM")), ("read_at", cs("now"))]),
    ]);
    assert_eq!(
        inbox_text("BAPert", 1, 15, &rows),
        "Inbox for BAPert (1 unread of 15 total)\n\n* [934] From: QAPert — \"Code Review: MCP package\" — 12:05 PM\n  [928] From: NextPert — \"(no subject)\" — 11:20 AM\n\n* = unread"
    );
    assert_eq!(inbox_text("X", 0, 0, &Some(vec![])), "Inbox for X (0 unread of 0 total)\n\n  (no messages)\n\n* = unread");
    assert_eq!(inbox_text("X", 0, 0, &None), "Inbox for X (0 unread of 0 total)\n\n\n* = unread");
}

#[test]
fn read_and_sent_texts() {
    let row = c_obj(vec![("from_agent", cs("QAPert")), ("created_at", cs("2/23/2026")), ("thread_id", cs("40a0")), ("subject", cs("Hi")), ("body", cs("body text"))]);
    assert_eq!(
        message_text(934, &row, &strings(&["BAPert", "X"]), &vec![]),
        "Message #934\nFrom: QAPert\nTo: BAPert, X\nDate: 2/23/2026\nThread: 40a0\nSubject: Hi\n\nbody text"
    );
    assert_eq!(
        message_text(1, &c_obj(vec![]), &vec![], &strings(&["C"])),
        "Message #1\nFrom: ?\nTo: \nCC: C\nDate: \nThread: \nSubject: (no subject)\n\n"
    );
    assert_eq!(
        sent_text(940, "40a0", &strings(&["QAPert"]), &vec![], "RE: Code Review"),
        "Message sent (ID: 940)\nThread: 40a0\nTo: QAPert\nSubject: RE: Code Review"
    );
    assert_eq!(
        sent_text(1, "t", &strings(&["A"]), &strings(&["B", "C"]), "s"),
        "Message sent (ID: 1)\nThread: t\nTo: A\nCC: B, C\nSubject: s"
    );
}

#[test]
fn directory_and_thread_texts() {
    let rows = Some(vec![
        c_obj(vec![("name", cs("BAPert")), ("role", cs("lead")), ("is_active", JsonValue::Bool(true)), ("last_active_at", cs("today"))]),
        c_obj(vec![]),
    ]);
    assert_eq!(
        directory_text(&rows),
        "Agent Directory\n\n  BAPert — lead [active] (last: today)\n  ? — - [inactive] (last: never)\n"
    );
    assert_eq!(directory_text(&Some(vec![])), "Agent Directory\n\n  (no agents registered)\n");
    let msgs = Some(vec![
        c_obj(vec![("from_agent", cs("A")), ("created_at", cs("t1")), ("subject", cs("S")), ("body", cs("b1"))]),
        c_obj(vec![("from_agent", cs("B")), ("created_at", cs("t2")), ("body", cs("b2"))]),
    ]);
    assert_eq!(
        thread_text("40a0", &msgs),
        Ok("Thread: 40a0\n\n--- A — t1 ---\nSubject: S\nb1\n\n--- B — t2 ---\nb2\n\n(2 messages)".to_string())
    );
    assert_eq!(thread_text("none", &Some(vec![])), Err("Thread 'none' not found".to_string()));
    assert_eq!(thread_text("none", &None), Err("Thread 'none' not found".to_string()));
}

#[test]
fn search_results_text() {
    let long = "y".repeat(100);
    let rows = Some(vec![
        c_obj(vec![("message_id", JsonValue::Int(3)), ("from_agent", cs("A")), ("subject", cs("S")), ("body", cs("short")), ("created_at", cs("d")), ("read_at", cs("x"))]),
        c_obj(vec![("message_id", JsonValue::Int(4)), ("body", cs(&long))]),
    ]);
    let expected = format!(
        "Search Results\n\n  [3] From: A — \"S\" — d\n      short\n\n* [4] From: ? — \"(no subject)\" — \n      {}...\n\n2 result(s)",
        &long[..77]
    );
    assert_eq!(search_text(&rows), expected);
    assert_eq!(search_text(&Some(vec![])), "Search Results\n\n  (no messages found)\n");
    assert_eq!(search_text(&None), "Search Results\n\n  (no messages found)\n");
    assert_eq!(preview(&"x".repeat(80)), "x".repeat(80));
    assert_eq!(preview(&"x".repeat(81)), format!("{}...", "x".repeat(77)));
    let accented = format!("{}{}", "é".repeat(38), "z".repeat(10)); // byte 77 falls after 38 two-byte chars + 1
    assert_eq!(preview(&accented), format!("{}z...", "é".repeat(38)));
}
