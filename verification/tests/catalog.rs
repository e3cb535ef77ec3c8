use vibesql_mail::mcp::{tool_kind, ToolKind};
use vibesql_mail::mcp_catalog::{resource_catalog, server_info, tool_catalog};

#[test]
fn tool_catalog_lists_the_six_tools() {
    let tools = tool_catalog();
    let names: Vec<&str> = tools.iter().map(|t| t.name.as_str()).collect();
    assert_eq!(names, vec!["check_inbox", "read_message", "send_mail", "reply", "list_agents", "search_mail"]);
    assert!(tools.iter().all(|t| !matches!(tool_kind(&t.name), ToolKind::Unknown)));
    assert_eq!(tools[2].required, vec!["to", "subject", "body"]);
    assert_eq!(tools[3].required, vec!["message_id", "body"]);
    assert!(tools[0].required.is_empty() && tools[0].params.is_empty());
    let send_params: Vec<&str> = tools[2].params.iter().map(|p| p.name.as_str()).collect();
    assert_eq!(send_params, vec!["to", "subject", "body", "cc", "thread_id", "importance"]);
    assert_eq!(tools[1].params[0].kind, "number");
    assert_eq!(tools[5].params[2].description, "ISO date — messages after this date");
}

#[test]
fn resources_and_server_info() {
    let c = resource_catalog();
    assert_eq!(c.resources.len(), 1);
    assert_eq!(c.resources[0].uri, "mail://agents");
    let uris: Vec<&str> = c.templates.iter().map(|r| r.uri.as_str()).collect();
    assert_eq!(uris, vec!["mail://inbox/{agent}", "mail://thread/{thread_id}"]);
    assert!(c.resources.iter().chain(c.templates.iter()).all(|r| r.mime_type == "text/plain"));
    let info = server_info();
    assert_eq!((info.protocol_version.as_str(), info.name.as_str(), info.version.as_str()), ("2024-11-05", "vibesql-mail-mcp", "1.0.0"));
}
