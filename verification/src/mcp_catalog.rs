//! What the MCP server says of itself: its name and protocol version, the six
//! tools with their arguments, and the resources it serves.

use vstd::prelude::*;
use crate::mcp::{tool_kind_spec, ToolKind};
use crate::text::{to_owned, views};

verus! {

/// One argument of a tool: its name, its JSON type and what it is for.
pub struct ToolParam {
    pub name: String,
    pub kind: String,
    pub description: String,
}

/// A tool: its name, what it does, its arguments, and those it requires.
pub struct ToolSpec {
    pub name: String,
    pub description: String,
    pub params: Vec<ToolParam>,
    pub required: Vec<String>,
}

/// A resource, or a template of resources: its address, name, description
/// and media type.
pub struct ResourceSpec {
    pub uri: String,
    pub name: String,
    pub description: String,
    pub mime_type: String,
}

/// The resources: those with a fixed address, and the address templates.
pub struct ResourceCatalog {
    pub resources: Vec<ResourceSpec>,
    pub templates: Vec<ResourceSpec>,
}

/// The server's answer to `initialize`: the protocol version it speaks, and
/// its name and version.
pub struct ServerInfo {
    pub protocol_version: String,
    pub name: String,
    pub version: String,
}

pub type ParamView = (Seq<char>, Seq<char>, Seq<char>);

pub type ToolView = (Seq<char>, Seq<char>, Seq<ParamView>, Seq<Seq<char>>);

pub type ResourceView = (Seq<char>, Seq<char>, Seq<char>, Seq<char>);

impl View for ToolParam {
    type V = ParamView;

    open spec fn view(&self) -> ParamView {
        (self.name@, self.kind@, self.description@)
    }
}

impl View for ToolSpec {
    type V = ToolView;

    open spec fn view(&self) -> ToolView {
        (self.name@, self.description@, self.params@.map_values(|p: ToolParam| p@), views(self.required@))
    }
}

impl View for ResourceSpec {
    type V = ResourceView;

    open spec fn view(&self) -> ResourceView {
        (self.uri@, self.name@, self.description@, self.mime_type@)
    }
}

/// The tools, in the order they are listed.
pub open spec fn tool_catalog_spec() -> Seq<ToolView> {
    seq![
        (
            "check_inbox"@,
            "Check your inbox for messages. Returns messages with sender, subject, date, and read status."@,
            Seq::<ParamView>::empty(),
            Seq::<Seq<char>>::empty(),
        ),
        (
            "read_message"@,
            "Read a specific message by ID. Returns full message body and marks it as read."@,
            seq![("id"@, "number"@, "Message ID to read"@)],
            seq!["id"@],
        ),
        (
            "send_mail"@,
            "Send a message to one or more agents."@,
            seq![
                ("to"@, "string"@, "Comma-separated recipient agent names"@),
                ("subject"@, "string"@, "Message subject"@),
                ("body"@, "string"@, "Message body"@),
                ("cc"@, "string"@, "Comma-separated CC agent names (optional)"@),
                ("thread_id"@, "string"@, "Thread ID to continue (optional)"@),
                ("importance"@, "string"@, "low, normal, high, or urgent (default: normal)"@),
            ],
            seq!["to"@, "subject"@, "body"@],
        ),
        (
            "reply"@,
            "Reply to a message. Pre-fills thread_id and recipient from the original message."@,
            seq![
                ("message_id"@, "number"@, "ID of the message to reply to"@),
                ("body"@, "string"@, "Reply body"@),
            ],
            seq!["message_id"@, "body"@],
        ),
        (
            "list_agents"@,
            "List all registered agents with their names, roles, and status."@,
            Seq::<ParamView>::empty(),
            Seq::<Seq<char>>::empty(),
        ),
        (
            "search_mail"@,
            "Search messages by keyword, sender, or date range."@,
            seq![
                ("query"@, "string"@, "Keyword to search in subject and body"@),
                ("from"@, "string"@, "Filter by sender agent name"@),
                ("since"@, "string"@, "ISO date — messages after this date"@),
                ("limit"@, "number"@, "Max results (default 20)"@),
            ],
            Seq::<Seq<char>>::empty(),
        ),
    ]
}

fn param(name: &str, kind: &str, description: &str) -> (p: ToolParam)
    ensures
        p@ == (name@, kind@, description@),
{
    ToolParam { name: to_owned(name), kind: to_owned(kind), description: to_owned(description) }
}

fn tool(name: &str, description: &str, params: Vec<ToolParam>, required: Vec<String>) -> (t: ToolSpec)
    ensures
        t@ == (name@, description@, params@.map_values(|p: ToolParam| p@), views(required@)),
{
    ToolSpec { name: to_owned(name), description: to_owned(description), params, required }
}

/// The tools the server offers, in the order it lists them.
pub fn tool_catalog() -> (r: Vec<ToolSpec>)
    ensures
        r@.map_values(|t: ToolSpec| t@) == tool_catalog_spec(),
        r@.len() == 6,
        r@[0].name@ == "check_inbox"@,
        r@[1].name@ == "read_message"@,
        r@[2].name@ == "send_mail"@,
        r@[3].name@ == "reply"@,
        r@[4].name@ == "list_agents"@,
        r@[5].name@ == "search_mail"@,
        views(r@[0].required@) == Seq::<Seq<char>>::empty(),
        views(r@[1].required@) == seq!["id"@],
        views(r@[2].required@) == seq!["to"@, "subject"@, "body"@],
        views(r@[3].required@) == seq!["message_id"@, "body"@],
        views(r@[4].required@) == Seq::<Seq<char>>::empty(),
        views(r@[5].required@) == Seq::<Seq<char>>::empty(),
        forall|i: int| 0 <= i < 6 ==> tool_kind_spec(#[trigger] r@[i].name@) != ToolKind::Unknown,
{
    let mut r: Vec<ToolSpec> = Vec::new();

    let none: Vec<String> = Vec::new();
    assert(views(none@) =~= Seq::<Seq<char>>::empty());
    let no_params: Vec<ToolParam> = Vec::new();
    assert(no_params@.map_values(|p: ToolParam| p@) =~= Seq::<ParamView>::empty());
    r.push(
        tool(
            "check_inbox",
            "Check your inbox for messages. Returns messages with sender, subject, date, and read status.",
            no_params,
            none,
        ),
    );

    let mut p: Vec<ToolParam> = Vec::new();
    p.push(param("id", "number", "Message ID to read"));
    let mut q: Vec<String> = Vec::new();
    q.push(to_owned("id"));
    assert(p@.map_values(|p: ToolParam| p@) =~= seq![("id"@, "number"@, "Message ID to read"@)]);
    assert(views(q@) =~= seq!["id"@]);
    r.push(
        tool("read_message", "Read a specific message by ID. Returns full message body and marks it as read.", p, q),
    );

    let mut p: Vec<ToolParam> = Vec::new();
    p.push(param("to", "string", "Comma-separated recipient agent names"));
    p.push(param("subject", "string", "Message subject"));
    p.push(param("body", "string", "Message body"));
    p.push(param("cc", "string", "Comma-separated CC agent names (optional)"));
    p.push(param("thread_id", "string", "Thread ID to continue (optional)"));
    p.push(param("importance", "string", "low, normal, high, or urgent (default: normal)"));
    let mut q: Vec<String> = Vec::new();
    q.push(to_owned("to"));
    q.push(to_owned("subject"));
    q.push(to_owned("body"));
    assert(p@.map_values(|p: ToolParam| p@) =~= seq![
        ("to"@, "string"@, "Comma-separated recipient agent names"@),
        ("subject"@, "string"@, "Message subject"@),
        ("body"@, "string"@, "Message body"@),
        ("cc"@, "string"@, "Comma-separated CC agent names (optional)"@),
        ("thread_id"@, "string"@, "Thread ID to continue (optional)"@),
        ("importance"@, "string"@, "low, normal, high, or urgent (default: normal)"@),
    ]);
    assert(views(q@) =~= seq!["to"@, "subject"@, "body"@]);
    r.push(tool("send_mail", "Send a message to one or more agents.", p, q));

    let mut p: Vec<ToolParam> = Vec::new();
    p.push(param("message_id", "number", "ID of the message to reply to"));
    p.push(param("body", "string", "Reply body"));
    let mut q: Vec<String> = Vec::new();
    q.push(to_owned("message_id"));
    q.push(to_owned("body"));
    assert(p@.map_values(|p: ToolParam| p@) =~= seq![
        ("message_id"@, "number"@, "ID of the message to reply to"@),
        ("body"@, "string"@, "Reply body"@),
    ]);
    assert(views(q@) =~= seq!["message_id"@, "body"@]);
    r.push(
        tool("reply", "Reply to a message. Pre-fills thread_id and recipient from the original message.", p, q),
    );

    let none: Vec<String> = Vec::new();
    assert(views(none@) =~= Seq::<Seq<char>>::empty());
    let no_params: Vec<ToolParam> = Vec::new();
    assert(no_params@.map_values(|p: ToolParam| p@) =~= Seq::<ParamView>::empty());
    r.push(tool("list_agents", "List all registered agents with their names, roles, and status.", no_params, none));

    let mut p: Vec<ToolParam> = Vec::new();
    p.push(param("query", "string", "Keyword to search in subject and body"));
    p.push(param("from", "string", "Filter by sender agent name"));
    p.push(param("since", "string", "ISO date — messages after this date"));
    p.push(param("limit", "number", "Max results (default 20)"));
    let none: Vec<String> = Vec::new();
    assert(views(none@) =~= Seq::<Seq<char>>::empty());
    assert(p@.map_values(|p: ToolParam| p@) =~= seq![
        ("query"@, "string"@, "Keyword to search in subject and body"@),
        ("from"@, "string"@, "Filter by sender agent name"@),
        ("since"@, "string"@, "ISO date — messages after this date"@),
        ("limit"@, "number"@, "Max results (default 20)"@),
    ]);
    r.push(tool("search_mail", "Search messages by keyword, sender, or date range.", p, none));

    assert(r@.map_values(|t: ToolSpec| t@) =~= tool_catalog_spec());
    assert forall|i: int| 0 <= i < 6 implies tool_kind_spec(#[trigger] r@[i].name@) != ToolKind::Unknown by {
        assert(r@.map_values(|t: ToolSpec| t@)[i] == r@[i]@);
    }
    r
}

fn resource(uri: &str, name: &str, description: &str) -> (r: ResourceSpec)
    ensures
        r@ == (uri@, name@, description@, "text/plain"@),
{
    ResourceSpec {
        uri: to_owned(uri),
        name: to_owned(name),
        description: to_owned(description),
        mime_type: to_owned("text/plain"),
    }
}

/// The resources the server serves, all plain text: the agent directory at
/// `mail://agents`, and the templates of an agent's inbox and of a thread.
pub fn resource_catalog() -> (r: ResourceCatalog)
    ensures
        r.resources@.map_values(|x: ResourceSpec| x@) == seq![
            ("mail://agents"@, "Agent Directory"@, "List of all registered agents"@, "text/plain"@),
        ],
        r.templates@.map_values(|x: ResourceSpec| x@) == seq![
            ("mail://inbox/{agent}"@, "Agent Inbox"@, "Inbox for a specific agent"@, "text/plain"@),
            ("mail://thread/{thread_id}"@, "Thread"@, "Full conversation thread"@, "text/plain"@),
        ],
{
    let mut resources: Vec<ResourceSpec> = Vec::new();
    resources.push(resource("mail://agents", "Agent Directory", "List of all registered agents"));
    let mut templates: Vec<ResourceSpec> = Vec::new();
    templates.push(resource("mail://inbox/{agent}", "Agent Inbox", "Inbox for a specific agent"));
    templates.push(resource("mail://thread/{thread_id}", "Thread", "Full conversation thread"));
    assert(resources@.map_values(|x: ResourceSpec| x@) =~= seq![
        ("mail://agents"@, "Agent Directory"@, "List of all registered agents"@, "text/plain"@),
    ]);
    assert(templates@.map_values(|x: ResourceSpec| x@) =~= seq![
        ("mail://inbox/{agent}"@, "Agent Inbox"@, "Inbox for a specific agent"@, "text/plain"@),
        ("mail://thread/{thread_id}"@, "Thread"@, "Full conversation thread"@, "text/plain"@),
    ]);
    ResourceCatalog { resources, templates }
}

/// The protocol version `2024-11-05`, and the server `vibesql-mail-mcp` at
/// version `1.0.0`.
pub fn server_info() -> (r: ServerInfo)
    ensures
        r.protocol_version@ == "2024-11-05"@,
        r.name@ == "vibesql-mail-mcp"@,
        r.version@ == "1.0.0"@,
{
    ServerInfo {
        protocol_version: to_owned("2024-11-05"),
        name: to_owned("vibesql-mail-mcp"),
        version: to_owned("1.0.0"),
    }
}

} // verus!
