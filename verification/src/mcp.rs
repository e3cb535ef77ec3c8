//! The decisions of the MCP server: command line, method and resource
//! routing, the lazy start-up of a session, tool arguments, and the queries
//! of each tool.

use vstd::prelude::*;
use vstd::utf8::encode_utf8;
use crate::db::{int_param, str_param, QueryResponse, SqlQuery};
use crate::decimal::int_str;
use crate::error::query_is;
use crate::json::{get_i64_spec, get_str_spec, opt_str_view, JsonObject, JsonView};
use crate::models::{col_str, rows_view, RowView};
use crate::routes::messages::{is_importance, MAX_BODY_SIZE, MAX_RECIPIENTS, MAX_SUBJECT_LEN};
use crate::text::{
    join_spec, push_str, split, split_spec, str_eq, to_owned, trim, trim_spec, utf8_len_exceeds,
    views,
};
use crate::decimal::push_i64;
use crate::config::DEFAULT_MICRO_URL;
use crate::routes::agents::{first_invalid_name, first_name_error, lemma_first_name_error_none, name_error};

verus! {

// ---------------------------------------------------------------------------
// Command line
// ---------------------------------------------------------------------------

/// What the command line names.
pub struct CliArgs {
    pub agent: Option<String>,
    pub micro_url: Option<String>,
}

/// The values of `--agent` and `--micro-url` after scanning `args` from
/// position `i`: a flag takes the next argument (none when it is last), a
/// later flag overrides an earlier one, anything else is passed over.
pub open spec fn scan_args(
    args: Seq<Seq<char>>,
    i: int,
    agent: Option<Seq<char>>,
    url: Option<Seq<char>>,
) -> (Option<Seq<char>>, Option<Seq<char>>)
    decreases args.len() - i,
{
    if i < 0 || i >= args.len() {
        (agent, url)
    } else if args[i] == "--agent"@ {
        if i + 1 < args.len() {
            scan_args(args, i + 2, Some(args[i + 1]), url)
        } else {
            (None, url)
        }
    } else if args[i] == "--micro-url"@ {
        if i + 1 < args.len() {
            scan_args(args, i + 2, agent, Some(args[i + 1]))
        } else {
            (agent, None)
        }
    } else {
        scan_args(args, i + 1, agent, url)
    }
}

/// A copy of an optional argument.
fn arg_at(args: &Vec<String>, i: usize) -> (r: Option<String>)
    ensures
        opt_str_view(r) == if i < args@.len() {
            Some(args@[i as int]@)
        } else {
            None::<Seq<char>>
        },
{
    if i < args.len() {
        Some(args[i].clone())
    } else {
        None
    }
}

/// Reads `--agent <name>` and `--micro-url <url>` from the arguments; the
/// first argument is the program's name.
pub fn parse_args(args: &Vec<String>) -> (r: CliArgs)
    ensures
        (opt_str_view(r.agent), opt_str_view(r.micro_url)) == scan_args(views(args@), 1, None, None),
{
    let mut agent: Option<String> = None;
    let mut url: Option<String> = None;
    let mut i: usize = 1;
    while i < args.len()
        invariant
            scan_args(views(args@), 1, None, None) == scan_args(
                views(args@),
                i as int,
                opt_str_view(agent),
                opt_str_view(url),
            ),
            1 <= i,
        decreases args.len() - i,
    {
        let a = args[i].as_str();
        assert(views(args@)[i as int] == args@[i as int]@);
        if str_eq(a, "--agent") {
            agent = arg_at(args, i + 1);
            i = if i + 1 < args.len() {
                i + 2
            } else {
                args.len()
            };
        } else if str_eq(a, "--micro-url") {
            url = arg_at(args, i + 1);
            i = if i + 1 < args.len() {
                i + 2
            } else {
                args.len()
            };
        } else {
            i = i + 1;
        }
    }
    CliArgs { agent, micro_url: url }
}

/// The agent and the service to use: the command line first, then the
/// environment (`AGENT_NAME`, `VIBESQL_MAIL_MICRO_URL`), then the default
/// service. `None` when no agent is named anywhere.
pub fn resolve_cli(cli: CliArgs, env_agent: Option<String>, env_url: Option<String>) -> (r: Option<
    (String, String),
>)
    ensures
        match (cli.agent, env_agent) {
            (None, None) => r is None,
            _ => r matches Some(p) && p.0@ == match cli.agent {
                Some(a) => a@,
                None => env_agent->0@,
            } && p.1@ == match (cli.micro_url, env_url) {
                (Some(u), _) => u@,
                (None, Some(u)) => u@,
                (None, None) => DEFAULT_MICRO_URL@,
            },
        },
{
    let agent = match cli.agent {
        Some(a) => a,
        None => match env_agent {
            Some(a) => a,
            None => return None,
        },
    };
    let url = match cli.micro_url {
        Some(u) => u,
        None => match env_url {
            Some(u) => u,
            None => to_owned(DEFAULT_MICRO_URL),
        },
    };
    Some((agent, url))
}

// ---------------------------------------------------------------------------
// JSON-RPC routing
// ---------------------------------------------------------------------------

/// The methods the server answers.
#[derive(PartialEq, Eq, Structural, Clone, Copy)]
pub enum RpcMethod {
    Initialize,
    ToolsList,
    ToolsCall,
    ResourcesList,
    ResourcesRead,
    Unknown,
}

pub open spec fn rpc_method_spec(m: Seq<char>) -> RpcMethod {
    if m == "initialize"@ {
        RpcMethod::Initialize
    } else if m == "tools/list"@ {
        RpcMethod::ToolsList
    } else if m == "tools/call"@ {
        RpcMethod::ToolsCall
    } else if m == "resources/list"@ {
        RpcMethod::ResourcesList
    } else if m == "resources/read"@ {
        RpcMethod::ResourcesRead
    } else {
        RpcMethod::Unknown
    }
}

/// Which method a request names.
pub fn rpc_method(m: &str) -> (r: RpcMethod)
    ensures
        r == rpc_method_spec(m@),
{
    if str_eq(m, "initialize") {
        RpcMethod::Initialize
    } else if str_eq(m, "tools/list") {
        RpcMethod::ToolsList
    } else if str_eq(m, "tools/call") {
        RpcMethod::ToolsCall
    } else if str_eq(m, "resources/list") {
        RpcMethod::ResourcesList
    } else if str_eq(m, "resources/read") {
        RpcMethod::ResourcesRead
    } else {
        RpcMethod::Unknown
    }
}

/// An error answer: its code and message.
pub struct RpcError {
    pub code: i64,
    pub message: String,
}

/// The answer to a method the server does not know.
pub fn method_not_found(m: &str) -> (r: RpcError)
    ensures
        r.code == -32601,
        r.message@ == "Method not found: "@ + m@,
{
    let mut msg = to_owned("Method not found: ");
    push_str(&mut msg, m);
    RpcError { code: -32601, message: msg }
}

/// A server-side error answer.
pub fn mcp_error(msg: &str) -> (r: RpcError)
    ensures
        r.code == -32000,
        r.message@ == msg@,
{
    RpcError { code: -32000, message: to_owned(msg) }
}

/// Whether a request is answered: notifications (no id) are not.
pub fn answers(has_id: bool) -> (r: bool)
    ensures
        r == has_id,
{
    has_id
}

// ---------------------------------------------------------------------------
// Resources and tools
// ---------------------------------------------------------------------------

/// What a resource address names.
pub enum ResourceRoute {
    Agents,
    Inbox(String),
    Thread(String),
    Unknown,
}

/// Routes a resource address: `mail://agents`, `mail://inbox/{agent}`,
/// `mail://thread/{thread_id}`.
pub fn route_resource(uri: &str) -> (r: ResourceRoute)
    ensures
        uri@ == "mail://agents"@ ==> r is Agents,
        uri@ != "mail://agents"@ && "mail://inbox/"@.is_prefix_of(uri@) ==> (r matches ResourceRoute::Inbox(
            a,
        ) && a@ == uri@.skip("mail://inbox/"@.len() as int)),
        uri@ != "mail://agents"@ && !"mail://inbox/"@.is_prefix_of(uri@) && "mail://thread/"@.is_prefix_of(
            uri@,
        ) ==> (r matches ResourceRoute::Thread(t) && t@ == uri@.skip("mail://thread/"@.len() as int)),
        uri@ != "mail://agents"@ && !"mail://inbox/"@.is_prefix_of(uri@)
            && !"mail://thread/"@.is_prefix_of(uri@) ==> r is Unknown,
{
    if str_eq(uri, "mail://agents") {
        return ResourceRoute::Agents;
    }
    match crate::text::strip_prefix(uri, "mail://inbox/") {
        Some(a) => return ResourceRoute::Inbox(a),
        None => {},
    }
    match crate::text::strip_prefix(uri, "mail://thread/") {
        Some(t) => ResourceRoute::Thread(t),
        None => ResourceRoute::Unknown,
    }
}

/// The message for an address that names no resource.
pub fn unknown_resource(uri: &str) -> (r: String)
    ensures
        r@ == "Unknown resource: "@ + uri@,
{
    let mut m = to_owned("Unknown resource: ");
    push_str(&mut m, uri);
    m
}

/// The tools the server offers.
#[derive(PartialEq, Eq, Structural, Clone, Copy)]
pub enum ToolKind {
    CheckInbox,
    ReadMessage,
    SendMail,
    Reply,
    ListAgents,
    SearchMail,
    Unknown,
}

pub open spec fn tool_kind_spec(n: Seq<char>) -> ToolKind {
    if n == "check_inbox"@ {
        ToolKind::CheckInbox
    } else if n == "read_message"@ {
        ToolKind::ReadMessage
    } else if n == "send_mail"@ {
        ToolKind::SendMail
    } else if n == "reply"@ {
        ToolKind::Reply
    } else if n == "list_agents"@ {
        ToolKind::ListAgents
    } else if n == "search_mail"@ {
        ToolKind::SearchMail
    } else {
        ToolKind::Unknown
    }
}

/// Which tool a call names.
pub fn tool_kind(n: &str) -> (r: ToolKind)
    ensures
        r == tool_kind_spec(n@),
{
    if str_eq(n, "check_inbox") {
        ToolKind::CheckInbox
    } else if str_eq(n, "read_message") {
        ToolKind::ReadMessage
    } else if str_eq(n, "send_mail") {
        ToolKind::SendMail
    } else if str_eq(n, "reply") {
        ToolKind::Reply
    } else if str_eq(n, "list_agents") {
        ToolKind::ListAgents
    } else if str_eq(n, "search_mail") {
        ToolKind::SearchMail
    } else {
        ToolKind::Unknown
    }
}

/// The failure of a call to a tool the server does not offer.
pub fn unknown_tool(n: &str) -> (r: String)
    ensures
        r@ == "Unknown tool: "@ + n@,
{
    let mut m = to_owned("Unknown tool: ");
    push_str(&mut m, n);
    m
}

/// What a tool call answers: one text, and whether it reports an error.
pub struct ToolOutcome {
    pub text: String,
    pub is_error: bool,
}

/// The answer to a tool call: the tool's text, or `Error: ...` flagged as an
/// error.
pub fn tool_outcome(r: Result<String, String>) -> (o: ToolOutcome)
    ensures
        match r {
            Ok(t) => o.text@ == t@ && !o.is_error,
            Err(e) => o.text@ == "Error: "@ + e@ && o.is_error,
        },
{
    match r {
        Ok(t) => ToolOutcome { text: t, is_error: false },
        Err(e) => {
            let mut m = to_owned("Error: ");
            push_str(&mut m, e.as_str());
            ToolOutcome { text: m, is_error: true }
        },
    }
}

/// The text of a start-up failure.
pub fn startup_error(e: &str) -> (r: String)
    ensures
        r@ == "agent-mail-mcp startup error: "@ + e@,
{
    let mut m = to_owned("agent-mail-mcp startup error: ");
    push_str(&mut m, e);
    m
}

/// The answer to a tool call when the session could not start.
pub fn startup_outcome(e: &str) -> (o: ToolOutcome)
    ensures
        o.text@ == "agent-mail-mcp startup error: "@ + e@,
        o.is_error,
{
    ToolOutcome { text: startup_error(e), is_error: true }
}

// ---------------------------------------------------------------------------
// Session start-up
// ---------------------------------------------------------------------------

/// Why start-up failed when the schema could not be applied to the service
/// at `url`.
pub open spec fn migration_failure_spec(url: Seq<char>, e: Seq<char>) -> Seq<char> {
    "Cannot reach vibesql-micro ("@ + url + "). Is it running? Error: "@ + e
}

/// Why start-up failed when the agent `name` could not be resolved.
pub open spec fn resolve_failure_spec(name: Seq<char>, e: Seq<char>) -> Seq<char> {
    "Connected to vibesql-micro but failed to resolve agent '"@ + name + "': "@ + e
}

/// A session: the agent it acts for and, once started, the agent's id.
pub struct McpSession {
    pub agent_name: String,
    pub micro_url: String,
    pub agent_id: Option<i64>,
    pub initialized: bool,
}

impl McpSession {
    /// A session that has not connected yet.
    pub fn new(agent_name: String, micro_url: String) -> (r: McpSession)
        ensures
            r.agent_name == agent_name,
            r.micro_url == micro_url,
            r.agent_id is None,
            !r.initialized,
    {
        McpSession { agent_name, micro_url, agent_id: None, initialized: false }
    }

    /// The outcome of a started session (`None` while it has not started):
    /// its agent's id.
    pub fn ready(&self) -> (r: Option<Result<i64, String>>)
        ensures
            !self.initialized ==> r is None,
            self.initialized ==> match self.agent_id {
                Some(id) => r == Some(Ok::<i64, String>(id)),
                None => r matches Some(Err(m)) && m@ == "Agent ID not resolved (this should not happen)"@,
            },
    {
        if !self.initialized {
            return None;
        }
        match self.agent_id {
            Some(id) => Some(Ok(id)),
            None => Some(Err(to_owned("Agent ID not resolved (this should not happen)"))),
        }
    }

    /// Why start-up failed when the schema could not be applied.
    pub fn migration_failure(&self, e: &str) -> (r: String)
        ensures
            r@ == migration_failure_spec(self.micro_url@, e@),
    {
        let mut m = to_owned("Cannot reach vibesql-micro (");
        push_str(&mut m, self.micro_url.as_str());
        push_str(&mut m, "). Is it running? Error: ");
        push_str(&mut m, e);
        m
    }

    /// Why start-up failed when the agent could not be resolved.
    pub fn resolve_failure(&self, e: &str) -> (r: String)
        ensures
            r@ == resolve_failure_spec(self.agent_name@, e@),
    {
        let mut m = to_owned("Connected to vibesql-micro but failed to resolve agent '");
        push_str(&mut m, self.agent_name.as_str());
        push_str(&mut m, "': ");
        push_str(&mut m, e);
        m
    }

    /// Records the agent's id: the session is started.
    pub fn mark_ready(&mut self, id: i64)
        ensures
            final(self).agent_id == Some(id),
            final(self).initialized,
            final(self).agent_name == old(self).agent_name,
            final(self).micro_url == old(self).micro_url,
    {
        self.agent_id = Some(id);
        self.initialized = true;
    }

    /// The agent's id; the session must have started.
    pub fn get_agent_id(&self) -> (r: i64)
        requires
            self.agent_id is Some,
        ensures
            r == self.agent_id->0,
    {
        match self.agent_id {
            Some(id) => id,
            None => 0,
        }
    }
}

// ---------------------------------------------------------------------------
// Tool arguments
// ---------------------------------------------------------------------------

/// `Missing required argument: <key>`.
pub open spec fn missing_arg(key: Seq<char>) -> Seq<char> {
    "Missing required argument: "@ + key
}

fn missing(key: &str) -> (r: String)
    ensures
        r@ == missing_arg(key@),
{
    let mut m = to_owned("Missing required argument: ");
    push_str(&mut m, key);
    m
}

/// The integer argument `key`.
pub fn required_i64(args: &JsonObject, key: &str) -> (r: Result<i64, String>)
    ensures
        match get_i64_spec(args@, key@) {
            Some(v) => r == Ok::<i64, String>(v),
            None => r matches Err(m) && m@ == missing_arg(key@),
        },
{
    match args.get_i64(key) {
        Some(v) => Ok(v),
        None => Err(missing(key)),
    }
}

/// The text argument `key`.
pub fn required_str(args: &JsonObject, key: &str) -> (r: Result<String, String>)
    ensures
        match get_str_spec(args@, key@) {
            Some(v) => r matches Ok(s) && s@ == v,
            None => r matches Err(m) && m@ == missing_arg(key@),
        },
{
    match args.get_str(key) {
        Some(v) => Ok(v),
        None => Err(missing(key)),
    }
}

/// The names in a comma-separated list: each trimmed, empty ones left out.
pub open spec fn name_list(pieces: Seq<Seq<char>>) -> Seq<Seq<char>>
    decreases pieces.len(),
{
    if pieces.len() == 0 {
        Seq::<Seq<char>>::empty()
    } else {
        let prev = name_list(pieces.drop_last());
        let t = trim_spec(pieces.last());
        if t.len() == 0 {
            prev
        } else {
            prev.push(t)
        }
    }
}

proof fn lemma_name_list(pieces: Seq<Seq<char>>)
    ensures
        forall|i: int| 0 <= i < name_list(pieces).len() ==> (#[trigger] name_list(pieces)[i]).len() > 0,
        name_list(pieces).len() <= pieces.len(),
    decreases pieces.len(),
{
    if pieces.len() > 0 {
        lemma_name_list(pieces.drop_last());
        let prev = name_list(pieces.drop_last());
        let r = name_list(pieces);
        assert forall|i: int| 0 <= i < r.len() implies (#[trigger] r[i]).len() > 0 by {
            if i < prev.len() {
                assert(r[i] == prev[i]);
            }
        }
    }
}

/// A comma-separated recipient list never yields an empty name, and yields
/// at most one name per piece.
pub proof fn law_names_nonempty(s: Seq<char>)
    ensures
        forall|i: int|
            0 <= i < name_list(split_spec(s, ',')).len() ==> (#[trigger] name_list(
                split_spec(s, ','),
            )[i]).len() > 0,
        name_list(split_spec(s, ',')).len() <= split_spec(s, ',').len(),
{
    lemma_name_list(split_spec(s, ','));
}

/// The names of a comma-separated list.
pub fn split_names(s: &str) -> (r: Vec<String>)
    ensures
        views(r@) == name_list(split_spec(s@, ',')),
{
    let pieces = split(s, ',');
    let mut out: Vec<String> = Vec::new();
    let mut i: usize = 0;
    assert(views(pieces@).take(0) =~= Seq::<Seq<char>>::empty());
    assert(views(out@) =~= Seq::<Seq<char>>::empty());
    while i < pieces.len()
        invariant
            i <= pieces@.len(),
            views(pieces@) == split_spec(s@, ','),
            views(out@) == name_list(views(pieces@).take(i as int)),
        decreases pieces.len() - i,
    {
        assert(views(pieces@).take(i + 1).drop_last() =~= views(pieces@).take(i as int));
        assert(views(pieces@).take(i + 1).last() == pieces@[i as int]@);
        let t = trim(pieces[i].as_str());
        if !t.as_str().is_empty() {
            let ghost tv = t@;
            out.push(t);
            assert(views(out@) =~= name_list(views(pieces@).take(i as int)).push(tv));
        }
        i = i + 1;
    }
    assert(views(pieces@).take(pieces@.len() as int) =~= views(pieces@));
    out
}

/// The arguments of `send_mail`.
pub struct SendArgs {
    pub to: Vec<String>,
    pub cc: Vec<String>,
    pub subject: String,
    pub body: String,
    pub thread_id: Option<String>,
    pub importance: String,
}

/// The recipients named by the text argument `key` (none when absent).
pub open spec fn names_arg(args: RowView, key: Seq<char>) -> Seq<Seq<char>> {
    match get_str_spec(args, key) {
        Some(s) => name_list(split_spec(s, ',')),
        None => Seq::<Seq<char>>::empty(),
    }
}

/// Why `send_mail` arguments are refused, if they are (in this order): a
/// missing `to`, `subject` or `body`, no recipient, more than ten in all, an
/// empty body, a body over 65536 bytes, a subject over 256 characters, an
/// unknown importance, a recipient name that could not be registered.
pub open spec fn send_args_error(args: RowView) -> Option<Seq<char>> {
    if get_str_spec(args, "to"@) is None {
        Some(missing_arg("to"@))
    } else if get_str_spec(args, "subject"@) is None {
        Some(missing_arg("subject"@))
    } else if get_str_spec(args, "body"@) is None {
        Some(missing_arg("body"@))
    } else {
        let to = names_arg(args, "to"@);
        let cc = names_arg(args, "cc"@);
        let body = get_str_spec(args, "body"@)->0;
        let subject = get_str_spec(args, "subject"@)->0;
        let importance = crate::json::or_default(get_str_spec(args, "importance"@), "normal"@);
        if to.len() == 0 {
            Some("'to' must have at least one recipient"@)
        } else if to.len() + cc.len() > MAX_RECIPIENTS {
            Some("Max 10 recipients"@)
        } else if body.len() == 0 {
            Some("Body cannot be empty"@)
        } else if encode_utf8(body).len() > MAX_BODY_SIZE {
            Some("Body exceeds max size of 65536 bytes"@)
        } else if subject.len() > MAX_SUBJECT_LEN {
            Some("Subject exceeds max length of 256 chars"@)
        } else if !is_importance(importance) {
            Some("importance must be low, normal, high, or urgent"@)
        } else {
            first_name_error(to + cc)
        }
    }
}

/// The importance of `send_mail` is one of the four words `low`, `normal`,
/// `high` and `urgent`, `normal` when it is not given: arguments that meet
/// every other limit are refused for their importance exactly when it is
/// another word, and otherwise only a bad recipient name can refuse them.
pub proof fn law_send_args_importance_levels(args: RowView)
    requires
        get_str_spec(args, "to"@) is Some,
        get_str_spec(args, "subject"@) is Some,
        get_str_spec(args, "body"@) is Some,
        1 <= names_arg(args, "to"@).len(),
        names_arg(args, "to"@).len() + names_arg(args, "cc"@).len() <= 10,
        1 <= get_str_spec(args, "body"@)->0.len(),
        encode_utf8(get_str_spec(args, "body"@)->0).len() <= 65536,
        get_str_spec(args, "subject"@)->0.len() <= 256,
    ensures
        ({
            let given = get_str_spec(args, "importance"@);
            let known = given is None || given == Some("low"@) || given == Some("normal"@) || given
                == Some("high"@) || given == Some("urgent"@);
            &&& known ==> send_args_error(args) == first_name_error(
                names_arg(args, "to"@) + names_arg(args, "cc"@),
            )
            &&& !known ==> send_args_error(args) == Some(
                "importance must be low, normal, high, or urgent"@,
            )
        }),
{
}

/// The arguments of an accepted `send_mail` keep within the documented
/// limits: at least one direct recipient and at most ten in all, a body of 1
/// to 65,536 bytes, a subject of at most 256 characters, a known importance,
/// and valid recipient names.
pub proof fn law_accepted_send_args_within_limits(args: RowView)
    requires
        send_args_error(args) is None,
    ensures
        1 <= names_arg(args, "to"@).len(),
        names_arg(args, "to"@).len() + names_arg(args, "cc"@).len() <= 10,
        1 <= get_str_spec(args, "body"@)->0.len(),
        encode_utf8(get_str_spec(args, "body"@)->0).len() <= 65536,
        get_str_spec(args, "subject"@)->0.len() <= 256,
        is_importance(crate::json::or_default(get_str_spec(args, "importance"@), "normal"@)),
        forall|i: int|
            0 <= i < names_arg(args, "to"@).len() + names_arg(args, "cc"@).len() ==> name_error(
                #[trigger] (names_arg(args, "to"@) + names_arg(args, "cc"@))[i],
            ) is None,
{
    lemma_first_name_error_none(names_arg(args, "to"@) + names_arg(args, "cc"@));
}

/// Reads and checks the arguments of `send_mail`.
pub fn parse_send_args(args: &JsonObject) -> (r: Result<SendArgs, String>)
    ensures
        match send_args_error(args@) {
            Some(m) => r matches Err(e) && e@ == m,
            None => r matches Ok(a) && {
                &&& views(a.to@) == names_arg(args@, "to"@)
                &&& views(a.cc@) == names_arg(args@, "cc"@)
                &&& a.subject@ == get_str_spec(args@, "subject"@)->0
                &&& a.body@ == get_str_spec(args@, "body"@)->0
                &&& opt_str_view(a.thread_id) == get_str_spec(args@, "thread_id"@)
                &&& a.importance@ == crate::json::or_default(
                    get_str_spec(args@, "importance"@),
                    "normal"@,
                )
            },
        },
{
    let to_str = required_str(args, "to")?;
    let subject = required_str(args, "subject")?;
    let body = required_str(args, "body")?;
    let to = split_names(to_str.as_str());
    let cc = match args.get_str("cc") {
        Some(s) => split_names(s.as_str()),
        None => Vec::new(),
    };
    assert(views(cc@) == names_arg(args@, "cc"@)) by {
        if get_str_spec(args@, "cc"@) is None {
            assert(views(cc@) =~= Seq::<Seq<char>>::empty());
        }
    }
    let thread_id = args.get_str("thread_id");
    let importance = args.get_str_or("importance", "normal");
    if to.len() == 0 {
        return Err(to_owned("'to' must have at least one recipient"));
    }
    if to.len() > MAX_RECIPIENTS || cc.len() > MAX_RECIPIENTS - to.len() {
        return Err(to_owned("Max 10 recipients"));
    }
    if body.as_str().is_empty() {
        return Err(to_owned("Body cannot be empty"));
    }
    if utf8_len_exceeds(body.as_str(), MAX_BODY_SIZE) {
        return Err(to_owned("Body exceeds max size of 65536 bytes"));
    }
    if crate::text::chars_of(subject.as_str()).len() > MAX_SUBJECT_LEN {
        return Err(to_owned("Subject exceeds max length of 256 chars"));
    }
    if !crate::routes::messages::importance_ok(importance.as_str()) {
        return Err(to_owned("importance must be low, normal, high, or urgent"));
    }
    let everyone = crate::routes::messages::all_recipients(&to, &cc);
    match first_invalid_name(&everyone) {
        Some(m) => return Err(m),
        None => {},
    }
    Ok(SendArgs { to, cc, subject, body, thread_id, importance })
}

/// The subject of a reply: the original subject when it already begins
/// `RE: `, else `RE: ` before it.
pub open spec fn reply_subject_spec(orig: Seq<char>) -> Seq<char> {
    if "RE: "@.is_prefix_of(orig) {
        orig
    } else {
        "RE: "@ + orig
    }
}

/// The subject of a reply to a message with subject `orig`.
pub fn reply_subject(orig: &str) -> (r: String)
    ensures
        r@ == reply_subject_spec(orig@),
{
    if crate::text::starts_with(orig, "RE: ") {
        to_owned(orig)
    } else {
        let mut s = to_owned("RE: ");
        push_str(&mut s, orig);
        s
    }
}

/// Replying to a reply does not stack prefixes: `RE: ` is added at most once.
pub proof fn law_reply_subject_idempotent(orig: Seq<char>)
    ensures
        reply_subject_spec(reply_subject_spec(orig)) == reply_subject_spec(orig),
        "RE: "@.is_prefix_of(reply_subject_spec(orig)),
{
    if !"RE: "@.is_prefix_of(orig) {
        let r = "RE: "@ + orig;
        assert(r.subrange(0, "RE: "@.len() as int) =~= "RE: "@);
    }
}

/// What a reply takes from the message it answers.
pub struct ReplySource {
    pub from_agent: String,
    pub subject: String,
    pub thread_id: String,
}

/// The sender, subject and thread of the answered message (empty when absent).
pub fn reply_source(row: &JsonObject) -> (r: ReplySource)
    ensures
        r.from_agent@ == col_str(row@, "from_agent"@, ""@),
        r.subject@ == col_str(row@, "subject"@, ""@),
        r.thread_id@ == col_str(row@, "thread_id"@, ""@),
{
    ReplySource {
        from_agent: row.get_str_or("from_agent", ""),
        subject: row.get_str_or("subject", ""),
        thread_id: row.get_str_or("thread_id", ""),
    }
}

/// The first row of a reply, or `Message <id> not found`.
pub fn message_row(result: &QueryResponse, id: i64) -> (r: Result<&JsonObject, String>)
    ensures
        match r {
            Ok(row) => rows_view(result.rows).len() > 0 && row@ == rows_view(result.rows)[0],
            Err(e) => rows_view(result.rows).len() == 0 && e@ == "Message "@ + int_str(id as int)
                + " not found"@,
        },
{
    match crate::routes::messages::message_row(result, id) {
        Ok(row) => Ok(row),
        Err(e) => Err(e.message().clone()),
    }
}

/// The id of the agent a lookup found, or `Agent '<name>' not found`.
pub fn agent_id_or_not_found(result: &QueryResponse, name: &str) -> (r: Result<i64, String>)
    ensures
        match crate::routes::agents::first_id(*result) {
            Some(id) => r == Ok::<i64, String>(id),
            None => r matches Err(e) && e@ == "Agent '"@ + name@ + "' not found"@,
        },
{
    match crate::routes::messages::agent_id_or_not_found(result, name) {
        Ok(id) => Ok(id),
        Err(e) => Err(e.message().clone()),
    }
}

// ---------------------------------------------------------------------------
// Tool queries
// ---------------------------------------------------------------------------

pub const SQL_UNREAD_OF: &'static str = "SELECT COUNT(*) as cnt FROM inbox WHERE agent_id = $1::int AND read_at IS NULL AND archived_at IS NULL";

pub const SQL_TOTAL_OF: &'static str = "SELECT COUNT(*) as cnt FROM inbox WHERE agent_id = $1::int AND archived_at IS NULL";

pub const SQL_RECENT: &'static str = "SELECT i.id as inbox_id, m.id as message_id, a.name as from_agent, \
             m.subject, m.created_at::text as created_at, i.read_at::text as read_at \
             FROM inbox i \
             JOIN messages m ON m.id = i.message_id \
             JOIN agents a ON a.id = m.from_agent_id \
             WHERE i.agent_id = $1::int AND i.archived_at IS NULL \
             ORDER BY m.created_at DESC LIMIT 20";

pub const SQL_MARK_READ_FOR: &'static str = "UPDATE inbox SET read_at = NOW() \
             WHERE message_id = $1::int AND agent_id = $2::int AND read_at IS NULL";

pub const SQL_REPLY_SOURCE: &'static str = "SELECT a.name as from_agent, m.subject, m.thread_id \
             FROM messages m \
             JOIN agents a ON a.id = m.from_agent_id \
             WHERE m.id = $1::int";

pub const SQL_SEND: &'static str = "INSERT INTO messages (from_agent_id, thread_id, subject, body, body_format, importance) \
             VALUES ($1::int, $2::text, $3::text, $4::text, 'markdown', $5::text) \
             RETURNING id, created_at::text";

pub const SQL_DIRECTORY: &'static str = "SELECT name, role, is_active, last_active_at::text \
             FROM agents ORDER BY name";

pub const SQL_THREAD_TEXT: &'static str = "SELECT m.id as message_id, a.name as from_agent, m.subject, m.body, \
             m.created_at::text as created_at \
             FROM messages m \
             JOIN agents a ON a.id = m.from_agent_id \
             WHERE m.thread_id = $1::text \
             ORDER BY m.created_at ASC";

/// The three queries of `check_inbox` once the agent is known: unread
/// count, total count, and the twenty most recent entries.
pub fn inbox_summary_queries(agent_id: i64) -> (r: (SqlQuery, SqlQuery, SqlQuery))
    ensures
        query_is(r.0, SQL_UNREAD_OF@, seq![JsonView::Int(agent_id)]),
        query_is(r.1, SQL_TOTAL_OF@, seq![JsonView::Int(agent_id)]),
        query_is(r.2, SQL_RECENT@, seq![JsonView::Int(agent_id)]),
{
    (
        crate::routes::messages::query_with_id(SQL_UNREAD_OF, agent_id),
        crate::routes::messages::query_with_id(SQL_TOTAL_OF, agent_id),
        crate::routes::messages::query_with_id(SQL_RECENT, agent_id),
    )
}

/// The update that marks message `message_id` read for the session's agent.
pub fn mark_read_for_query(message_id: i64, agent_id: i64) -> (q: SqlQuery)
    ensures
        query_is(q, SQL_MARK_READ_FOR@, seq![JsonView::Int(message_id), JsonView::Int(agent_id)]),
{
    let q = SqlQuery {
        sql: to_owned(SQL_MARK_READ_FOR),
        params: vec![int_param(message_id), int_param(agent_id)],
    };
    assert(crate::db::params_view(q.params@) =~= seq![
        JsonView::Int(message_id),
        JsonView::Int(agent_id),
    ]);
    q
}

/// The insert of a message from the session's agent (always markdown).
pub fn send_query(from_id: i64, thread_id: &str, subject: &str, body: &str, importance: &str) -> (q:
    SqlQuery)
    ensures
        query_is(
            q,
            SQL_SEND@,
            seq![
                JsonView::Int(from_id),
                JsonView::Str(thread_id@),
                JsonView::Str(subject@),
                JsonView::Str(body@),
                JsonView::Str(importance@),
            ],
        ),
{
    let q = SqlQuery {
        sql: to_owned(SQL_SEND),
        params: vec![
            int_param(from_id),
            str_param(thread_id),
            str_param(subject),
            str_param(body),
            str_param(importance),
        ],
    };
    assert(crate::db::params_view(q.params@) =~= seq![
        JsonView::Int(from_id),
        JsonView::Str(thread_id@),
        JsonView::Str(subject@),
        JsonView::Str(body@),
        JsonView::Str(importance@),
    ]);
    q
}

/// The id of an inserted message, or `Failed to insert message`.
pub fn sent_id(result: &QueryResponse) -> (r: Result<i64, String>)
    ensures
        match crate::routes::agents::first_id(*result) {
            Some(id) => r == Ok::<i64, String>(id),
            None => r matches Err(e) && e@ == "Failed to insert message"@,
        },
{
    match crate::db::DbClient::field_i64(result, 0, "id") {
        Some(id) => Ok(id),
        None => Err(to_owned("Failed to insert message")),
    }
}

/// The thread query of the MCP server.
pub fn thread_text_query(tid: &str) -> (q: SqlQuery)
    ensures
        query_is(q, SQL_THREAD_TEXT@, seq![JsonView::Str(tid@)]),
{
    let q = SqlQuery { sql: to_owned(SQL_THREAD_TEXT), params: vec![str_param(tid)] };
    assert(crate::db::params_view(q.params@) =~= seq![JsonView::Str(tid@)]);
    q
}

// ---------------------------------------------------------------------------
// Search
// ---------------------------------------------------------------------------

pub const SEARCH_HEAD: &'static str = "SELECT m.id as message_id, a.name as from_agent, m.subject, m.body, \
         m.created_at::text as created_at, i.read_at::text as read_at \
         FROM inbox i \
         JOIN messages m ON m.id = i.message_id \
         JOIN agents a ON a.id = m.from_agent_id \
         WHERE ";

pub const SEARCH_TAIL: &'static str = " ORDER BY m.created_at DESC LIMIT $";

/// The filters of a search.
pub struct SearchArgs {
    pub keyword: Option<String>,
    pub from: Option<String>,
    pub since: Option<String>,
    /// At most 100; 20 when absent.
    pub limit: i64,
}

/// `n` as an SQL placeholder: `$n`.
pub open spec fn placeholder(n: int) -> Seq<char> {
    "$"@ + int_str(n)
}

/// The number of the placeholder that follows the optional filters up to
/// and including the one at `upto`: filters are numbered from 2 in the order
/// keyword, sender, date.
pub open spec fn search_conditions(a: SearchArgs) -> Seq<Seq<char>> {
    let k = 2int;
    let f = k + if a.keyword is Some { 1int } else { 0int };
    let d = f + if a.from is Some { 1int } else { 0int };
    seq!["i.agent_id = $1::int"@, "i.archived_at IS NULL"@] + (if a.keyword is Some {
        seq![
            "(m.subject ILIKE "@ + placeholder(k) + "::text OR m.body ILIKE "@ + placeholder(k)
                + "::text)"@,
        ]
    } else {
        Seq::empty()
    }) + (if a.from is Some {
        seq!["a.name = "@ + placeholder(f) + "::text"@]
    } else {
        Seq::empty()
    }) + (if a.since is Some {
        seq!["m.created_at >= "@ + placeholder(d) + "::timestamptz"@]
    } else {
        Seq::empty()
    })
}

/// The number of the limit's placeholder: one past the filters.
pub open spec fn limit_index(a: SearchArgs) -> int {
    2 + (if a.keyword is Some { 1int } else { 0int }) + (if a.from is Some { 1int } else { 0int })
        + (if a.since is Some { 1int } else { 0int })
}

/// The parameters of a search, in placeholder order.
pub open spec fn search_params(agent_id: i64, a: SearchArgs) -> Seq<JsonView> {
    seq![JsonView::Int(agent_id)] + (match a.keyword {
        Some(kw) => seq![JsonView::Str("%"@ + kw@ + "%"@)],
        None => Seq::empty(),
    }) + (match a.from {
        Some(f) => seq![JsonView::Str(f@)],
        None => Seq::empty(),
    }) + (match a.since {
        Some(d) => seq![JsonView::Str(d@)],
        None => Seq::empty(),
    }) + seq![JsonView::Int(a.limit)]
}

/// The statement of a search.
pub open spec fn search_sql(a: SearchArgs) -> Seq<char> {
    SEARCH_HEAD@ + join_spec(search_conditions(a), " AND "@) + SEARCH_TAIL@ + int_str(limit_index(a))
        + "::int"@
}

/// Reads the search filters: `query`, `from`, `since` and `limit`.
pub fn search_args(args: &JsonObject) -> (r: SearchArgs)
    ensures
        opt_str_view(r.keyword) == get_str_spec(args@, "query"@),
        opt_str_view(r.from) == get_str_spec(args@, "from"@),
        opt_str_view(r.since) == get_str_spec(args@, "since"@),
        r.limit == {
            let l = crate::models::i64_or(get_i64_spec(args@, "limit"@), 20);
            if l < 100 {
                l
            } else {
                100
            }
        },
{
    let l = match args.get_i64("limit") {
        Some(v) => v,
        None => 20,
    };
    SearchArgs {
        keyword: args.get_str("query"),
        from: args.get_str("from"),
        since: args.get_str("since"),
        limit: if l < 100 {
            l
        } else {
            100
        },
    }
}

fn placeholder_text(prefix: &str, n: i64, suffix: &str) -> (r: String)
    ensures
        r@ == prefix@ + placeholder(n as int) + suffix@,
{
    let mut s = to_owned(prefix);
    push_str(&mut s, "$");
    push_i64(&mut s, n);
    push_str(&mut s, suffix);
    assert(s@ =~= prefix@ + placeholder(n as int) + suffix@);
    s
}

/// The search over the inbox of `agent_id`: newest first, filtered by
/// keyword (in subject or body, case-insensitive), sender and date, with
/// one numbered parameter per filter.
pub fn search_query(agent_id: i64, a: &SearchArgs) -> (q: SqlQuery)
    ensures
        q.sql@ == search_sql(*a),
        crate::db::params_view(q.params@) == search_params(agent_id, *a),
{
    let mut conditions: Vec<String> = Vec::new();
    conditions.push(to_owned("i.agent_id = $1::int"));
    conditions.push(to_owned("i.archived_at IS NULL"));
    let mut params: Vec<crate::json::JsonValue> = Vec::new();
    params.push(int_param(agent_id));
    let mut idx: i64 = 2;
    let ghost c0 = views(conditions@);
    let ghost p0 = crate::db::params_view(params@);
    assert(c0 =~= seq!["i.agent_id = $1::int"@, "i.archived_at IS NULL"@]);
    match &a.keyword {
        Some(kw) => {
            let mut c = placeholder_text("(m.subject ILIKE ", idx, "::text OR m.body ILIKE ");
            push_str(&mut c, "$");
            push_i64(&mut c, idx);
            push_str(&mut c, "::text)");
            assert(c@ =~= "(m.subject ILIKE "@ + placeholder(idx as int) + "::text OR m.body ILIKE "@
                + placeholder(idx as int) + "::text)"@);
            conditions.push(c);
            let mut p = to_owned("%");
            push_str(&mut p, kw.as_str());
            push_str(&mut p, "%");
            assert(p@ =~= "%"@ + kw@ + "%"@);
            params.push(crate::json::JsonValue::Str(p));
            idx = idx + 1;
        },
        None => {},
    }
    let ghost c1 = views(conditions@);
    let ghost p1 = crate::db::params_view(params@);
    match &a.from {
        Some(f) => {
            conditions.push(placeholder_text("a.name = ", idx, "::text"));
            params.push(str_param(f.as_str()));
            idx = idx + 1;
        },
        None => {},
    }
    let ghost c2 = views(conditions@);
    let ghost p2 = crate::db::params_view(params@);
    match &a.since {
        Some(d) => {
            conditions.push(placeholder_text("m.created_at >= ", idx, "::timestamptz"));
            params.push(str_param(d.as_str()));
            idx = idx + 1;
        },
        None => {},
    }
    proof {
        let k = 2int;
        let f = k + if a.keyword is Some { 1int } else { 0int };
        let d = f + if a.from is Some { 1int } else { 0int };
        assert(c1 =~= c0 + (if a.keyword is Some {
            seq![
                "(m.subject ILIKE "@ + placeholder(k) + "::text OR m.body ILIKE "@ + placeholder(k)
                    + "::text)"@,
            ]
        } else {
            Seq::empty()
        }));
        assert(c2 =~= c1 + (if a.from is Some {
            seq!["a.name = "@ + placeholder(f) + "::text"@]
        } else {
            Seq::empty()
        }));
        assert(views(conditions@) =~= c2 + (if a.since is Some {
            seq!["m.created_at >= "@ + placeholder(d) + "::timestamptz"@]
        } else {
            Seq::empty()
        }));
        assert(views(conditions@) =~= search_conditions(*a));
        assert(idx == limit_index(*a));
    }
    params.push(int_param(a.limit));
    assert(crate::db::params_view(params@) =~= search_params(agent_id, *a));
    let mut sql = to_owned(SEARCH_HEAD);
    let where_clause = crate::text::join(conditions.as_slice(), " AND ");
    push_str(&mut sql, where_clause.as_str());
    push_str(&mut sql, SEARCH_TAIL);
    push_i64(&mut sql, idx);
    push_str(&mut sql, "::int");
    assert(sql@ =~= search_sql(*a));
    SqlQuery { sql, params }
}

/// Each filter of a search is bound to its own value: the placeholder
/// number in the keyword, sender and date conditions is the position (from 1)
/// of that filter's value among the parameters, the agent's id is `$1`, and
/// the date's parameter is the one just before the limit.
pub proof fn law_search_filters_bind_their_values(agent_id: i64, a: SearchArgs)
    ensures
        ({
            let c = search_conditions(a);
            let p = search_params(agent_id, a);
            let kw = if a.keyword is Some { 1int } else { 0int };
            &&& c[0] == "i.agent_id = $1::int"@ && p[0] == JsonView::Int(agent_id)
            &&& a.keyword matches Some(k) ==> c[2] == "(m.subject ILIKE "@ + ("$"@ + int_str(2)) + "::text OR m.body ILIKE "@
                + ("$"@ + int_str(2)) + "::text)"@ && p[2 - 1] == JsonView::Str("%"@ + k@ + "%"@)
            &&& a.from matches Some(f) ==> c[2 + kw] == "a.name = "@ + ("$"@ + int_str(2 + kw)) + "::text"@ && p[2
                + kw - 1] == JsonView::Str(f@)
            &&& a.since matches Some(d) ==> c.last() == "m.created_at >= "@ + ("$"@ + int_str(p.len() - 1))
                + "::timestamptz"@ && p[p.len() - 2] == JsonView::Str(d@)
            &&& p.last() == JsonView::Int(a.limit)
            &&& search_sql(a) == SEARCH_HEAD@ + join_spec(c, " AND "@) + SEARCH_TAIL@ + int_str(p.len() as int)
                + "::int"@
        }),
{
}

/// Every placeholder a search uses has its parameter: the parameters number
/// exactly as many as the limit's placeholder, and the last is the limit.
pub proof fn law_search_placeholders_match(agent_id: i64, a: SearchArgs)
    ensures
        search_params(agent_id, a).len() == limit_index(a),
        search_params(agent_id, a).last() == JsonView::Int(a.limit),
        search_params(agent_id, a)[0] == JsonView::Int(agent_id),
        search_conditions(a).len() == limit_index(a),
{
}

} // verus!
