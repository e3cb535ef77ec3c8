//! The records the mail service stores and returns, and how they are read
//! from database rows.

use vstd::prelude::*;
use crate::json::{
    get_bool_spec, get_i64_spec, get_str_spec, opt_str_view, or_default, JsonObject, JsonView,
};
use crate::text::{to_owned, views};

verus! {

/// A row as the logic sees it.
pub type RowView = Seq<(Seq<char>, JsonView)>;

/// `opt.unwrap_or(default)` on integers.
pub open spec fn i64_or(opt: Option<i64>, default: i64) -> i64 {
    match opt {
        Some(v) => v,
        None => default,
    }
}

/// `opt.unwrap_or(default)` on booleans.
pub open spec fn bool_or(opt: Option<bool>, default: bool) -> bool {
    match opt {
        Some(v) => v,
        None => default,
    }
}

/// The string in column `key`, or `default`.
pub open spec fn col_str(row: RowView, key: Seq<char>, default: Seq<char>) -> Seq<char> {
    or_default(get_str_spec(row, key), default)
}

// ---------------------------------------------------------------------------
// Agents
// ---------------------------------------------------------------------------

/// A registered agent.
pub struct Agent {
    pub id: i64,
    pub name: String,
    pub display_name: Option<String>,
    pub role: Option<String>,
    pub program: Option<String>,
    pub model: Option<String>,
    pub is_active: bool,
    pub created_at: String,
    pub last_active_at: Option<String>,
}

/// The fields of a registration request.
pub struct RegisterAgentRequest {
    pub name: String,
    pub display_name: Option<String>,
    pub role: Option<String>,
    pub program: Option<String>,
    pub model: Option<String>,
}

/// `a` is what an agents row reads as: absent numbers are 0, absent names
/// and dates empty, absent activity `true`.
pub open spec fn agent_from_row(a: Agent, row: RowView) -> bool {
    &&& a.id == i64_or(get_i64_spec(row, "id"@), 0)
    &&& a.name@ == col_str(row, "name"@, ""@)
    &&& opt_str_view(a.display_name) == get_str_spec(row, "display_name"@)
    &&& opt_str_view(a.role) == get_str_spec(row, "role"@)
    &&& opt_str_view(a.program) == get_str_spec(row, "program"@)
    &&& opt_str_view(a.model) == get_str_spec(row, "model"@)
    &&& a.is_active == bool_or(get_bool_spec(row, "is_active"@), true)
    &&& a.created_at@ == col_str(row, "created_at"@, ""@)
    &&& opt_str_view(a.last_active_at) == get_str_spec(row, "last_active_at"@)
}

/// The rows of a reply, none when it carried none.
pub open spec fn rows_view(rows: Option<Vec<JsonObject>>) -> Seq<RowView> {
    match rows {
        Some(r) => r@.map_values(|o: JsonObject| o@),
        None => Seq::<RowView>::empty(),
    }
}

/// Reads one agents row.
pub fn agent_from(row: &JsonObject) -> (a: Agent)
    ensures
        agent_from_row(a, row@),
{
    Agent {
        id: match row.get_i64("id") {
            Some(v) => v,
            None => 0,
        },
        name: row.get_str_or("name", ""),
        display_name: row.get_str("display_name"),
        role: row.get_str("role"),
        program: row.get_str("program"),
        model: row.get_str("model"),
        is_active: match row.get_bool("is_active") {
            Some(b) => b,
            None => true,
        },
        created_at: row.get_str_or("created_at", ""),
        last_active_at: row.get_str("last_active_at"),
    }
}

/// Reads every agents row, in order.
pub fn parse_agents(rows: &Option<Vec<JsonObject>>) -> (r: Vec<Agent>)
    ensures
        r@.len() == rows_view(*rows).len(),
        forall|i: int| 0 <= i < r@.len() ==> agent_from_row(#[trigger] r@[i], rows_view(*rows)[i]),
{
    let mut agents: Vec<Agent> = Vec::new();
    match rows {
        Some(rs) => {
            let mut i: usize = 0;
            while i < rs.len()
                invariant
                    i <= rs@.len(),
                    rows_view(*rows) == rs@.map_values(|o: JsonObject| o@),
                    agents@.len() == i,
                    forall|k: int|
                        0 <= k < i ==> agent_from_row(#[trigger] agents@[k], rs@[k]@),
                decreases rs.len() - i,
            {
                agents.push(agent_from(&rs[i]));
                i = i + 1;
            }
        },
        None => {},
    }
    agents
}

// ---------------------------------------------------------------------------
// Messages
// ---------------------------------------------------------------------------

/// A stored message.
pub struct Message {
    pub id: i64,
    pub from_agent_id: i64,
    pub thread_id: String,
    pub subject: Option<String>,
    pub body: String,
    pub body_format: String,
    pub importance: String,
    pub created_at: String,
}

/// A request to send a message. `cc` defaults to empty, `body_format` to
/// `markdown`, `importance` to `normal`.
pub struct SendMessageRequest {
    pub from_agent: String,
    pub to: Vec<String>,
    pub cc: Vec<String>,
    pub subject: Option<String>,
    pub body: String,
    pub body_format: String,
    pub importance: String,
    pub thread_id: Option<String>,
}

/// The format a message body has when the request names none.
pub fn default_body_format() -> (r: String)
    ensures
        r@ == "markdown"@,
{
    to_owned("markdown")
}

/// The importance a message has when the request names none.
pub fn default_importance() -> (r: String)
    ensures
        r@ == "normal"@,
{
    to_owned("normal")
}

/// The reply to a sent message.
pub struct SendMessageResponse {
    pub message_id: i64,
    pub thread_id: String,
    pub from_agent: String,
    pub to: Vec<String>,
    pub cc: Vec<String>,
    pub subject: Option<String>,
    pub importance: String,
    pub created_at: String,
}

// ---------------------------------------------------------------------------
// Inbox
// ---------------------------------------------------------------------------

/// One delivered message as listed in an inbox.
pub struct InboxMessage {
    pub inbox_id: i64,
    pub message_id: i64,
    pub from_agent: String,
    pub from_agent_display: Option<String>,
    pub subject: Option<String>,
    pub body: String,
    pub body_format: String,
    pub importance: String,
    pub recipient_type: String,
    pub created_at: String,
    pub read_at: Option<String>,
}

/// An inbox page.
pub struct InboxResponse {
    pub agent: String,
    pub messages: Vec<InboxMessage>,
    pub unread_count: i64,
}

/// Where a page stands among all pages.
pub struct Pagination {
    pub page: i64,
    pub page_size: i64,
    pub total_count: i64,
    pub total_pages: i64,
}

/// A message as read by one of its readers.
pub struct ReadMessageResponse {
    pub message_id: i64,
    pub from_agent: String,
    pub from_agent_display: Option<String>,
    pub to: Vec<String>,
    pub cc: Vec<String>,
    pub subject: Option<String>,
    pub body: String,
    pub body_format: String,
    pub importance: String,
    pub thread_id: String,
    pub created_at: String,
}

/// `m` is what an inbox row reads as.
pub open spec fn inbox_message_from_row(m: InboxMessage, row: RowView) -> bool {
    &&& m.inbox_id == i64_or(get_i64_spec(row, "inbox_id"@), 0)
    &&& m.message_id == i64_or(get_i64_spec(row, "message_id"@), 0)
    &&& m.from_agent@ == col_str(row, "from_agent"@, ""@)
    &&& opt_str_view(m.from_agent_display) == get_str_spec(row, "from_agent_display"@)
    &&& opt_str_view(m.subject) == get_str_spec(row, "subject"@)
    &&& m.body@ == col_str(row, "body"@, ""@)
    &&& m.body_format@ == col_str(row, "body_format"@, "markdown"@)
    &&& m.importance@ == col_str(row, "importance"@, "normal"@)
    &&& m.recipient_type@ == col_str(row, "recipient_type"@, "to"@)
    &&& m.created_at@ == col_str(row, "created_at"@, ""@)
    &&& opt_str_view(m.read_at) == get_str_spec(row, "read_at"@)
}

/// Reads one inbox row.
pub fn inbox_message_from(row: &JsonObject) -> (m: InboxMessage)
    ensures
        inbox_message_from_row(m, row@),
{
    InboxMessage {
        inbox_id: match row.get_i64("inbox_id") {
            Some(v) => v,
            None => 0,
        },
        message_id: match row.get_i64("message_id") {
            Some(v) => v,
            None => 0,
        },
        from_agent: row.get_str_or("from_agent", ""),
        from_agent_display: row.get_str("from_agent_display"),
        subject: row.get_str("subject"),
        body: row.get_str_or("body", ""),
        body_format: row.get_str_or("body_format", "markdown"),
        importance: row.get_str_or("importance", "normal"),
        recipient_type: row.get_str_or("recipient_type", "to"),
        created_at: row.get_str_or("created_at", ""),
        read_at: row.get_str("read_at"),
    }
}

/// Reads every inbox row, in order.
pub fn parse_inbox_messages(rows: &Option<Vec<JsonObject>>) -> (r: Vec<InboxMessage>)
    ensures
        r@.len() == rows_view(*rows).len(),
        forall|i: int|
            0 <= i < r@.len() ==> inbox_message_from_row(#[trigger] r@[i], rows_view(*rows)[i]),
{
    let mut out: Vec<InboxMessage> = Vec::new();
    match rows {
        Some(rs) => {
            let mut i: usize = 0;
            while i < rs.len()
                invariant
                    i <= rs@.len(),
                    rows_view(*rows) == rs@.map_values(|o: JsonObject| o@),
                    out@.len() == i,
                    forall|k: int|
                        0 <= k < i ==> inbox_message_from_row(#[trigger] out@[k], rs@[k]@),
                decreases rs.len() - i,
            {
                out.push(inbox_message_from(&rs[i]));
                i = i + 1;
            }
        },
        None => {},
    }
    out
}

// ---------------------------------------------------------------------------
// Recipients
// ---------------------------------------------------------------------------

/// A recipient row is a carbon copy when its type is `cc`; a missing type
/// counts as `to`.
pub open spec fn is_cc_row(row: RowView) -> bool {
    col_str(row, "recipient_type"@, "to"@) == "cc"@
}

/// The message a recipient row belongs to (0 when absent).
pub open spec fn row_message_id(row: RowView) -> i64 {
    i64_or(get_i64_spec(row, "message_id"@), 0)
}

/// The names, in row order, of the recipient rows of the given kind that
/// belong to message `mid` (to any message when `mid` is `None`).
pub open spec fn recipients_spec(rows: Seq<RowView>, mid: Option<i64>, cc: bool) -> Seq<Seq<char>>
    decreases rows.len(),
{
    if rows.len() == 0 {
        Seq::<Seq<char>>::empty()
    } else {
        let prev = recipients_spec(rows.drop_last(), mid, cc);
        let r = rows.last();
        if is_cc_row(r) == cc && (mid matches Some(m) ==> row_message_id(r) == m) {
            prev.push(col_str(r, "name"@, ""@))
        } else {
            prev
        }
    }
}

proof fn lemma_recipients_len(rows: Seq<RowView>)
    ensures
        recipients_spec(rows, None, false).len() + recipients_spec(rows, None, true).len()
            == rows.len(),
    decreases rows.len(),
{
    if rows.len() > 0 {
        lemma_recipients_len(rows.drop_last());
    }
}

/// Every recipient row of a message lands in exactly one of the two lists:
/// copies when its type is `cc`, direct recipients otherwise.
pub proof fn law_recipients_partition(rows: Seq<RowView>)
    ensures
        recipients_spec(rows, None, false).len() + recipients_spec(rows, None, true).len()
            == rows.len(),
{
    lemma_recipients_len(rows);
}

/// Splits recipient rows of message `mid` (of any message for `None`) into
/// direct recipients and carbon copies, each in row order.
pub fn split_recipients(rows: &Option<Vec<JsonObject>>, mid: Option<i64>) -> (r: (
    Vec<String>,
    Vec<String>,
))
    ensures
        views(r.0@) == recipients_spec(rows_view(*rows), mid, false),
        views(r.1@) == recipients_spec(rows_view(*rows), mid, true),
{
    let mut to: Vec<String> = Vec::new();
    let mut cc: Vec<String> = Vec::new();
    match rows {
        Some(rs) => {
            let ghost rv = rs@.map_values(|o: JsonObject| o@);
            let mut i: usize = 0;
            assert(rv.take(0) =~= Seq::<RowView>::empty());
            assert(views(to@) =~= Seq::<Seq<char>>::empty());
            while i < rs.len()
                invariant
                    i <= rs@.len(),
                    rv == rs@.map_values(|o: JsonObject| o@),
                    rows_view(*rows) == rv,
                    views(to@) == recipients_spec(rv.take(i as int), mid, false),
                    views(cc@) == recipients_spec(rv.take(i as int), mid, true),
                decreases rs.len() - i,
            {
                let row = &rs[i];
                assert(rv.take(i + 1).drop_last() =~= rv.take(i as int));
                assert(rv.take(i + 1).last() == row@);
                let belongs = match mid {
                    Some(m) => match row.get_i64("message_id") {
                        Some(x) => x == m,
                        None => 0 == m,
                    },
                    None => true,
                };
                if belongs {
                    let kind = row.get_str_or("recipient_type", "to");
                    let name = row.get_str_or("name", "");
                    if crate::text::str_eq(kind.as_str(), "cc") {
                        cc.push(name);
                        assert(views(cc@) =~= recipients_spec(rv.take(i as int), mid, true).push(
                            col_str(row@, "name"@, ""@),
                        ));
                    } else {
                        to.push(name);
                        assert(views(to@) =~= recipients_spec(rv.take(i as int), mid, false).push(
                            col_str(row@, "name"@, ""@),
                        ));
                    }
                }
                i = i + 1;
            }
            assert(rv.take(rs@.len() as int) =~= rv);
        },
        None => {
            assert(views(cc@) =~= Seq::<Seq<char>>::empty());
        },
    }
    (to, cc)
}

} // verus!
