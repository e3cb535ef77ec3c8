//! Threads: every message of a conversation, oldest first, with recipients.

use vstd::prelude::*;
use crate::db::{str_param, QueryResponse, SqlQuery};
use crate::error::{query_is, ApiError, ApiErrorView};
use crate::json::{get_str_spec, opt_str_view, JsonObject, JsonView};
use crate::models::{col_str, recipients_spec, row_message_id, rows_view, split_recipients, RowView};
use crate::routes::messages::{recipients_query, SQL_RECIPIENTS_OF};
use crate::text::{push_str, to_owned, views};

verus! {

pub const SQL_THREAD: &'static str = "SELECT m.id as message_id, a.name as from_agent, a.display_name as from_agent_display, \
             m.subject, m.body, m.body_format, m.importance, m.created_at::text as created_at \
             FROM messages m \
             JOIN agents a ON a.id = m.from_agent_id \
             WHERE m.thread_id = $1::text \
             ORDER BY m.created_at ASC";

/// The messages of thread `tid`, oldest first.
pub fn thread_query(tid: &str) -> (q: SqlQuery)
    ensures
        query_is(q, SQL_THREAD@, seq![JsonView::Str(tid@)]),
{
    let q = SqlQuery { sql: to_owned(SQL_THREAD), params: vec![str_param(tid)] };
    assert(crate::db::params_view(q.params@) =~= seq![JsonView::Str(tid@)]);
    q
}

/// One recipients query per message of the thread, in order.
pub fn thread_recipient_queries(messages: &QueryResponse) -> (r: Vec<SqlQuery>)
    ensures
        r@.len() == rows_view(messages.rows).len(),
        forall|i: int|
            0 <= i < r@.len() ==> query_is(
                #[trigger] r@[i],
                SQL_RECIPIENTS_OF@,
                seq![JsonView::Int(row_message_id(rows_view(messages.rows)[i]))],
            ),
{
    let mut r: Vec<SqlQuery> = Vec::new();
    match &messages.rows {
        Some(rows) => {
            let mut i: usize = 0;
            while i < rows.len()
                invariant
                    i <= rows@.len(),
                    rows_view(messages.rows) == rows@.map_values(|o: JsonObject| o@),
                    r@.len() == i,
                    forall|k: int|
                        0 <= k < i ==> query_is(
                            #[trigger] r@[k],
                            SQL_RECIPIENTS_OF@,
                            seq![JsonView::Int(row_message_id(rows@[k]@))],
                        ),
                decreases rows.len() - i,
            {
                let id = match rows[i].get_i64("message_id") {
                    Some(v) => v,
                    None => 0,
                };
                r.push(recipients_query(id));
                i = i + 1;
            }
        },
        None => {},
    }
    r
}

/// One message of a thread.
pub struct ThreadMessage {
    pub message_id: i64,
    pub from_agent: String,
    pub from_agent_display: Option<String>,
    pub to: Vec<String>,
    pub cc: Vec<String>,
    pub subject: Option<String>,
    pub body: String,
    pub body_format: String,
    pub importance: String,
    pub created_at: String,
}

/// A whole thread.
pub struct ThreadView {
    pub thread_id: String,
    pub message_count: usize,
    pub messages: Vec<ThreadMessage>,
}

/// `m` is what a thread row reads as, with the recipients of its own query.
pub open spec fn thread_message_from(m: ThreadMessage, row: RowView, recips: Seq<RowView>) -> bool {
    &&& m.message_id == row_message_id(row)
    &&& m.from_agent@ == col_str(row, "from_agent"@, ""@)
    &&& opt_str_view(m.from_agent_display) == get_str_spec(row, "from_agent_display"@)
    &&& views(m.to@) == recipients_spec(recips, None, false)
    &&& views(m.cc@) == recipients_spec(recips, None, true)
    &&& opt_str_view(m.subject) == get_str_spec(row, "subject"@)
    &&& m.body@ == col_str(row, "body"@, ""@)
    &&& m.body_format@ == col_str(row, "body_format"@, "markdown"@)
    &&& m.importance@ == col_str(row, "importance"@, "normal"@)
    &&& m.created_at@ == col_str(row, "created_at"@, ""@)
}

/// `t` is the thread `tid` with the messages of the reply `messages`, each
/// with the recipients of its own reply in `recipients`.
pub open spec fn thread_view_is(t: ThreadView, tid: Seq<char>, messages: QueryResponse, recipients: Seq<QueryResponse>) -> bool {
    &&& t.thread_id@ == tid
    &&& t.message_count == t.messages@.len()
    &&& t.messages@.len() == rows_view(messages.rows).len()
    &&& forall|i: int|
        0 <= i < t.messages@.len() ==> thread_message_from(
            #[trigger] t.messages@[i],
            rows_view(messages.rows)[i],
            rows_view(recipients[i].rows),
        )
}

/// `Thread '<tid>' not found`, as a 404.
pub open spec fn thread_not_found(tid: Seq<char>) -> ApiErrorView {
    ApiErrorView::NotFound("Thread '"@ + tid + "' not found"@)
}

/// The thread `tid` from its messages and, for each, the reply to its
/// recipients query; `Thread '<tid>' not found` when it has no message.
pub fn thread_response(tid: &str, messages: &QueryResponse, recipients: &Vec<QueryResponse>) -> (r:
    Result<ThreadView, ApiError>)
    requires
        recipients@.len() == rows_view(messages.rows).len(),
    ensures
        match r {
            Ok(t) => rows_view(messages.rows).len() > 0 && thread_view_is(t, tid@, *messages, recipients@),
            Err(e) => rows_view(messages.rows).len() == 0 && e@ == thread_not_found(tid@),
        },
{
    let mut out: Vec<ThreadMessage> = Vec::new();
    match &messages.rows {
        Some(rows) => {
            let mut i: usize = 0;
            while i < rows.len()
                invariant
                    i <= rows@.len(),
                    rows_view(messages.rows) == rows@.map_values(|o: JsonObject| o@),
                    recipients@.len() == rows@.len(),
                    out@.len() == i,
                    forall|k: int|
                        0 <= k < i ==> thread_message_from(
                            #[trigger] out@[k],
                            rows@[k]@,
                            rows_view(recipients@[k].rows),
                        ),
                decreases rows.len() - i,
            {
                let row = &rows[i];
                let (to, cc) = split_recipients(&recipients[i].rows, None);
                out.push(
                    ThreadMessage {
                        message_id: match row.get_i64("message_id") {
                            Some(v) => v,
                            None => 0,
                        },
                        from_agent: row.get_str_or("from_agent", ""),
                        from_agent_display: row.get_str("from_agent_display"),
                        to,
                        cc,
                        subject: row.get_str("subject"),
                        body: row.get_str_or("body", ""),
                        body_format: row.get_str_or("body_format", "markdown"),
                        importance: row.get_str_or("importance", "normal"),
                        created_at: row.get_str_or("created_at", ""),
                    },
                );
                i = i + 1;
            }
        },
        None => {},
    }
    if out.len() == 0 {
        let mut m = to_owned("Thread '");
        push_str(&mut m, tid);
        push_str(&mut m, "' not found");
        return Err(ApiError::NotFound(m));
    }
    let n = out.len();
    Ok(ThreadView { thread_id: to_owned(tid), message_count: n, messages: out })
}

} // verus!
