//! The reading tools of the MCP server: an inbox summary, and one message
//! (which also marks it read for the session's agent). The first failed
//! query ends the tool with its text.

use vstd::prelude::*;
use crate::db::{QueryResponse, SqlQuery};
use crate::decimal::int_str;
use crate::error::{query_is, DbOutcome};
use crate::json::JsonView;
use crate::mcp::{
    agent_id_or_not_found, inbox_summary_queries, mark_read_for_query, message_row,
    SQL_MARK_READ_FOR, SQL_RECENT, SQL_TOTAL_OF, SQL_UNREAD_OF,
};
use crate::mcp_text::{inbox_text, inbox_text_spec, message_text, message_text_spec, opt_rows};
use crate::models::{recipients_spec, rows_view, split_recipients};
use crate::routes::agents::{agent_lookup_query, first_id, SQL_AGENT_ID_BY_NAME};
use crate::routes::messages::{
    count_from, count_of, message_query, recipients_query, SQL_MESSAGE_BY_ID, SQL_RECIPIENTS_OF,
};
use crate::text::views;

verus! {

// ---------------------------------------------------------------------------
// Inbox summary
// ---------------------------------------------------------------------------

/// Where an inbox summary stands.
pub enum SummaryPhase {
    /// Waiting for the agent's lookup.
    Lookup,
    /// Waiting for the unread count; the total and the recent entries are next.
    Unread(SqlQuery, SqlQuery),
    /// Waiting for the total; the unread count came back, the recent entries are next.
    Total(i64, SqlQuery),
    /// Waiting for the recent entries; both counts came back.
    Recent(i64, i64),
}

/// An inbox summary of `agent` in progress.
pub struct SummaryFlow {
    pub agent: String,
    pub agent_id: i64,
    pub phase: SummaryPhase,
}

/// The next move of an inbox summary.
pub enum SummaryStep {
    Query(SummaryFlow, SqlQuery),
    /// The summary's text.
    Done(String),
    Failed(String),
}

impl SummaryFlow {
    /// The queries still to send are the agent's.
    pub open spec fn wf(&self) -> bool {
        match self.phase {
            SummaryPhase::Lookup => true,
            SummaryPhase::Unread(t, rc) => {
                &&& query_is(t, SQL_TOTAL_OF@, seq![JsonView::Int(self.agent_id)])
                &&& query_is(rc, SQL_RECENT@, seq![JsonView::Int(self.agent_id)])
            },
            SummaryPhase::Total(_, rc) => query_is(rc, SQL_RECENT@, seq![JsonView::Int(self.agent_id)]),
            SummaryPhase::Recent(_, _) => true,
        }
    }

    /// Starts summarising the inbox of `agent`: the lookup of its id.
    pub fn start(agent: &str) -> (r: (SummaryFlow, SqlQuery))
        ensures
            r.0.wf(),
            r.0.agent@ == agent@,
            r.0.phase is Lookup,
            query_is(r.1, SQL_AGENT_ID_BY_NAME@, seq![JsonView::Str(agent@)]),
    {
        (
            SummaryFlow { agent: crate::text::to_owned(agent), agent_id: 0, phase: SummaryPhase::Lookup },
            agent_lookup_query(agent),
        )
    }

    /// Takes the outcome of the last query and gives the next move: after
    /// the lookup, the unread count, the total and the twenty most recent
    /// entries are asked for in turn, and the summary is written from them.
    pub fn resume(self, outcome: DbOutcome) -> (r: SummaryStep)
        requires
            self.wf(),
        ensures
            match outcome {
                Err(e) => r matches SummaryStep::Failed(m) && m@ == e@,
                Ok(resp) => match self.phase {
                    SummaryPhase::Lookup => match first_id(resp) {
                        None => r matches SummaryStep::Failed(m) && m@ == "Agent '"@ + self.agent@ + "' not found"@,
                        Some(id) => r matches SummaryStep::Query(f, q) && f.wf() && f.agent == self.agent
                            && f.agent_id == id && f.phase is Unread && query_is(q, SQL_UNREAD_OF@, seq![JsonView::Int(id)]),
                    },
                    SummaryPhase::Unread(_, _) => r matches SummaryStep::Query(f, q) && f.wf() && f.agent == self.agent
                        && f.agent_id == self.agent_id && (f.phase matches SummaryPhase::Total(u, _) && u == count_of(resp))
                        && query_is(q, SQL_TOTAL_OF@, seq![JsonView::Int(self.agent_id)]),
                    SummaryPhase::Total(u, _) => r matches SummaryStep::Query(f, q) && f.wf() && f.agent == self.agent
                        && f.agent_id == self.agent_id && (f.phase matches SummaryPhase::Recent(u2, t) && u2 == u && t
                        == count_of(resp)) && query_is(q, SQL_RECENT@, seq![JsonView::Int(self.agent_id)]),
                    SummaryPhase::Recent(u, t) => r matches SummaryStep::Done(text) && text@ == inbox_text_spec(
                        self.agent@,
                        u,
                        t,
                        opt_rows(resp.rows),
                    ),
                },
            },
    {
        let SummaryFlow { agent, agent_id, phase } = self;
        let resp = match outcome {
            Err(e) => return SummaryStep::Failed(e),
            Ok(resp) => resp,
        };
        match phase {
            SummaryPhase::Lookup => match agent_id_or_not_found(&resp, agent.as_str()) {
                Err(m) => SummaryStep::Failed(m),
                Ok(id) => {
                    let (unread, total, recent) = inbox_summary_queries(id);
                    SummaryStep::Query(SummaryFlow { agent, agent_id: id, phase: SummaryPhase::Unread(total, recent) }, unread)
                },
            },
            SummaryPhase::Unread(total, recent) => {
                let u = count_from(&resp);
                SummaryStep::Query(SummaryFlow { agent, agent_id, phase: SummaryPhase::Total(u, recent) }, total)
            },
            SummaryPhase::Total(u, recent) => {
                let t = count_from(&resp);
                SummaryStep::Query(SummaryFlow { agent, agent_id, phase: SummaryPhase::Recent(u, t) }, recent)
            },
            SummaryPhase::Recent(u, t) => SummaryStep::Done(inbox_text(agent.as_str(), u, t, &resp.rows)),
        }
    }
}

// ---------------------------------------------------------------------------
// Reading a message
// ---------------------------------------------------------------------------

/// Where a read stands.
pub enum McpReadPhase {
    /// Waiting for the message.
    Message,
    /// Waiting for the recipients; the message came back with a row.
    Recipients(QueryResponse),
    /// Waiting for the entry to be marked read (whatever the outcome); the
    /// message and its direct and copied recipients are known.
    MarkRead(QueryResponse, Vec<String>, Vec<String>),
}

/// A read of message `message_id` for agent `agent_id` in progress.
pub struct McpReadFlow {
    pub message_id: i64,
    pub agent_id: i64,
    pub phase: McpReadPhase,
}

/// The next move of a read.
pub enum McpReadStep {
    Query(McpReadFlow, SqlQuery),
    /// The message's text.
    Done(String),
    Failed(String),
}

impl McpReadFlow {
    /// A stored message reply has the message's row.
    pub open spec fn wf(&self) -> bool {
        match self.phase {
            McpReadPhase::Message => true,
            McpReadPhase::Recipients(m) => rows_view(m.rows).len() > 0,
            McpReadPhase::MarkRead(m, _, _) => rows_view(m.rows).len() > 0,
        }
    }

    /// Starts reading message `id` as agent `agent_id`: the message and its
    /// sender.
    pub fn start(id: i64, agent_id: i64) -> (r: (McpReadFlow, SqlQuery))
        ensures
            r.0.wf(),
            r.0.message_id == id,
            r.0.agent_id == agent_id,
            r.0.phase is Message,
            query_is(r.1, SQL_MESSAGE_BY_ID@, seq![JsonView::Int(id)]),
    {
        (McpReadFlow { message_id: id, agent_id, phase: McpReadPhase::Message }, message_query(id))
    }

    /// Takes the outcome of the last query and gives the next move: a
    /// message without a row is not found; otherwise its recipients are asked
    /// for, the agent's entry is marked read (a failure there is passed
    /// over), and the message is answered with its recipients.
    pub fn resume(self, outcome: DbOutcome) -> (r: McpReadStep)
        requires
            self.wf(),
        ensures
            match self.phase {
                McpReadPhase::Message => match outcome {
                    Err(e) => r matches McpReadStep::Failed(m) && m@ == e@,
                    Ok(resp) => if rows_view(resp.rows).len() == 0 {
                        r matches McpReadStep::Failed(m) && m@ == "Message "@ + int_str(self.message_id as int)
                            + " not found"@
                    } else {
                        r matches McpReadStep::Query(f, q) && f.wf() && f.message_id == self.message_id
                            && f.agent_id == self.agent_id && (f.phase matches McpReadPhase::Recipients(m) && m == resp)
                            && query_is(q, SQL_RECIPIENTS_OF@, seq![JsonView::Int(self.message_id)])
                    },
                },
                McpReadPhase::Recipients(m) => match outcome {
                    Err(e) => r matches McpReadStep::Failed(err) && err@ == e@,
                    Ok(resp) => r matches McpReadStep::Query(f, q) && f.wf() && f.message_id == self.message_id
                        && f.agent_id == self.agent_id && (f.phase matches McpReadPhase::MarkRead(m2, to, cc) && m2 == m
                        && views(to@) == recipients_spec(rows_view(resp.rows), None, false) && views(cc@)
                        == recipients_spec(rows_view(resp.rows), None, true)) && query_is(
                        q,
                        SQL_MARK_READ_FOR@,
                        seq![JsonView::Int(self.message_id), JsonView::Int(self.agent_id)],
                    ),
                },
                McpReadPhase::MarkRead(m, to, cc) => r matches McpReadStep::Done(text) && text@ == message_text_spec(
                    self.message_id,
                    rows_view(m.rows)[0],
                    views(to@),
                    views(cc@),
                ),
            },
    {
        let McpReadFlow { message_id, agent_id, phase } = self;
        match phase {
            McpReadPhase::Message => match outcome {
                Err(e) => McpReadStep::Failed(e),
                Ok(resp) => match message_row(&resp, message_id) {
                    Err(m) => McpReadStep::Failed(m),
                    Ok(_) => {
                        let q = recipients_query(message_id);
                        McpReadStep::Query(McpReadFlow { message_id, agent_id, phase: McpReadPhase::Recipients(resp) }, q)
                    },
                },
            },
            McpReadPhase::Recipients(m) => match outcome {
                Err(e) => McpReadStep::Failed(e),
                Ok(resp) => {
                    let (to, cc) = split_recipients(&resp.rows, None);
                    let q = mark_read_for_query(message_id, agent_id);
                    McpReadStep::Query(McpReadFlow { message_id, agent_id, phase: McpReadPhase::MarkRead(m, to, cc) }, q)
                },
            },
            McpReadPhase::MarkRead(m, to, cc) => match message_row(&m, message_id) {
                Ok(row) => McpReadStep::Done(message_text(message_id, row, &to, &cc)),
                Err(e) => McpReadStep::Failed(e),
            },
        }
    }
}

} // verus!
