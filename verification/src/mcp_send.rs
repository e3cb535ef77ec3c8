//! Sending a message from the MCP server as the session's agent: the message
//! is stored, then delivered to every recipient. The first failure ends the
//! send with its text.

use vstd::prelude::*;
use crate::db::SqlQuery;
use crate::error::{query_is, DbOutcome};
use crate::json::JsonView;
use crate::db::QueryResponse;
use crate::decimal::int_str;
use crate::mcp::{
    message_row, reply_source, reply_subject, reply_subject_spec, send_query, sent_id,
    SQL_REPLY_SOURCE, SQL_SEND,
};
use crate::models::{col_str, rows_view};
use crate::routes::messages::query_with_id;
use crate::mcp_text::{sent_text, sent_text_spec};
use crate::routes::agents::{first_id, ResolveError, ResolveErrorView, SQL_AGENT_ID_BY_NAME};
use crate::routes::delivery::{delivery_transition, DeliveryRun, DeliveryStep};
use crate::routes::messages::deliveries;
use crate::routes::send::delivery_targets;
use vstd::utf8::encode_utf8;
use crate::routes::messages::MAX_BODY_SIZE;
use crate::text::{to_owned, utf8_len_exceeds, views};
use crate::thread_id::{is_lower_hex, nonempty_thread_id_or_new};

verus! {

/// How the MCP server reports a failed resolution.
pub open spec fn resolve_error_text(e: ResolveErrorView) -> Seq<char> {
    match e {
        ResolveErrorView::Db(m) => m,
        ResolveErrorView::NotRegistered => "Failed to register agent"@,
    }
}

/// Where a send stands.
pub enum McpSendPhase {
    /// Waiting for the message to be stored.
    Insert,
    /// Delivering the stored message.
    Deliver(DeliveryRun),
}

/// A send in progress: the recipients, the subject, the thread and, once
/// stored, the message's id.
pub struct McpSendFlow {
    pub to: Vec<String>,
    pub cc: Vec<String>,
    pub subject: String,
    pub thread_id: String,
    pub message_id: i64,
    pub phase: McpSendPhase,
}

/// The next move of a send.
pub enum McpSendStep {
    /// Send this query, then resume the flow with its outcome.
    Query(McpSendFlow, SqlQuery),
    /// The send is complete; the text to answer with.
    Sent(String),
    Failed(String),
}

impl McpSendFlow {
    /// A delivery in progress is of this message to its recipients.
    pub open spec fn wf(&self) -> bool {
        match self.phase {
            McpSendPhase::Insert => true,
            McpSendPhase::Deliver(run) => {
                &&& run.wf()
                &&& !(run.phase is Finished)
                &&& run.message_id == self.message_id
                &&& delivery_targets(run.targets@, self.to@, self.cc@)
            },
        }
    }

    /// The text of the completed send.
    pub open spec fn sent_text_of(&self) -> Seq<char> {
        sent_text_spec(self.message_id, self.thread_id@, views(self.to@), views(self.cc@), self.subject@)
    }

    /// Starts sending as agent `from_id`: the message is stored (as
    /// markdown) in the given thread, or in a fresh one when none or an
    /// empty one is given.
    pub fn start(
        from_id: i64,
        to: Vec<String>,
        cc: Vec<String>,
        subject: String,
        body: &str,
        thread_id: Option<&str>,
        importance: &str,
    ) -> (r: McpSendStep)
        ensures
            r matches McpSendStep::Query(f, q) && {
                &&& f.wf()
                &&& f.to == to
                &&& f.cc == cc
                &&& f.subject == subject
                &&& f.phase is Insert
                &&& match thread_id {
                    Some(t) if t@.len() > 0 => f.thread_id@ == t@,
                    _ => f.thread_id@.len() == 16 && forall|i: int|
                        0 <= i < f.thread_id@.len() ==> is_lower_hex(#[trigger] f.thread_id@[i]),
                }
                &&& query_is(
                    q,
                    SQL_SEND@,
                    seq![
                        JsonView::Int(from_id),
                        JsonView::Str(f.thread_id@),
                        JsonView::Str(subject@),
                        JsonView::Str(body@),
                        JsonView::Str(importance@),
                    ],
                )
            },
    {
        let tid = nonempty_thread_id_or_new(thread_id);
        let q = send_query(from_id, tid.as_str(), subject.as_str(), body, importance);
        McpSendStep::Query(
            McpSendFlow { to, cc, subject, thread_id: tid, message_id: 0, phase: McpSendPhase::Insert },
            q,
        )
    }

    /// Goes on with the delivery's move `step`.
    fn after_delivery(self, step: DeliveryStep) -> (r: McpSendStep)
        requires
            self.phase matches McpSendPhase::Deliver(run) && run.wf() && run.message_id == self.message_id
                && delivery_targets(run.targets@, self.to@, self.cc@) && (step is Query ==> !(run.phase is Finished)),
        ensures
            match step {
                DeliveryStep::Query(q) => r matches McpSendStep::Query(f, q2) && q2 == q && f == self && f.wf(),
                DeliveryStep::Delivered => r matches McpSendStep::Sent(t) && t@ == self.sent_text_of(),
                DeliveryStep::Failed(e) => r matches McpSendStep::Failed(m) && m@ == resolve_error_text(e@),
            },
    {
        match step {
            DeliveryStep::Query(q) => McpSendStep::Query(self, q),
            DeliveryStep::Delivered => McpSendStep::Sent(
                sent_text(self.message_id, self.thread_id.as_str(), &self.to, &self.cc, self.subject.as_str()),
            ),
            DeliveryStep::Failed(e) => McpSendStep::Failed(e.text()),
        }
    }

    /// Takes the outcome of the last query and gives the next move: once the
    /// message is stored it is delivered to the direct recipients, then to
    /// the copies; once delivered the send is complete.
    pub fn resume(self, outcome: DbOutcome) -> (r: McpSendStep)
        requires
            self.wf(),
        ensures
            match self.phase {
                McpSendPhase::Insert => match outcome {
                    Err(e) => r matches McpSendStep::Failed(m) && m@ == e@,
                    Ok(resp) => match first_id(resp) {
                        None => r matches McpSendStep::Failed(m) && m@ == "Failed to insert message"@,
                        Some(id) => if self.to@.len() + self.cc@.len() == 0 {
                            r matches McpSendStep::Sent(t) && t@ == sent_text_spec(
                                id,
                                self.thread_id@,
                                views(self.to@),
                                views(self.cc@),
                                self.subject@,
                            )
                        } else {
                            r matches McpSendStep::Query(f, q) && {
                                &&& f.wf()
                                &&& f.to == self.to
                                &&& f.cc == self.cc
                                &&& f.subject == self.subject
                                &&& f.thread_id == self.thread_id
                                &&& f.message_id == id
                                &&& f.phase matches McpSendPhase::Deliver(run) && run.next == 0
                                &&& query_is(
                                    q,
                                    SQL_AGENT_ID_BY_NAME@,
                                    seq![
                                        JsonView::Str(
                                            if self.to@.len() > 0 {
                                                self.to@[0]@
                                            } else {
                                                self.cc@[0]@
                                            },
                                        ),
                                    ],
                                )
                            }
                        },
                    },
                },
                McpSendPhase::Deliver(run) => {
                    ||| r matches McpSendStep::Query(f, q) && {
                        &&& f.wf()
                        &&& f.to == self.to
                        &&& f.cc == self.cc
                        &&& f.subject == self.subject
                        &&& f.thread_id == self.thread_id
                        &&& f.message_id == self.message_id
                        &&& f.phase matches McpSendPhase::Deliver(run2) && delivery_transition(
                            run,
                            outcome,
                            run2,
                            DeliveryStep::Query(q),
                        )
                    }
                    ||| r matches McpSendStep::Sent(t) && t@ == self.sent_text_of() && exists|run2: DeliveryRun|
                        delivery_transition(run, outcome, run2, DeliveryStep::Delivered)
                    ||| r matches McpSendStep::Failed(m) && exists|run2: DeliveryRun, e: ResolveError|
                        delivery_transition(run, outcome, run2, DeliveryStep::Failed(e)) && m@
                            == resolve_error_text(e@)
                },
            },
    {
        let McpSendFlow { to, cc, subject, thread_id, message_id, phase } = self;
        match phase {
            McpSendPhase::Insert => match outcome {
                Err(e) => McpSendStep::Failed(e),
                Ok(resp) => match sent_id(&resp) {
                    Err(m) => McpSendStep::Failed(m),
                    Ok(id) => {
                        let targets = deliveries(&to, &cc);
                        proof {
                            if to@.len() == 0 && cc@.len() > 0 {
                                let k: int = 0;
                                assert(targets@[to@.len() + k].0@ == cc@[k]@);
                            }
                        }
                        let (run, step) = DeliveryRun::start(id, targets);
                        let f = McpSendFlow { to, cc, subject, thread_id, message_id: id, phase: McpSendPhase::Deliver(run) };
                        f.after_delivery(step)
                    },
                },
            },
            McpSendPhase::Deliver(mut run) => {
                let step = run.resume(outcome);
                let f = McpSendFlow { to, cc, subject, thread_id, message_id, phase: McpSendPhase::Deliver(run) };
                f.after_delivery(step)
            },
        }
    }
}

/// The query of the message a reply answers: its sender, subject and thread.
pub fn reply_source_query(message_id: i64) -> (q: SqlQuery)
    ensures
        query_is(q, SQL_REPLY_SOURCE@, seq![JsonView::Int(message_id)]),
{
    query_with_id(SQL_REPLY_SOURCE, message_id)
}

/// Why the body of a reply is refused, if it is: the body rules of
/// `send_mail` (not empty, at most 65536 bytes).
pub open spec fn reply_body_error(body: Seq<char>) -> Option<Seq<char>> {
    if body.len() == 0 {
        Some("Body cannot be empty"@)
    } else if encode_utf8(body).len() > MAX_BODY_SIZE {
        Some("Body exceeds max size of 65536 bytes"@)
    } else {
        None
    }
}

/// Starts the reply of agent `from_id` to message `message_id`, given the
/// reply to its source query: a body that breaks the rules of `send_mail`
/// is refused; otherwise the reply goes to the message's sender only, in the
/// message's thread (a fresh one when it has none), with the message's
/// subject marked `RE: ` once, at normal importance.
pub fn start_reply(source: &QueryResponse, message_id: i64, from_id: i64, body: &str) -> (r: Result<
    McpSendStep,
    String,
>)
    ensures
        match reply_body_error(body@) {
            Some(m) => r matches Err(e) && e@ == m,
            None => match r {
                    Err(m) => rows_view(source.rows).len() == 0 && m@ == "Message "@ + int_str(message_id as int)
                        + " not found"@,
                    Ok(step) => rows_view(source.rows).len() > 0 && ({
                        let row = rows_view(source.rows)[0];
                        let tid = col_str(row, "thread_id"@, ""@);
                        step matches McpSendStep::Query(f, q) && {
                            &&& f.wf()
                            &&& f.phase is Insert
                            &&& f.to@.len() == 1
                            &&& f.to@[0]@ == col_str(row, "from_agent"@, ""@)
                            &&& f.cc@.len() == 0
                            &&& f.subject@ == reply_subject_spec(col_str(row, "subject"@, ""@))
                            &&& (tid.len() > 0 ==> f.thread_id@ == tid)
                            &&& query_is(
                                q,
                                SQL_SEND@,
                                seq![
                                    JsonView::Int(from_id),
                                    JsonView::Str(f.thread_id@),
                                    JsonView::Str(f.subject@),
                                    JsonView::Str(body@),
                                    JsonView::Str("normal"@),
                                ],
                            )
                        }
                    }),
                },
        },
{
    if body.is_empty() {
        return Err(to_owned("Body cannot be empty"));
    }
    if utf8_len_exceeds(body, MAX_BODY_SIZE) {
        return Err(to_owned("Body exceeds max size of 65536 bytes"));
    }
    let row = message_row(source, message_id)?;
    let src = reply_source(row);
    let subject = reply_subject(src.subject.as_str());
    let mut to: Vec<String> = Vec::new();
    to.push(src.from_agent);
    Ok(McpSendFlow::start(from_id, to, Vec::new(), subject, body, Some(src.thread_id.as_str()), "normal"))
}

} // verus!
