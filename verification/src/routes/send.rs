//! Sending a message over HTTP: the request is checked, the sender resolved,
//! the message stored and delivered to every recipient; the recipients are
//! then told of the new mail. The first failure ends the send.

use vstd::prelude::*;
use crate::db::{field_spec, QueryResponse, SqlQuery};
use crate::error::{query_is, ApiError, ApiErrorView, DbOutcome};
use crate::json::JsonView;
use crate::models::{SendMessageRequest, SendMessageResponse};
use crate::routes::agents::{
    first_id, opt_as_str, opt_json, resolve_move, resolve_next, AgentResolver, ResolveError,
    ResolveErrorView, ResolveMove, ResolvePhase, ResolveStep, SQL_AGENT_ID_BY_NAME,
};
use crate::routes::delivery::{delivery_transition, DeliveryRun, DeliveryStep};
use crate::routes::messages::{
    all_recipients, deliveries, insert_message_query, inserted_message, send_error, send_response,
    validate_send, SQL_INSERT_MESSAGE,
};
use crate::stream::{new_mail_data, new_mail_data_spec};
use crate::text::views;
use crate::thread_id::{is_lower_hex, thread_id_or_new};

verus! {

/// How the HTTP routes report a failed resolution.
pub open spec fn resolve_api_error(e: ResolveErrorView) -> ApiErrorView {
    match e {
        ResolveErrorView::Db(m) => ApiErrorView::DbError(m),
        ResolveErrorView::NotRegistered => ApiErrorView::Internal("Failed to register agent"@),
    }
}

/// `t` lists the direct recipients `to`, then the copies `cc`, each with
/// whether it is a copy.
pub open spec fn delivery_targets(t: Seq<(String, bool)>, to: Seq<String>, cc: Seq<String>) -> bool {
    &&& t.len() == to.len() + cc.len()
    &&& forall|i: int| 0 <= i < to.len() ==> (#[trigger] t[i]).0@ == to[i]@ && !t[i].1
    &&& forall|i: int| 0 <= i < cc.len() ==> (#[trigger] t[to.len() + i]).0@ == cc[i]@ && t[to.len() + i].1
}

/// The creation time a stored message's reply carries (empty when absent).
pub open spec fn created_of(resp: QueryResponse) -> Seq<char> {
    match field_spec(resp, 0, "created_at"@) {
        Some(JsonView::Str(s)) => s,
        _ => Seq::<char>::empty(),
    }
}

/// Where a send stands.
pub enum SendPhase {
    /// Resolving the sender's name.
    Sender(AgentResolver),
    /// Waiting for the message to be stored.
    Insert,
    /// Delivering the stored message.
    Deliver(DeliveryRun),
}

/// A send in progress: the request, its thread, and once stored the
/// message's id and creation time.
pub struct SendFlow {
    pub req: SendMessageRequest,
    pub thread_id: String,
    pub message_id: i64,
    pub created_at: String,
    pub phase: SendPhase,
}

/// A completed send: the reply, the recipients to tell, and what to tell them.
pub struct SentMail {
    pub response: SendMessageResponse,
    pub notify: Vec<String>,
    pub event: String,
}

/// The next move of a send.
pub enum SendStep {
    /// Send this query, then resume the flow with its outcome.
    Query(SendFlow, SqlQuery),
    Sent(SentMail),
    Failed(ApiError),
}

/// `m` completes the send of `req` in thread `tid` as message `id` created
/// at `created`.
pub open spec fn sent_mail_is(m: SentMail, req: SendMessageRequest, tid: String, id: i64, created: Seq<char>) -> bool {
    &&& m.response.message_id == id
    &&& m.response.thread_id == tid
    &&& m.response.from_agent == req.from_agent
    &&& m.response.to == req.to
    &&& m.response.cc == req.cc
    &&& m.response.subject == req.subject
    &&& m.response.importance == req.importance
    &&& m.response.created_at@ == created
    &&& views(m.notify@) == views(req.to@) + views(req.cc@)
    &&& m.event@ == new_mail_data_spec(
        id,
        req.from_agent@,
        match req.subject {
            Some(s) => Some(s@),
            None => None,
        },
    )
}

impl SendFlow {
    /// The phase fits the request: a resolution in progress is the sender's,
    /// and a delivery in progress is of this message to its recipients.
    pub open spec fn wf(&self) -> bool {
        match self.phase {
            SendPhase::Sender(res) => res.phase != ResolvePhase::Finished && res.name@ == self.req.from_agent@,
            SendPhase::Insert => true,
            SendPhase::Deliver(run) => {
                &&& run.wf()
                &&& !(run.phase is Finished)
                &&& run.message_id == self.message_id
                &&& delivery_targets(run.targets@, self.req.to@, self.req.cc@)
            },
        }
    }

    /// Starts sending `req`: a refused request fails with the reason;
    /// otherwise the sender is looked up, and the message goes to the given
    /// thread or to a fresh one.
    pub fn start(req: SendMessageRequest) -> (r: SendStep)
        ensures
            match send_error(req) {
                Some(m) => r matches SendStep::Failed(e) && e@ == ApiErrorView::BadRequest(m),
                None => r matches SendStep::Query(f, q) && {
                    &&& f.wf()
                    &&& f.req == req
                    &&& f.phase matches SendPhase::Sender(res) && res.phase == ResolvePhase::Lookup
                    &&& query_is(q, SQL_AGENT_ID_BY_NAME@, seq![JsonView::Str(req.from_agent@)])
                    &&& match req.thread_id {
                        Some(t) => f.thread_id@ == t@,
                        None => f.thread_id@.len() == 16 && forall|i: int|
                            0 <= i < f.thread_id@.len() ==> is_lower_hex(#[trigger] f.thread_id@[i]),
                    }
                },
            },
    {
        match validate_send(&req) {
            Err(e) => SendStep::Failed(e),
            Ok(()) => {
                let thread_id = thread_id_or_new(req.thread_id.clone());
                let (res, q) = AgentResolver::start(req.from_agent.as_str());
                SendStep::Query(
                    SendFlow { req, thread_id, message_id: 0, created_at: String::new(), phase: SendPhase::Sender(res) },
                    q,
                )
            },
        }
    }

    /// The completed send.
    fn finish(self) -> (m: SentMail)
        ensures
            sent_mail_is(m, self.req, self.thread_id, self.message_id, self.created_at@),
    {
        let notify = all_recipients(&self.req.to, &self.req.cc);
        let event = new_mail_data(self.message_id, self.req.from_agent.as_str(), opt_as_str(&self.req.subject));
        let response = send_response(self.req, self.message_id, self.thread_id, self.created_at);
        SentMail { response, notify, event }
    }

    /// Goes on with the delivery's move `step`.
    fn after_delivery(self, step: DeliveryStep) -> (r: SendStep)
        requires
            self.phase matches SendPhase::Deliver(run) && run.wf() && run.message_id == self.message_id
                && delivery_targets(run.targets@, self.req.to@, self.req.cc@) && (step is Query ==> !(run.phase is Finished)),
        ensures
            match step {
                DeliveryStep::Query(q) => r matches SendStep::Query(f, q2) && q2 == q && f == self && f.wf(),
                DeliveryStep::Delivered => r matches SendStep::Sent(m) && sent_mail_is(
                    m,
                    self.req,
                    self.thread_id,
                    self.message_id,
                    self.created_at@,
                ),
                DeliveryStep::Failed(e) => r matches SendStep::Failed(err) && err@ == resolve_api_error(e@),
            },
    {
        match step {
            DeliveryStep::Query(q) => SendStep::Query(self, q),
            DeliveryStep::Delivered => SendStep::Sent(self.finish()),
            DeliveryStep::Failed(e) => SendStep::Failed(e.to_api()),
        }
    }

    /// Takes the outcome of the last query and gives the next move. Once the
    /// sender is resolved the message is stored; once stored it is delivered
    /// to the direct recipients, then to the copies; once delivered the send
    /// is complete.
    pub fn resume(self, outcome: DbOutcome) -> (r: SendStep)
        requires
            self.wf(),
        ensures
            match self.phase {
                SendPhase::Sender(res) => match resolve_move(res.phase, res.name@, outcome) {
                    ResolveMove::Ask(sql, params) => r matches SendStep::Query(f, q) && {
                        &&& f.wf()
                        &&& f.req == self.req
                        &&& f.thread_id == self.thread_id
                        &&& f.phase matches SendPhase::Sender(res2) && res2.phase == resolve_next(res.phase, outcome)
                        &&& query_is(q, sql, params)
                    },
                    ResolveMove::Found(id) => r matches SendStep::Query(f, q) && {
                        &&& f.wf()
                        &&& f.req == self.req
                        &&& f.thread_id == self.thread_id
                        &&& f.phase is Insert
                        &&& query_is(
                            q,
                            SQL_INSERT_MESSAGE@,
                            seq![
                                JsonView::Int(id),
                                JsonView::Str(self.thread_id@),
                                opt_json(self.req.subject),
                                JsonView::Str(self.req.body@),
                                JsonView::Str(self.req.body_format@),
                                JsonView::Str(self.req.importance@),
                            ],
                        )
                    },
                    ResolveMove::Fail(e) => r matches SendStep::Failed(err) && err@ == resolve_api_error(e),
                },
                SendPhase::Insert => match outcome {
                    Err(e) => r matches SendStep::Failed(err) && err@ == ApiErrorView::DbError(e@),
                    Ok(resp) => match first_id(resp) {
                        None => r matches SendStep::Failed(err) && err@ == ApiErrorView::Internal(
                            "Failed to insert message"@,
                        ),
                        Some(id) => if self.req.to@.len() + self.req.cc@.len() == 0 {
                            r matches SendStep::Sent(m) && sent_mail_is(m, self.req, self.thread_id, id, created_of(resp))
                        } else {
                            r matches SendStep::Query(f, q) && {
                                &&& f.wf()
                                &&& f.req == self.req
                                &&& f.thread_id == self.thread_id
                                &&& f.message_id == id
                                &&& f.created_at@ == created_of(resp)
                                &&& f.phase matches SendPhase::Deliver(run) && run.next == 0
                                &&& query_is(
                                    q,
                                    SQL_AGENT_ID_BY_NAME@,
                                    seq![
                                        JsonView::Str(
                                            if self.req.to@.len() > 0 {
                                                self.req.to@[0]@
                                            } else {
                                                self.req.cc@[0]@
                                            },
                                        ),
                                    ],
                                )
                            }
                        },
                    },
                },
                SendPhase::Deliver(run) => {
                    ||| r matches SendStep::Query(f, q) && {
                        &&& f.wf()
                        &&& f.req == self.req
                        &&& f.thread_id == self.thread_id
                        &&& f.message_id == self.message_id
                        &&& f.created_at == self.created_at
                        &&& f.phase matches SendPhase::Deliver(run2) && delivery_transition(
                            run,
                            outcome,
                            run2,
                            DeliveryStep::Query(q),
                        )
                    }
                    ||| r matches SendStep::Sent(m) && sent_mail_is(
                        m,
                        self.req,
                        self.thread_id,
                        self.message_id,
                        self.created_at@,
                    ) && exists|run2: DeliveryRun|
                        delivery_transition(run, outcome, run2, DeliveryStep::Delivered)
                    ||| r matches SendStep::Failed(err) && exists|run2: DeliveryRun, e: ResolveError|
                        delivery_transition(run, outcome, run2, DeliveryStep::Failed(e)) && err@
                            == resolve_api_error(e@)
                },
            },
    {
        let SendFlow { req, thread_id, message_id, created_at, phase } = self;
        match phase {
            SendPhase::Sender(mut res) => match res.resume(outcome) {
                ResolveStep::Query(q) => SendStep::Query(
                    SendFlow { req, thread_id, message_id, created_at, phase: SendPhase::Sender(res) },
                    q,
                ),
                ResolveStep::Resolved(id) => {
                    let q = insert_message_query(id, thread_id.as_str(), &req);
                    SendStep::Query(SendFlow { req, thread_id, message_id, created_at, phase: SendPhase::Insert }, q)
                },
                ResolveStep::Failed(e) => SendStep::Failed(e.to_api()),
            },
            SendPhase::Insert => match outcome {
                Err(e) => SendStep::Failed(ApiError::DbError(e)),
                Ok(resp) => match inserted_message(&resp) {
                    Err(e) => SendStep::Failed(e),
                    Ok((id, created)) => {
                        let targets = deliveries(&req.to, &req.cc);
                        proof {
                            if req.to@.len() == 0 && req.cc@.len() > 0 {
                                let k: int = 0;
                                assert(targets@[req.to@.len() + k].0@ == req.cc@[k]@);
                            }
                        }
                        let (run, step) = DeliveryRun::start(id, targets);
                        let f = SendFlow { req, thread_id, message_id: id, created_at: created, phase: SendPhase::Deliver(run) };
                        f.after_delivery(step)
                    },
                },
            },
            SendPhase::Deliver(mut run) => {
                let step = run.resume(outcome);
                let f = SendFlow { req, thread_id, message_id, created_at, phase: SendPhase::Deliver(run) };
                f.after_delivery(step)
            },
        }
    }
}

} // verus!
