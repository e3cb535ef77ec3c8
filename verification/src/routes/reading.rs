//! The routes that read stored mail: one message with its recipients, and a
//! whole thread with the recipients of each message. The first failed query
//! ends the route with a database error.

use vstd::prelude::*;
use crate::db::{QueryResponse, SqlQuery};
use crate::decimal::int_str;
use crate::error::{query_is, ApiError, ApiErrorView, DbOutcome};
use crate::json::JsonView;
use crate::models::{row_message_id, rows_view, ReadMessageResponse};
use crate::routes::messages::{
    message_query, message_row, read_message_response, read_response_is, recipients_query,
    SQL_RECIPIENTS_OF,
};
use crate::routes::threads::{
    thread_not_found, thread_query, thread_recipient_queries, thread_response, thread_view_is,
    ThreadView, SQL_THREAD,
};

verus! {

/// `Message <id> not found`, as a 404.
pub open spec fn message_not_found(id: i64) -> ApiErrorView {
    ApiErrorView::NotFound("Message "@ + int_str(id as int) + " not found"@)
}

// ---------------------------------------------------------------------------
// One message
// ---------------------------------------------------------------------------

/// A read of message `message_id` in progress: `message` holds the reply
/// to the message query once it came back with a row.
pub struct ReadFlow {
    pub message_id: i64,
    pub message: Option<QueryResponse>,
}

/// The next move of a read.
pub enum ReadStep {
    Query(ReadFlow, SqlQuery),
    Done(ReadMessageResponse),
    Failed(ApiError),
}

impl ReadFlow {
    /// A stored reply has the message's row.
    pub open spec fn wf(&self) -> bool {
        self.message matches Some(m) ==> rows_view(m.rows).len() > 0
    }

    /// Starts reading message `id`: the message and its sender.
    pub fn start(id: i64) -> (r: (ReadFlow, SqlQuery))
        ensures
            r.0.wf(),
            r.0.message_id == id,
            r.0.message is None,
            query_is(r.1, crate::routes::messages::SQL_MESSAGE_BY_ID@, seq![JsonView::Int(id)]),
    {
        (ReadFlow { message_id: id, message: None }, message_query(id))
    }

    /// Takes the outcome of the last query and gives the next move: a
    /// message without a row is not found; otherwise its recipients are
    /// asked for, and the message is answered with them.
    pub fn resume(self, outcome: DbOutcome) -> (r: ReadStep)
        requires
            self.wf(),
        ensures
            match outcome {
                Err(e) => r matches ReadStep::Failed(err) && err@ == ApiErrorView::DbError(e@),
                Ok(resp) => match self.message {
                    None => if rows_view(resp.rows).len() == 0 {
                        r matches ReadStep::Failed(err) && err@ == message_not_found(self.message_id)
                    } else {
                        r matches ReadStep::Query(f, q) && f.wf() && f.message_id == self.message_id
                            && f.message == Some(resp) && query_is(
                            q,
                            SQL_RECIPIENTS_OF@,
                            seq![JsonView::Int(self.message_id)],
                        )
                    },
                    Some(m) => r matches ReadStep::Done(d) && read_response_is(
                        d,
                        self.message_id,
                        rows_view(m.rows)[0],
                        resp,
                    ),
                },
            },
    {
        let ReadFlow { message_id, message } = self;
        let resp = match outcome {
            Err(e) => return ReadStep::Failed(ApiError::DbError(e)),
            Ok(resp) => resp,
        };
        match message {
            None => match message_row(&resp, message_id) {
                Err(e) => ReadStep::Failed(e),
                Ok(_) => {
                    let q = recipients_query(message_id);
                    ReadStep::Query(ReadFlow { message_id, message: Some(resp) }, q)
                },
            },
            Some(m) => match message_row(&m, message_id) {
                Ok(row) => ReadStep::Done(read_message_response(message_id, row, &resp)),
                Err(e) => ReadStep::Failed(e),
            },
        }
    }
}

// ---------------------------------------------------------------------------
// A thread
// ---------------------------------------------------------------------------

/// Where a thread read stands.
pub enum ThreadPhase {
    /// Waiting for the thread's messages.
    Messages,
    /// Waiting for the recipients of the next message: the thread's
    /// messages, the recipients queries of the messages after it, and the
    /// replies for the messages before it.
    Recipients(QueryResponse, Vec<SqlQuery>, Vec<QueryResponse>),
}

/// A thread read in progress.
pub struct ThreadFlow {
    pub thread_id: String,
    pub phase: ThreadPhase,
}

/// The next move of a thread read.
pub enum ThreadStep {
    Query(ThreadFlow, SqlQuery),
    Done(ThreadView),
    Failed(ApiError),
}

impl ThreadFlow {
    /// While recipients are being gathered, one reply is awaited for the
    /// message after those answered, and the queries left are those of the
    /// messages after it, in order.
    pub open spec fn wf(&self) -> bool {
        match self.phase {
            ThreadPhase::Messages => true,
            ThreadPhase::Recipients(m, pending, replies) => {
                let rows = rows_view(m.rows);
                &&& replies@.len() < rows.len()
                &&& pending@.len() == rows.len() - replies@.len() - 1
                &&& forall|k: int|
                    0 <= k < pending@.len() ==> query_is(
                        #[trigger] pending@[k],
                        SQL_RECIPIENTS_OF@,
                        seq![JsonView::Int(row_message_id(rows[replies@.len() + 1 + k]))],
                    )
            },
        }
    }

    /// Starts reading thread `tid`: its messages, oldest first.
    pub fn start(tid: String) -> (r: (ThreadFlow, SqlQuery))
        ensures
            r.0.wf(),
            r.0.thread_id == tid,
            r.0.phase is Messages,
            query_is(r.1, SQL_THREAD@, seq![JsonView::Str(tid@)]),
    {
        let q = thread_query(tid.as_str());
        (ThreadFlow { thread_id: tid, phase: ThreadPhase::Messages }, q)
    }

    /// Takes the outcome of the last query and gives the next move: a
    /// thread without messages is not found; otherwise the recipients of
    /// each message are asked for in order, and the thread is answered with
    /// them.
    pub fn resume(self, outcome: DbOutcome) -> (r: ThreadStep)
        requires
            self.wf(),
        ensures
            match outcome {
                Err(e) => r matches ThreadStep::Failed(err) && err@ == ApiErrorView::DbError(e@),
                Ok(resp) => match self.phase {
                    ThreadPhase::Messages => if rows_view(resp.rows).len() == 0 {
                        r matches ThreadStep::Failed(err) && err@ == thread_not_found(self.thread_id@)
                    } else {
                        r matches ThreadStep::Query(f, q) && f.wf() && f.thread_id == self.thread_id && (
                        f.phase matches ThreadPhase::Recipients(m, _, replies) && m == resp && replies@.len()
                            == 0) && query_is(
                            q,
                            SQL_RECIPIENTS_OF@,
                            seq![JsonView::Int(row_message_id(rows_view(resp.rows)[0]))],
                        )
                    },
                    ThreadPhase::Recipients(m, _, replies) => {
                        let answered = replies@.push(resp);
                        if answered.len() == rows_view(m.rows).len() {
                            r matches ThreadStep::Done(t) && thread_view_is(t, self.thread_id@, m, answered)
                        } else {
                            r matches ThreadStep::Query(f, q) && f.wf() && f.thread_id == self.thread_id && (
                            f.phase matches ThreadPhase::Recipients(m2, _, replies2) && m2 == m && replies2@
                                == answered) && query_is(
                                q,
                                SQL_RECIPIENTS_OF@,
                                seq![JsonView::Int(row_message_id(rows_view(m.rows)[answered.len() as int]))],
                            )
                        }
                    },
                },
            },
    {
        let ThreadFlow { thread_id, phase } = self;
        let resp = match outcome {
            Err(e) => return ThreadStep::Failed(ApiError::DbError(e)),
            Ok(resp) => resp,
        };
        match phase {
            ThreadPhase::Messages => {
                let mut pending = thread_recipient_queries(&resp);
                if pending.len() == 0 {
                    let none: Vec<QueryResponse> = Vec::new();
                    return match thread_response(thread_id.as_str(), &resp, &none) {
                        Ok(t) => ThreadStep::Done(t),
                        Err(e) => ThreadStep::Failed(e),
                    };
                }
                let first = pending.remove(0);
                let replies: Vec<QueryResponse> = Vec::new();
                let f = ThreadFlow { thread_id, phase: ThreadPhase::Recipients(resp, pending, replies) };
                ThreadStep::Query(f, first)
            },
            ThreadPhase::Recipients(m, mut pending, mut replies) => {
                replies.push(resp);
                if pending.len() == 0 {
                    match thread_response(thread_id.as_str(), &m, &replies) {
                        Ok(t) => ThreadStep::Done(t),
                        Err(e) => ThreadStep::Failed(e),
                    }
                } else {
                    let next = pending.remove(0);
                    let f = ThreadFlow { thread_id, phase: ThreadPhase::Recipients(m, pending, replies) };
                    ThreadStep::Query(f, next)
                }
            },
        }
    }
}

} // verus!
