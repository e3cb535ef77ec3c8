//! The routes that act for an agent named in the request: its inbox page,
//! its sent page, and marking a message read. Each first looks the agent up
//! (an unknown name is `404`), then sends its own queries in turn; the first
//! failed query ends the route with a database error.

use vstd::prelude::*;
use crate::db::{QueryResponse, SqlQuery};
use crate::error::{query_is, ApiError, ApiErrorView, DbOutcome};
use crate::json::JsonView;
use crate::models::rows_view;
use crate::routes::agents::{agent_lookup_query, first_id, SQL_AGENT_ID_BY_NAME};
use crate::routes::messages::{
    agent_id_or_not_found, inbox_page, inbox_page_is, inbox_queries, mark_read_query, page_of,
    page_size_of, page_window, rows_touched, sent_page, sent_page_is, sent_queries, unread_only,
    InboxPage, InboxQuery, MarkReadRequest, PageWindow, SentPage, SQL_INBOX_COUNT_ALL,
    SQL_INBOX_COUNT_UNREAD, SQL_INBOX_PAGE_ALL, SQL_INBOX_PAGE_UNREAD, SQL_MARK_READ,
    SQL_SENT_COUNT, SQL_SENT_PAGE, SQL_SENT_RECIPIENTS, SQL_UNREAD_COUNT,
};

verus! {

/// `Agent '<name>' not found`, as a 404.
pub open spec fn agent_not_found(name: Seq<char>) -> ApiErrorView {
    ApiErrorView::NotFound("Agent '"@ + name + "' not found"@)
}

/// `w` is the window a request for `page` and `page_size` asks for.
pub open spec fn window_of(w: PageWindow, page: Option<i64>, page_size: Option<i64>) -> bool {
    &&& w.page == page_of(page)
    &&& w.page_size == page_size_of(page_size)
    &&& w.offset == ((w.page - 1) * w.page_size) as i64
}

/// The paging parameters of a page query: the agent, the page size, the offset.
pub open spec fn page_params(agent_id: i64, w: PageWindow) -> Seq<JsonView> {
    seq![JsonView::Int(agent_id), JsonView::Int(w.page_size), JsonView::Int(w.offset)]
}

// ---------------------------------------------------------------------------
// Inbox page
// ---------------------------------------------------------------------------

/// The count of an inbox listing: unread entries only, or all of them.
pub open spec fn inbox_count_sql(unread: bool) -> Seq<char> {
    if unread {
        SQL_INBOX_COUNT_UNREAD@
    } else {
        SQL_INBOX_COUNT_ALL@
    }
}

/// The page of an inbox listing: unread entries only, or all of them.
pub open spec fn inbox_page_sql(unread: bool) -> Seq<char> {
    if unread {
        SQL_INBOX_PAGE_UNREAD@
    } else {
        SQL_INBOX_PAGE_ALL@
    }
}

/// Where an inbox listing stands.
pub enum InboxPhase {
    /// Waiting for the agent's lookup.
    Lookup,
    /// Waiting for the listing count; the unread count and the page are next.
    Count(SqlQuery, SqlQuery),
    /// Waiting for the unread count; the listing count came back, the page is next.
    Unread(QueryResponse, SqlQuery),
    /// Waiting for the page; both counts came back.
    Page(QueryResponse, QueryResponse),
}

/// An inbox listing in progress.
pub struct InboxFlow {
    pub agent: String,
    pub unread: bool,
    pub window: PageWindow,
    pub agent_id: i64,
    pub phase: InboxPhase,
}

/// The next move of an inbox listing.
pub enum InboxStep {
    Query(InboxFlow, SqlQuery),
    Done(InboxPage),
    Failed(ApiError),
}

impl InboxFlow {
    /// The window is a valid one, and the queries still to send are the
    /// agent's.
    pub open spec fn wf(&self) -> bool {
        &&& 1 <= self.window.page_size <= 100
        &&& match self.phase {
            InboxPhase::Lookup => true,
            InboxPhase::Count(u, p) => {
                &&& query_is(u, SQL_UNREAD_COUNT@, seq![JsonView::Int(self.agent_id)])
                &&& query_is(p, inbox_page_sql(self.unread), page_params(self.agent_id, self.window))
            },
            InboxPhase::Unread(_, p) => query_is(
                p,
                inbox_page_sql(self.unread),
                page_params(self.agent_id, self.window),
            ),
            InboxPhase::Page(_, _) => true,
        }
    }

    /// `f` goes on with the listing of `self`.
    pub open spec fn same_listing(&self, f: InboxFlow) -> bool {
        &&& f.wf()
        &&& f.agent == self.agent
        &&& f.unread == self.unread
        &&& f.window == self.window
    }

    /// Starts listing the inbox of `agent`: the lookup of its id.
    pub fn start(agent: String, q: &InboxQuery) -> (r: (InboxFlow, SqlQuery))
        ensures
            r.0.wf(),
            r.0.agent == agent,
            r.0.unread == match q.unread {
                Some(b) => b,
                None => false,
            },
            window_of(r.0.window, q.page, q.page_size),
            r.0.phase is Lookup,
            query_is(r.1, SQL_AGENT_ID_BY_NAME@, seq![JsonView::Str(agent@)]),
    {
        let window = page_window(q.page, q.page_size);
        let lookup = agent_lookup_query(agent.as_str());
        (InboxFlow { agent, unread: unread_only(q), window, agent_id: 0, phase: InboxPhase::Lookup }, lookup)
    }

    /// Takes the outcome of the last query and gives the next move: after
    /// the lookup, the listing count, the unread count and the page are
    /// asked for in turn, and the page is built from their replies.
    pub fn resume(self, outcome: DbOutcome) -> (r: InboxStep)
        requires
            self.wf(),
        ensures
            match outcome {
                Err(e) => r matches InboxStep::Failed(err) && err@ == ApiErrorView::DbError(e@),
                Ok(resp) => match self.phase {
                    InboxPhase::Lookup => match first_id(resp) {
                        None => r matches InboxStep::Failed(err) && err@ == agent_not_found(self.agent@),
                        Some(id) => r matches InboxStep::Query(f, q) && self.same_listing(f) && f.agent_id == id
                            && f.phase is Count && query_is(q, inbox_count_sql(self.unread), seq![JsonView::Int(id)]),
                    },
                    InboxPhase::Count(_, _) => r matches InboxStep::Query(f, q) && self.same_listing(f)
                        && f.agent_id == self.agent_id && (f.phase matches InboxPhase::Unread(c, _) && c == resp)
                        && query_is(q, SQL_UNREAD_COUNT@, seq![JsonView::Int(self.agent_id)]),
                    InboxPhase::Unread(c, _) => r matches InboxStep::Query(f, q) && self.same_listing(f)
                        && f.agent_id == self.agent_id && (f.phase matches InboxPhase::Page(c2, u) && c2 == c && u == resp)
                        && query_is(q, inbox_page_sql(self.unread), page_params(self.agent_id, self.window)),
                    InboxPhase::Page(c, u) => r matches InboxStep::Done(p) && inbox_page_is(
                        p,
                        self.agent,
                        self.window,
                        c,
                        u,
                        resp,
                    ),
                },
            },
    {
        let InboxFlow { agent, unread, window, agent_id, phase } = self;
        let resp = match outcome {
            Err(e) => return InboxStep::Failed(ApiError::DbError(e)),
            Ok(resp) => resp,
        };
        match phase {
            InboxPhase::Lookup => match agent_id_or_not_found(&resp, agent.as_str()) {
                Err(e) => InboxStep::Failed(e),
                Ok(id) => {
                    let (count, unread_q, page) = inbox_queries(id, unread, &window);
                    InboxStep::Query(
                        InboxFlow { agent, unread, window, agent_id: id, phase: InboxPhase::Count(unread_q, page) },
                        count,
                    )
                },
            },
            InboxPhase::Count(unread_q, page) => InboxStep::Query(
                InboxFlow { agent, unread, window, agent_id, phase: InboxPhase::Unread(resp, page) },
                unread_q,
            ),
            InboxPhase::Unread(count, page) => InboxStep::Query(
                InboxFlow { agent, unread, window, agent_id, phase: InboxPhase::Page(count, resp) },
                page,
            ),
            InboxPhase::Page(count, unread_reply) => InboxStep::Done(
                inbox_page(agent, &window, &count, &unread_reply, &resp),
            ),
        }
    }
}

// ---------------------------------------------------------------------------
// Sent page
// ---------------------------------------------------------------------------

/// Where a sent listing stands.
pub enum SentPhase {
    /// Waiting for the agent's lookup.
    Lookup,
    /// Waiting for the count; the page and the recipients are next.
    Count(SqlQuery, SqlQuery),
    /// Waiting for the page; the count came back, the recipients are next.
    Page(QueryResponse, SqlQuery),
    /// Waiting for the recipients; the count and the page came back.
    Recipients(QueryResponse, QueryResponse),
}

/// A sent listing in progress.
pub struct SentFlow {
    pub agent: String,
    pub window: PageWindow,
    pub agent_id: i64,
    pub phase: SentPhase,
}

/// The next move of a sent listing.
pub enum SentStep {
    Query(SentFlow, SqlQuery),
    Done(SentPage),
    Failed(ApiError),
}

impl SentFlow {
    /// The window is a valid one, and the queries still to send are the
    /// agent's.
    pub open spec fn wf(&self) -> bool {
        &&& 1 <= self.window.page_size <= 100
        &&& match self.phase {
            SentPhase::Lookup => true,
            SentPhase::Count(p, rq) => {
                &&& query_is(p, SQL_SENT_PAGE@, page_params(self.agent_id, self.window))
                &&& query_is(rq, SQL_SENT_RECIPIENTS@, page_params(self.agent_id, self.window))
            },
            SentPhase::Page(_, rq) => query_is(rq, SQL_SENT_RECIPIENTS@, page_params(self.agent_id, self.window)),
            SentPhase::Recipients(_, _) => true,
        }
    }

    /// `f` goes on with the listing of `self`.
    pub open spec fn same_listing(&self, f: SentFlow) -> bool {
        &&& f.wf()
        &&& f.agent == self.agent
        &&& f.window == self.window
    }

    /// Starts listing what `agent` sent: the lookup of its id.
    pub fn start(agent: String, q: &InboxQuery) -> (r: (SentFlow, SqlQuery))
        ensures
            r.0.wf(),
            r.0.agent == agent,
            window_of(r.0.window, q.page, q.page_size),
            r.0.phase is Lookup,
            query_is(r.1, SQL_AGENT_ID_BY_NAME@, seq![JsonView::Str(agent@)]),
    {
        let window = page_window(q.page, q.page_size);
        let lookup = agent_lookup_query(agent.as_str());
        (SentFlow { agent, window, agent_id: 0, phase: SentPhase::Lookup }, lookup)
    }

    /// Takes the outcome of the last query and gives the next move: after
    /// the lookup, the count, the page and the page's recipients are asked
    /// for in turn, and the page is built from their replies.
    pub fn resume(self, outcome: DbOutcome) -> (r: SentStep)
        requires
            self.wf(),
        ensures
            match outcome {
                Err(e) => r matches SentStep::Failed(err) && err@ == ApiErrorView::DbError(e@),
                Ok(resp) => match self.phase {
                    SentPhase::Lookup => match first_id(resp) {
                        None => r matches SentStep::Failed(err) && err@ == agent_not_found(self.agent@),
                        Some(id) => r matches SentStep::Query(f, q) && self.same_listing(f) && f.agent_id == id
                            && f.phase is Count && query_is(q, SQL_SENT_COUNT@, seq![JsonView::Int(id)]),
                    },
                    SentPhase::Count(_, _) => r matches SentStep::Query(f, q) && self.same_listing(f)
                        && f.agent_id == self.agent_id && (f.phase matches SentPhase::Page(c, _) && c == resp)
                        && query_is(q, SQL_SENT_PAGE@, page_params(self.agent_id, self.window)),
                    SentPhase::Page(c, _) => r matches SentStep::Query(f, q) && self.same_listing(f)
                        && f.agent_id == self.agent_id && (f.phase matches SentPhase::Recipients(c2, p) && c2 == c
                        && p == resp) && query_is(q, SQL_SENT_RECIPIENTS@, page_params(self.agent_id, self.window)),
                    SentPhase::Recipients(c, p) => r matches SentStep::Done(s) && sent_page_is(
                        s,
                        self.agent,
                        self.window,
                        c,
                        p,
                        resp,
                    ),
                },
            },
    {
        let SentFlow { agent, window, agent_id, phase } = self;
        let resp = match outcome {
            Err(e) => return SentStep::Failed(ApiError::DbError(e)),
            Ok(resp) => resp,
        };
        match phase {
            SentPhase::Lookup => match agent_id_or_not_found(&resp, agent.as_str()) {
                Err(e) => SentStep::Failed(e),
                Ok(id) => {
                    let (count, page, recipients) = sent_queries(id, &window);
                    SentStep::Query(
                        SentFlow { agent, window, agent_id: id, phase: SentPhase::Count(page, recipients) },
                        count,
                    )
                },
            },
            SentPhase::Count(page, recipients) => SentStep::Query(
                SentFlow { agent, window, agent_id, phase: SentPhase::Page(resp, recipients) },
                page,
            ),
            SentPhase::Page(count, recipients) => SentStep::Query(
                SentFlow { agent, window, agent_id, phase: SentPhase::Recipients(count, resp) },
                recipients,
            ),
            SentPhase::Recipients(count, page) => SentStep::Done(
                sent_page(agent, &window, &count, &page, &resp),
            ),
        }
    }
}

// ---------------------------------------------------------------------------
// Marking read
// ---------------------------------------------------------------------------

/// The answer to a mark-as-read request.
pub struct MarkedRead {
    pub message_id: i64,
    pub agent: String,
    /// How many inbox entries became read (0 or 1).
    pub marked_read: usize,
}

/// How many inbox entries an update reports it marked read: the rows it
/// returned.
pub open spec fn marked_by(resp: QueryResponse) -> nat {
    rows_view(resp.rows).len()
}

/// An inbox entry as the mark-as-read update sees it: its message, its
/// agent, and whether it is read.
pub type InboxEntry = (i64, i64, bool);

/// How many entries of message `m` for agent `a` are unread.
pub open spec fn unread_entries(entries: Seq<InboxEntry>, m: i64, a: i64) -> nat
    decreases entries.len(),
{
    if entries.len() == 0 {
        0
    } else {
        let e = entries.last();
        unread_entries(entries.drop_last(), m, a) + if e.0 == m && e.1 == a && !e.2 {
            1nat
        } else {
            0nat
        }
    }
}

/// The entries after the update marked every entry of message `m` for agent
/// `a` read; the others are left as they were.
pub open spec fn after_mark_read(entries: Seq<InboxEntry>, m: i64, a: i64) -> Seq<InboxEntry> {
    entries.map_values(|e: InboxEntry| if e.0 == m && e.1 == a { (e.0, e.1, true) } else { e })
}

proof fn lemma_after_mark_read_none_unread(entries: Seq<InboxEntry>, m: i64, a: i64)
    ensures
        unread_entries(after_mark_read(entries, m, a), m, a) == 0,
    decreases entries.len(),
{
    if entries.len() > 0 {
        assert(after_mark_read(entries, m, a).drop_last() =~= after_mark_read(entries.drop_last(), m, a));
        lemma_after_mark_read_none_unread(entries.drop_last(), m, a);
    }
}

/// Marking a message read twice in a row for the same agent, against a
/// database whose update touches exactly the unread entries of that message
/// and agent and leaves them read: whatever the first update of `entries`
/// counted, the second, made on what the first left, counts none.
pub proof fn law_second_mark_read_marks_none(entries: Seq<InboxEntry>, m: i64, a: i64, second: QueryResponse)
    requires
        marked_by(second) == unread_entries(after_mark_read(entries, m, a), m, a),
    ensures
        marked_by(second) == 0,
{
    lemma_after_mark_read_none_unread(entries, m, a);
}

/// A mark-as-read request in progress: `looked_up` once the agent's id is
/// known and the update is sent.
pub struct MarkReadFlow {
    pub message_id: i64,
    pub agent: String,
    pub looked_up: bool,
}

/// The next move of a mark-as-read request.
pub enum MarkReadStep {
    Query(MarkReadFlow, SqlQuery),
    Done(MarkedRead),
    Failed(ApiError),
}

impl MarkReadFlow {
    /// Starts marking message `message_id` read for the agent the request
    /// names: the lookup of its id.
    pub fn start(message_id: i64, req: MarkReadRequest) -> (r: (MarkReadFlow, SqlQuery))
        ensures
            r.0.message_id == message_id,
            r.0.agent == req.agent,
            !r.0.looked_up,
            query_is(r.1, SQL_AGENT_ID_BY_NAME@, seq![JsonView::Str(req.agent@)]),
    {
        let lookup = agent_lookup_query(req.agent.as_str());
        (MarkReadFlow { message_id, agent: req.agent, looked_up: false }, lookup)
    }

    /// Takes the outcome of the last query and gives the next move: once
    /// the agent is known, its unread entry of the message is marked read;
    /// the answer counts the entries the update touched.
    pub fn resume(self, outcome: DbOutcome) -> (r: MarkReadStep)
        ensures
            match outcome {
                Err(e) => r matches MarkReadStep::Failed(err) && err@ == ApiErrorView::DbError(e@),
                Ok(resp) => if !self.looked_up {
                    match first_id(resp) {
                        None => r matches MarkReadStep::Failed(err) && err@ == agent_not_found(self.agent@),
                        Some(id) => r matches MarkReadStep::Query(f, q) && f.looked_up && f.message_id
                            == self.message_id && f.agent == self.agent && query_is(
                            q,
                            SQL_MARK_READ@,
                            seq![JsonView::Int(self.message_id), JsonView::Int(id)],
                        ),
                    }
                } else {
                    r matches MarkReadStep::Done(m) && m.message_id == self.message_id && m.agent == self.agent
                        && m.marked_read == marked_by(resp)
                },
            },
    {
        let MarkReadFlow { message_id, agent, looked_up } = self;
        let resp = match outcome {
            Err(e) => return MarkReadStep::Failed(ApiError::DbError(e)),
            Ok(resp) => resp,
        };
        if !looked_up {
            match agent_id_or_not_found(&resp, agent.as_str()) {
                Err(e) => MarkReadStep::Failed(e),
                Ok(id) => {
                    let q = mark_read_query(message_id, id);
                    MarkReadStep::Query(MarkReadFlow { message_id, agent, looked_up: true }, q)
                },
            }
        } else {
            let marked_read = rows_touched(&resp);
            MarkReadStep::Done(MarkedRead { message_id, agent, marked_read })
        }
    }
}

} // verus!
