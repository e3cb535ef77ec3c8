//! Administration: schema set-up, status counts, settings.

use vstd::prelude::*;
use crate::db::{field_spec, str_param, DbClient, QueryResponse, SqlQuery};
use crate::error::{query_is, ApiError, ApiErrorView, DbOutcome};
use crate::json::{get_str_spec, opt_str_view, JsonObject, JsonView};
use crate::models::{rows_view, RowView};
use crate::routes::messages::{count_from, count_of};
use crate::text::to_owned;

verus! {

/// The body of a set-up request.
pub struct InitRequest {
    pub project_name: Option<String>,
}

/// The body of a setting update.
pub struct SettingRequest {
    pub key: String,
    pub value: String,
}

pub const SQL_SET_PROJECT_NAME: &'static str = "INSERT INTO settings (key, value, updated_at) \
                 VALUES ('project_name', $1::text, NOW()) \
                 ON CONFLICT (key) DO UPDATE SET value = $1::text, updated_at = NOW()";

pub const SQL_COUNT_AGENTS: &'static str = "SELECT COUNT(*) as cnt FROM agents";

pub const SQL_COUNT_MESSAGES: &'static str = "SELECT COUNT(*) as cnt FROM messages";

pub const SQL_COUNT_UNREAD_INBOX: &'static str = "SELECT COUNT(*) as cnt FROM inbox WHERE read_at IS NULL";

pub const SQL_PROJECT_NAME: &'static str = "SELECT value FROM settings WHERE key = 'project_name'";

pub const SQL_SET_SETTING: &'static str = "INSERT INTO settings (key, value, updated_at) \
         VALUES ($1::text, $2::text, NOW()) \
         ON CONFLICT (key) DO UPDATE SET value = $2::text, updated_at = NOW()";

pub const SQL_GET_SETTINGS: &'static str = "SELECT key, value, updated_at::text FROM settings ORDER BY key";

/// A query without parameters.
pub fn plain_query(sql: &str) -> (q: SqlQuery)
    ensures
        query_is(q, sql@, Seq::<JsonView>::empty()),
{
    let q = SqlQuery { sql: to_owned(sql), params: Vec::new() };
    assert(crate::db::params_view(q.params@) =~= Seq::<JsonView>::empty());
    q
}

/// The statement that records the project's name, when the set-up request
/// names one.
pub fn project_name_query(req: &Option<InitRequest>) -> (r: Option<SqlQuery>)
    ensures
        match req {
            Some(InitRequest { project_name: Some(n) }) => r matches Some(q) && query_is(
                q,
                SQL_SET_PROJECT_NAME@,
                seq![JsonView::Str(n@)],
            ),
            _ => r is None,
        },
{
    match req {
        Some(InitRequest { project_name: Some(n) }) => {
            let q = SqlQuery { sql: to_owned(SQL_SET_PROJECT_NAME), params: vec![str_param(n.as_str())] };
            assert(crate::db::params_view(q.params@) =~= seq![JsonView::Str(n@)]);
            Some(q)
        },
        _ => None,
    }
}

/// The four status queries: agents, messages, unread inbox entries, and the
/// project's name.
pub fn status_queries() -> (r: (SqlQuery, SqlQuery, SqlQuery, SqlQuery))
    ensures
        query_is(r.0, SQL_COUNT_AGENTS@, Seq::<JsonView>::empty()),
        query_is(r.1, SQL_COUNT_MESSAGES@, Seq::<JsonView>::empty()),
        query_is(r.2, SQL_COUNT_UNREAD_INBOX@, Seq::<JsonView>::empty()),
        query_is(r.3, SQL_PROJECT_NAME@, Seq::<JsonView>::empty()),
{
    (
        plain_query(SQL_COUNT_AGENTS),
        plain_query(SQL_COUNT_MESSAGES),
        plain_query(SQL_COUNT_UNREAD_INBOX),
        plain_query(SQL_PROJECT_NAME),
    )
}

/// The counts and the project's name.
pub struct StatusReport {
    pub project_name: Option<String>,
    pub agents: i64,
    pub messages: i64,
    pub unread_inbox: i64,
}

/// `r` is the status from the replies to the three counts and, when it
/// succeeded, to the project's name query.
pub open spec fn status_is(
    r: StatusReport,
    agents: QueryResponse,
    messages: QueryResponse,
    inbox: QueryResponse,
    project: Option<QueryResponse>,
) -> bool {
    &&& r.agents == count_of(agents)
    &&& r.messages == count_of(messages)
    &&& r.unread_inbox == count_of(inbox)
    &&& opt_str_view(r.project_name) == match project {
        Some(p) => match field_spec(p, 0, "value"@) {
            Some(JsonView::Str(s)) => Some(s),
            _ => None,
        },
        None => None::<Seq<char>>,
    }
}

/// The status from the replies of the four queries; the project's name may
/// be missing (its query failed, or it was never set).
pub fn status_report(
    agents: &QueryResponse,
    messages: &QueryResponse,
    inbox: &QueryResponse,
    project: Option<&QueryResponse>,
) -> (r: StatusReport)
    ensures
        status_is(
            r,
            *agents,
            *messages,
            *inbox,
            match project {
                Some(p) => Some(*p),
                None => None,
            },
        ),
{
    StatusReport {
        project_name: match project {
            Some(p) => DbClient::field_str(p, 0, "value"),
            None => None,
        },
        agents: count_from(agents),
        messages: count_from(messages),
        unread_inbox: count_from(inbox),
    }
}

/// Where a status request stands.
pub enum StatusPhase {
    /// Waiting for the agent count; the other three queries are next.
    Agents(SqlQuery, SqlQuery, SqlQuery),
    /// Waiting for the message count.
    Messages(QueryResponse, SqlQuery, SqlQuery),
    /// Waiting for the unread count.
    Inbox(QueryResponse, QueryResponse, SqlQuery),
    /// Waiting for the project's name; the three counts came back.
    Project(QueryResponse, QueryResponse, QueryResponse),
}

/// A status request in progress.
pub struct StatusFlow {
    pub phase: StatusPhase,
}

/// The next move of a status request.
pub enum StatusStep {
    Query(StatusFlow, SqlQuery),
    Done(StatusReport),
    Failed(ApiError),
}

impl StatusFlow {
    /// The queries still to send are the status queries that follow.
    pub open spec fn wf(&self) -> bool {
        match self.phase {
            StatusPhase::Agents(m, i, p) => {
                &&& query_is(m, SQL_COUNT_MESSAGES@, Seq::<JsonView>::empty())
                &&& query_is(i, SQL_COUNT_UNREAD_INBOX@, Seq::<JsonView>::empty())
                &&& query_is(p, SQL_PROJECT_NAME@, Seq::<JsonView>::empty())
            },
            StatusPhase::Messages(_, i, p) => {
                &&& query_is(i, SQL_COUNT_UNREAD_INBOX@, Seq::<JsonView>::empty())
                &&& query_is(p, SQL_PROJECT_NAME@, Seq::<JsonView>::empty())
            },
            StatusPhase::Inbox(_, _, p) => query_is(p, SQL_PROJECT_NAME@, Seq::<JsonView>::empty()),
            StatusPhase::Project(_, _, _) => true,
        }
    }

    /// Starts a status request: the agent count.
    pub fn start() -> (r: (StatusFlow, SqlQuery))
        ensures
            r.0.wf(),
            r.0.phase is Agents,
            query_is(r.1, SQL_COUNT_AGENTS@, Seq::<JsonView>::empty()),
    {
        let (a, m, i, p) = status_queries();
        (StatusFlow { phase: StatusPhase::Agents(m, i, p) }, a)
    }

    /// Takes the outcome of the last query and gives the next move: the
    /// counts of agents, messages and unread entries are asked for in turn,
    /// and a failure among them fails the request; then the project's name,
    /// whose failure only leaves the name out.
    pub fn resume(self, outcome: DbOutcome) -> (r: StatusStep)
        requires
            self.wf(),
        ensures
            match self.phase {
                StatusPhase::Project(a, m, i) => r matches StatusStep::Done(s) && status_is(
                    s,
                    a,
                    m,
                    i,
                    match outcome {
                        Ok(p) => Some(p),
                        Err(_) => None,
                    },
                ),
                _ => match outcome {
                    Err(e) => r matches StatusStep::Failed(err) && err@ == ApiErrorView::DbError(e@),
                    Ok(resp) => match self.phase {
                        StatusPhase::Agents(_, _, _) => r matches StatusStep::Query(f, q) && f.wf() && (
                        f.phase matches StatusPhase::Messages(a, _, _) && a == resp) && query_is(
                            q,
                            SQL_COUNT_MESSAGES@,
                            Seq::<JsonView>::empty(),
                        ),
                        StatusPhase::Messages(a, _, _) => r matches StatusStep::Query(f, q) && f.wf() && (
                        f.phase matches StatusPhase::Inbox(a2, m, _) && a2 == a && m == resp) && query_is(
                            q,
                            SQL_COUNT_UNREAD_INBOX@,
                            Seq::<JsonView>::empty(),
                        ),
                        StatusPhase::Inbox(a, m, _) => r matches StatusStep::Query(f, q) && f.wf() && (
                        f.phase matches StatusPhase::Project(a2, m2, i) && a2 == a && m2 == m && i == resp)
                            && query_is(q, SQL_PROJECT_NAME@, Seq::<JsonView>::empty()),
                        StatusPhase::Project(_, _, _) => false,
                    },
                },
            },
    {
        match self.phase {
            StatusPhase::Project(a, m, i) => match outcome {
                Ok(p) => StatusStep::Done(status_report(&a, &m, &i, Some(&p))),
                Err(_) => StatusStep::Done(status_report(&a, &m, &i, None)),
            },
            StatusPhase::Agents(mq, iq, pq) => match outcome {
                Err(e) => StatusStep::Failed(ApiError::DbError(e)),
                Ok(a) => StatusStep::Query(StatusFlow { phase: StatusPhase::Messages(a, iq, pq) }, mq),
            },
            StatusPhase::Messages(a, iq, pq) => match outcome {
                Err(e) => StatusStep::Failed(ApiError::DbError(e)),
                Ok(m) => StatusStep::Query(StatusFlow { phase: StatusPhase::Inbox(a, m, pq) }, iq),
            },
            StatusPhase::Inbox(a, m, pq) => match outcome {
                Err(e) => StatusStep::Failed(ApiError::DbError(e)),
                Ok(i) => StatusStep::Query(StatusFlow { phase: StatusPhase::Project(a, m, i) }, pq),
            },
        }
    }
}

/// The upsert of one setting.
pub fn setting_query(req: &SettingRequest) -> (q: SqlQuery)
    ensures
        query_is(q, SQL_SET_SETTING@, seq![JsonView::Str(req.key@), JsonView::Str(req.value@)]),
{
    let q = SqlQuery {
        sql: to_owned(SQL_SET_SETTING),
        params: vec![str_param(req.key.as_str()), str_param(req.value.as_str())],
    };
    assert(crate::db::params_view(q.params@) =~= seq![
        JsonView::Str(req.key@),
        JsonView::Str(req.value@),
    ]);
    q
}

/// The settings rows that carry a text key and a text value, as pairs in
/// row order (a later pair for the same key replaces an earlier one).
pub open spec fn settings_spec(rows: Seq<RowView>) -> Seq<(Seq<char>, Seq<char>)>
    decreases rows.len(),
{
    if rows.len() == 0 {
        Seq::empty()
    } else {
        let prev = settings_spec(rows.drop_last());
        let r = rows.last();
        match (get_str_spec(r, "key"@), get_str_spec(r, "value"@)) {
            (Some(k), Some(v)) => prev.push((k, v)),
            _ => prev,
        }
    }
}

/// The views of key and value pairs.
pub open spec fn pairs_view(p: Seq<(String, String)>) -> Seq<(Seq<char>, Seq<char>)> {
    p.map_values(|kv: (String, String)| (kv.0@, kv.1@))
}

/// The settings a listing returned.
pub fn settings_from(result: &QueryResponse) -> (r: Vec<(String, String)>)
    ensures
        pairs_view(r@) == settings_spec(rows_view(result.rows)),
{
    let mut out: Vec<(String, String)> = Vec::new();
    match &result.rows {
        Some(rows) => {
            let ghost rv = rows@.map_values(|o: JsonObject| o@);
            let mut i: usize = 0;
            assert(rv.take(0) =~= Seq::<RowView>::empty());
            assert(pairs_view(out@) =~= Seq::<(Seq<char>, Seq<char>)>::empty());
            while i < rows.len()
                invariant
                    i <= rows@.len(),
                    rv == rows@.map_values(|o: JsonObject| o@),
                    rows_view(result.rows) == rv,
                    pairs_view(out@) == settings_spec(rv.take(i as int)),
                decreases rows.len() - i,
            {
                let row = &rows[i];
                assert(rv.take(i + 1).drop_last() =~= rv.take(i as int));
                assert(rv.take(i + 1).last() == row@);
                match (row.get_str("key"), row.get_str("value")) {
                    (Some(k), Some(v)) => {
                        out.push((k, v));
                        assert(pairs_view(out@) =~= settings_spec(rv.take(i as int)).push(
                            (get_str_spec(row@, "key"@)->0, get_str_spec(row@, "value"@)->0),
                        ));
                    },
                    _ => {},
                }
                i = i + 1;
            }
            assert(rv.take(rows@.len() as int) =~= rv);
        },
        None => {
            assert(pairs_view(out@) =~= Seq::<(Seq<char>, Seq<char>)>::empty());
        },
    }
    out
}

} // verus!
