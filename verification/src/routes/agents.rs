//! Agents: listing, registration, and resolving a name to an id.

use vstd::prelude::*;
use crate::db::{field_spec, int_param, str_param, DbClient, QueryResponse, SqlQuery};
use crate::error::{query_is, ApiError, ApiErrorView, DbOutcome};
use crate::json::{opt_str_view, JsonView};
use crate::models::{agent_from_row, parse_agents, rows_view, Agent, RegisterAgentRequest};
use crate::text::{chars_of, to_owned, trim, trim_spec, views};

verus! {

/// Whether `c` is alphabetic or numeric in Unicode (`char::is_alphanumeric`).
pub uninterp spec fn is_alphanumeric_spec(c: char) -> bool;

/// `char::is_alphanumeric` of std. Claimed: the result is the Unicode
/// classification; on ASCII it accepts exactly the letters and digits (the
/// documentation defines it as `is_alphabetic() || is_numeric()`).
pub assume_specification[ char::is_alphanumeric ](c: char) -> (r: bool)
    ensures
        r == is_alphanumeric_spec(c),
        ('a' <= c <= 'z' || 'A' <= c <= 'Z' || '0' <= c <= '9') ==> r,
        ((c as u32) < 128 && !('a' <= c <= 'z' || 'A' <= c <= 'Z' || '0' <= c <= '9')) ==> !r,
;

pub const SQL_AGENT_ID_BY_NAME: &'static str = "SELECT id FROM agents WHERE name = $1::text";

pub const SQL_TOUCH_AGENT: &'static str = "UPDATE agents SET last_active_at = NOW() WHERE id = $1::int";

pub const SQL_REGISTER_NAME: &'static str = "INSERT INTO agents (name) VALUES ($1::text) RETURNING id";

pub const SQL_LIST_AGENTS: &'static str = "SELECT id, name, display_name, role, program, model, is_active, \
             created_at::text, last_active_at::text \
             FROM agents ORDER BY name";

pub const SQL_REGISTER_AGENT: &'static str = "INSERT INTO agents (name, display_name, role, program, model) \
             VALUES ($1::text, $2::text, $3::text, $4::text, $5::text) \
             ON CONFLICT (name) DO UPDATE SET \
               display_name = COALESCE(EXCLUDED.display_name, agents.display_name), \
               role = COALESCE(EXCLUDED.role, agents.role), \
               program = COALESCE(EXCLUDED.program, agents.program), \
               model = COALESCE(EXCLUDED.model, agents.model), \
               last_active_at = NOW() \
             RETURNING id, name, display_name, role, program, model, is_active, \
               created_at::text, last_active_at::text";

// ---------------------------------------------------------------------------
// Resolving a name
// ---------------------------------------------------------------------------

/// Why a name could not be resolved.
pub enum ResolveError {
    /// A query failed; the text of the failure.
    Db(String),
    /// The name was not known and registering it gave no id.
    NotRegistered,
}

/// Where a resolution stands.
#[derive(PartialEq, Eq, Structural, Clone, Copy)]
pub enum ResolvePhase {
    /// Waiting for the lookup by name.
    Lookup,
    /// The name was known with this id; waiting for its activity to be recorded.
    Touch(i64),
    /// The name was unknown; waiting for its registration.
    Register,
    Finished,
}

/// The next move of a resolution.
pub enum ResolveStep {
    Query(SqlQuery),
    Resolved(i64),
    Failed(ResolveError),
}

/// Resolves an agent's name to its id, registering the name when it is not
/// known yet.
pub struct AgentResolver {
    pub name: String,
    pub phase: ResolvePhase,
}

/// The mathematical form of a [`ResolveError`].
pub enum ResolveErrorView {
    Db(Seq<char>),
    NotRegistered,
}

impl View for ResolveError {
    type V = ResolveErrorView;

    open spec fn view(&self) -> ResolveErrorView {
        match self {
            ResolveError::Db(e) => ResolveErrorView::Db(e@),
            ResolveError::NotRegistered => ResolveErrorView::NotRegistered,
        }
    }
}

/// A move of a resolution: send a query (its text and parameters), or end
/// with the id, or end with an error.
pub enum ResolveMove {
    Ask(Seq<char>, Seq<JsonView>),
    Found(i64),
    Fail(ResolveErrorView),
}

/// The phase a resolution enters after the outcome of its last query.
pub open spec fn resolve_next(phase: ResolvePhase, outcome: DbOutcome) -> ResolvePhase {
    match phase {
        ResolvePhase::Lookup => match outcome {
            Ok(resp) => match first_id(resp) {
                Some(id) => ResolvePhase::Touch(id),
                None => ResolvePhase::Register,
            },
            Err(_) => ResolvePhase::Finished,
        },
        _ => ResolvePhase::Finished,
    }
}

/// The move a resolution of `name` makes after the outcome of its last
/// query: a failed lookup fails; a found id is recorded as active and then
/// given back, whatever that update answered; an unknown name is registered,
/// and the registration's id given back.
pub open spec fn resolve_move(phase: ResolvePhase, name: Seq<char>, outcome: DbOutcome) -> ResolveMove {
    match phase {
        ResolvePhase::Lookup => match outcome {
            Err(e) => ResolveMove::Fail(ResolveErrorView::Db(e@)),
            Ok(resp) => match first_id(resp) {
                Some(id) => ResolveMove::Ask(SQL_TOUCH_AGENT@, seq![JsonView::Int(id)]),
                None => ResolveMove::Ask(SQL_REGISTER_NAME@, seq![JsonView::Str(name)]),
            },
        },
        ResolvePhase::Touch(id) => ResolveMove::Found(id),
        ResolvePhase::Register => match outcome {
            Err(e) => ResolveMove::Fail(ResolveErrorView::Db(e@)),
            Ok(resp) => match first_id(resp) {
                Some(id) => ResolveMove::Found(id),
                None => ResolveMove::Fail(ResolveErrorView::NotRegistered),
            },
        },
        ResolvePhase::Finished => ResolveMove::Fail(ResolveErrorView::NotRegistered),
    }
}

/// `step` carries out the move `m`.
pub open spec fn step_is(step: ResolveStep, m: ResolveMove) -> bool {
    match m {
        ResolveMove::Ask(sql, params) => step matches ResolveStep::Query(q) && query_is(q, sql, params),
        ResolveMove::Found(id) => step matches ResolveStep::Resolved(got) && got == id,
        ResolveMove::Fail(e) => step matches ResolveStep::Failed(err) && err@ == e,
    }
}

/// The lookup of an agent's id by name.
pub fn agent_lookup_query(name: &str) -> (q: SqlQuery)
    ensures
        query_is(q, SQL_AGENT_ID_BY_NAME@, seq![JsonView::Str(name@)]),
{
    let mut params = Vec::new();
    params.push(str_param(name));
    let q = SqlQuery { sql: to_owned(SQL_AGENT_ID_BY_NAME), params };
    assert(crate::db::params_view(q.params@) =~= seq![JsonView::Str(name@)]);
    q
}

/// The id in the first row of a reply, if there is one.
pub open spec fn first_id(r: QueryResponse) -> Option<i64> {
    match field_spec(r, 0, "id"@) {
        Some(JsonView::Int(i)) => Some(i),
        _ => None,
    }
}

impl ResolveError {
    /// The text of the error as the MCP server reports it.
    pub fn text(&self) -> (r: String)
        ensures
            r@ == match self {
                ResolveError::Db(e) => e@,
                ResolveError::NotRegistered => "Failed to register agent"@,
            },
    {
        match self {
            ResolveError::Db(e) => e.clone(),
            ResolveError::NotRegistered => to_owned("Failed to register agent"),
        }
    }

    /// The error as the HTTP routes report it.
    pub fn to_api(self) -> (r: ApiError)
        ensures
            r@ == match self {
                ResolveError::Db(e) => ApiErrorView::DbError(e@),
                ResolveError::NotRegistered => ApiErrorView::Internal("Failed to register agent"@),
            },
    {
        match self {
            ResolveError::Db(e) => ApiError::DbError(e),
            ResolveError::NotRegistered => ApiError::Internal(to_owned("Failed to register agent")),
        }
    }
}

impl AgentResolver {
    /// Starts resolving `name`: the first query looks it up.
    pub fn start(name: &str) -> (r: (AgentResolver, SqlQuery))
        ensures
            r.0.name@ == name@,
            r.0.phase == ResolvePhase::Lookup,
            query_is(r.1, SQL_AGENT_ID_BY_NAME@, seq![JsonView::Str(name@)]),
    {
        (AgentResolver { name: to_owned(name), phase: ResolvePhase::Lookup }, agent_lookup_query(name))
    }

    /// Takes the outcome of the last query and gives the next move. A known
    /// name resolves to its id once its activity is recorded (whether or not
    /// that update succeeds); an unknown name is registered.
    pub fn resume(&mut self, outcome: DbOutcome) -> (r: ResolveStep)
        requires
            old(self).phase != ResolvePhase::Finished,
        ensures
            final(self).name@ == old(self).name@,
            final(self).phase == resolve_next(old(self).phase, outcome),
            step_is(r, resolve_move(old(self).phase, old(self).name@, outcome)),
    {
        match self.phase {
            ResolvePhase::Lookup => match outcome {
                Err(e) => {
                    self.phase = ResolvePhase::Finished;
                    ResolveStep::Failed(ResolveError::Db(e))
                },
                Ok(resp) => match DbClient::field_i64(&resp, 0, "id") {
                    Some(id) => {
                        self.phase = ResolvePhase::Touch(id);
                        let mut params = Vec::new();
                        params.push(int_param(id));
                        let q = SqlQuery { sql: to_owned(SQL_TOUCH_AGENT), params };
                        assert(crate::db::params_view(q.params@) =~= seq![JsonView::Int(id)]);
                        ResolveStep::Query(q)
                    },
                    None => {
                        self.phase = ResolvePhase::Register;
                        let mut params = Vec::new();
                        params.push(str_param(self.name.as_str()));
                        let q = SqlQuery { sql: to_owned(SQL_REGISTER_NAME), params };
                        assert(crate::db::params_view(q.params@) =~= seq![
                            JsonView::Str(self.name@),
                        ]);
                        ResolveStep::Query(q)
                    },
                },
            },
            ResolvePhase::Touch(id) => {
                self.phase = ResolvePhase::Finished;
                ResolveStep::Resolved(id)
            },
            ResolvePhase::Register => {
                self.phase = ResolvePhase::Finished;
                match outcome {
                    Err(e) => ResolveStep::Failed(ResolveError::Db(e)),
                    Ok(resp) => match DbClient::field_i64(&resp, 0, "id") {
                        Some(id) => ResolveStep::Resolved(id),
                        None => ResolveStep::Failed(ResolveError::NotRegistered),
                    },
                }
            },
            ResolvePhase::Finished => ResolveStep::Failed(ResolveError::NotRegistered),
        }
    }
}

/// The id of the agent named `name` in a table of agents, each an id and a
/// name, if the table has one.
pub open spec fn agent_named(table: Seq<(i64, Seq<char>)>, name: Seq<char>) -> Option<i64> {
    if exists|i: int| 0 <= i < table.len() && table[i].1 == name {
        Some(table[choose|i: int| 0 <= i < table.len() && table[i].1 == name].0)
    } else {
        None
    }
}

/// The agents table after a resolution of `name`: unchanged when the name
/// was there, else with the name registered under the id the insertion gave.
pub open spec fn table_after_resolve(table: Seq<(i64, Seq<char>)>, name: Seq<char>, reg: QueryResponse) -> Seq<
    (i64, Seq<char>),
> {
    match agent_named(table, name) {
        Some(_) => table,
        None => table.push((first_id(reg)->0, name)),
    }
}

/// Resolving the same name twice against a database that keeps its agents
/// table (each lookup answers with the id the table holds for the name). The
/// first resolution touches a known agent, or registers an unknown one once,
/// and ends with its id; the second finds that same id, records it as active,
/// registers nothing, and ends with the same id.
pub proof fn law_second_resolution_finds_without_inserting(
    table: Seq<(i64, Seq<char>)>,
    name: Seq<char>,
    lookup1: QueryResponse,
    touch1: DbOutcome,
    reg: QueryResponse,
    lookup2: QueryResponse,
    touch2: DbOutcome,
)
    requires
        first_id(lookup1) == agent_named(table, name),
        agent_named(table, name) is None ==> first_id(reg) is Some,
        first_id(lookup2) == agent_named(table_after_resolve(table, name, reg), name),
    ensures
        ({
            let id = match agent_named(table, name) {
                Some(i) => i,
                None => first_id(reg)->0,
            };
            &&& agent_named(table, name) is Some ==> {
                &&& resolve_move(ResolvePhase::Lookup, name, Ok(lookup1)) == ResolveMove::Ask(
                    SQL_TOUCH_AGENT@,
                    seq![JsonView::Int(id)],
                )
                &&& resolve_next(ResolvePhase::Lookup, Ok(lookup1)) == ResolvePhase::Touch(id)
                &&& resolve_move(ResolvePhase::Touch(id), name, touch1) == ResolveMove::Found(id)
            }
            &&& agent_named(table, name) is None ==> {
                &&& resolve_move(ResolvePhase::Lookup, name, Ok(lookup1)) == ResolveMove::Ask(
                    SQL_REGISTER_NAME@,
                    seq![JsonView::Str(name)],
                )
                &&& resolve_next(ResolvePhase::Lookup, Ok(lookup1)) == ResolvePhase::Register
                &&& resolve_move(ResolvePhase::Register, name, Ok(reg)) == ResolveMove::Found(id)
            }
            &&& agent_named(table_after_resolve(table, name, reg), name) == Some(id)
            &&& resolve_move(ResolvePhase::Lookup, name, Ok(lookup2)) == ResolveMove::Ask(
                SQL_TOUCH_AGENT@,
                seq![JsonView::Int(id)],
            )
            &&& resolve_next(ResolvePhase::Lookup, Ok(lookup2)) == ResolvePhase::Touch(id)
            &&& resolve_move(ResolvePhase::Touch(id), name, touch2) == ResolveMove::Found(id)
        }),
{
    if agent_named(table, name) is None {
        let t2 = table.push((first_id(reg)->0, name));
        let last = table.len() as int;
        assert(t2[last].1 == name);
        let k = choose|i: int| 0 <= i < t2.len() && t2[i].1 == name;
        if k != last {
            assert(table[k].1 == name);
        }
    }
}

// ---------------------------------------------------------------------------
// Listing and registering
// ---------------------------------------------------------------------------

/// The query listing all agents by name.
pub fn list_agents_query() -> (q: SqlQuery)
    ensures
        query_is(q, SQL_LIST_AGENTS@, Seq::<JsonView>::empty()),
{
    let q = SqlQuery { sql: to_owned(SQL_LIST_AGENTS), params: Vec::new() };
    assert(crate::db::params_view(q.params@) =~= Seq::<JsonView>::empty());
    q
}

/// The agents a listing returned, in row order.
pub fn list_agents(result: &QueryResponse) -> (r: Vec<Agent>)
    ensures
        r@.len() == rows_view(result.rows).len(),
        forall|i: int|
            0 <= i < r@.len() ==> agent_from_row(#[trigger] r@[i], rows_view(result.rows)[i]),
{
    parse_agents(&result.rows)
}

/// The characters an agent name may hold.
pub open spec fn is_name_char(c: char) -> bool {
    is_alphanumeric_spec(c) || c == '-' || c == '_'
}

/// Why a registration name is refused, if it is: after trimming it must be
/// 1 to 64 characters long and hold only alphanumerics, hyphens and underscores.
pub open spec fn name_error(name: Seq<char>) -> Option<Seq<char>> {
    let t = trim_spec(name);
    if t.len() == 0 || t.len() > 64 {
        Some("Agent name must be 1-64 characters"@)
    } else if !(forall|i: int| 0 <= i < t.len() ==> is_name_char(#[trigger] t[i])) {
        Some("Agent name must be alphanumeric, hyphens, or underscores"@)
    } else {
        None
    }
}

/// The name to register: `name` trimmed, if it is acceptable.
pub fn validate_agent_name(name: &str) -> (r: Result<String, ApiError>)
    ensures
        match name_error(name@) {
            Some(m) => r matches Err(e) && e@ == ApiErrorView::BadRequest(m),
            None => r matches Ok(t) && t@ == trim_spec(name@),
        },
{
    let t = trim(name);
    let v = chars_of(t.as_str());
    if v.len() == 0 || v.len() > 64 {
        return Err(ApiError::BadRequest(to_owned("Agent name must be 1-64 characters")));
    }
    let mut i: usize = 0;
    while i < v.len()
        invariant
            i <= v@.len(),
            v@ == t@,
            t@ == trim_spec(name@),
            !(t@.len() == 0 || t@.len() > 64),
            forall|k: int| 0 <= k < i ==> is_name_char(#[trigger] v@[k]),
        decreases v.len() - i,
    {
        let c = v[i];
        if !(c.is_alphanumeric() || c == '-' || c == '_') {
            assert(!is_name_char(v@[i as int]));
            return Err(
                ApiError::BadRequest(
                    to_owned("Agent name must be alphanumeric, hyphens, or underscores"),
                ),
            );
        }
        i = i + 1;
    }
    Ok(t)
}

/// The refusal of the first name in `names` that could not be registered,
/// checked in order; none when every name is acceptable.
pub open spec fn first_name_error(names: Seq<Seq<char>>) -> Option<Seq<char>>
    decreases names.len(),
{
    if names.len() == 0 {
        None
    } else {
        match name_error(names[0]) {
            Some(m) => Some(m),
            None => first_name_error(names.drop_first()),
        }
    }
}

/// When no name is refused, every name is acceptable.
pub proof fn lemma_first_name_error_none(names: Seq<Seq<char>>)
    requires
        first_name_error(names) is None,
    ensures
        forall|i: int| 0 <= i < names.len() ==> name_error(#[trigger] names[i]) is None,
    decreases names.len(),
{
    if names.len() > 0 {
        lemma_first_name_error_none(names.drop_first());
        assert forall|i: int| 0 <= i < names.len() implies name_error(#[trigger] names[i]) is None by {
            if i > 0 {
                assert(names[i] == names.drop_first()[i - 1]);
            }
        }
    }
}

/// Checks every name of `names`, in order, as a registration name.
pub fn first_invalid_name(names: &Vec<String>) -> (r: Option<String>)
    ensures
        opt_str_view(r) == first_name_error(views(names@)),
{
    let mut i: usize = 0;
    assert(views(names@).skip(0) =~= views(names@));
    while i < names.len()
        invariant
            i <= names@.len(),
            first_name_error(views(names@)) == first_name_error(views(names@).skip(i as int)),
        decreases names.len() - i,
    {
        let ghost rest = views(names@).skip(i as int);
        assert(rest[0] == names@[i as int]@);
        assert(rest.drop_first() =~= views(names@).skip(i + 1));
        match validate_agent_name(names[i].as_str()) {
            Err(e) => {
                return Some(e.message().clone());
            },
            Ok(_) => {},
        }
        i = i + 1;
    }
    assert(views(names@).skip(i as int) =~= Seq::<Seq<char>>::empty());
    None
}

/// The upsert that registers (or refreshes) an agent.
pub fn register_query(name: &str, req: &RegisterAgentRequest) -> (q: SqlQuery)
    ensures
        query_is(
            q,
            SQL_REGISTER_AGENT@,
            seq![
                JsonView::Str(name@),
                opt_json(req.display_name),
                opt_json(req.role),
                opt_json(req.program),
                opt_json(req.model),
            ],
        ),
{
    let mut params = Vec::new();
    params.push(str_param(name));
    params.push(crate::db::opt_str(opt_as_str(&req.display_name)));
    params.push(crate::db::opt_str(opt_as_str(&req.role)));
    params.push(crate::db::opt_str(opt_as_str(&req.program)));
    params.push(crate::db::opt_str(opt_as_str(&req.model)));
    let q = SqlQuery { sql: to_owned(SQL_REGISTER_AGENT), params };
    assert(crate::db::params_view(q.params@) =~= seq![
        JsonView::Str(name@),
        opt_json(req.display_name),
        opt_json(req.role),
        opt_json(req.program),
        opt_json(req.model),
    ]);
    q
}

/// The parameter for an optional text: the text, or null.
pub open spec fn opt_json(o: Option<String>) -> JsonView {
    match o {
        Some(s) => JsonView::Str(s@),
        None => JsonView::Null,
    }
}

/// `Option::as_deref`.
pub fn opt_as_str(o: &Option<String>) -> (r: Option<&str>)
    ensures
        match o {
            Some(s) => r matches Some(t) && t@ == s@,
            None => r is None,
        },
{
    match o {
        Some(s) => Some(s.as_str()),
        None => None,
    }
}

/// The agent that a registration returned: its first row.
pub fn registered_agent(result: &QueryResponse) -> (r: Result<Agent, ApiError>)
    ensures
        match r {
            Ok(a) => rows_view(result.rows).len() > 0 && agent_from_row(a, rows_view(result.rows)[0]),
            Err(e) => rows_view(result.rows).len() == 0 && e@ == ApiErrorView::Internal(
                "Failed to create agent"@,
            ),
        },
{
    let mut agents = parse_agents(&result.rows);
    if agents.len() == 0 {
        return Err(ApiError::Internal(to_owned("Failed to create agent")));
    }
    let a = agents.swap_remove(0);
    Ok(a)
}

} // verus!
