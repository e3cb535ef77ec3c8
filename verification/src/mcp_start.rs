//! The lazy start-up of an MCP session: on first use the schema is applied,
//! statement by statement, and then the session's agent is resolved to its
//! id (registered when unknown).

use vstd::prelude::*;
use crate::db::{ignorable_error, migration_statements_spec, MigrationRun, MigrationStep, SqlQuery};
use crate::error::{query_is, DbOutcome};
use crate::json::JsonView;
use crate::mcp::{migration_failure_spec, resolve_failure_spec, McpSession};
use crate::mcp_send::resolve_error_text;
use crate::routes::agents::{
    resolve_move, resolve_next, AgentResolver, ResolveMove, ResolvePhase, ResolveStep,
    SQL_AGENT_ID_BY_NAME,
};
use crate::schema::MIGRATION_SQL;
use crate::text::views;

verus! {

/// Where a start-up stands.
pub enum StartupPhase {
    /// Applying the schema.
    Migrate(MigrationRun),
    /// Resolving the session's agent.
    Resolve(AgentResolver),
}

/// A start-up in progress.
pub struct StartupFlow {
    pub phase: StartupPhase,
}

/// The next move of a start-up.
pub enum StartupStep {
    Query(StartupFlow, SqlQuery),
    /// The session's agent has this id.
    Ready(i64),
    /// Why start-up failed.
    Failed(String),
}

impl StartupFlow {
    /// A statement of the schema is awaited, or the resolution in progress
    /// is of the agent `name`.
    pub open spec fn wf(&self, name: Seq<char>) -> bool {
        match self.phase {
            StartupPhase::Migrate(run) => 1 <= run.issued <= run.statements@.len(),
            StartupPhase::Resolve(res) => res.phase != ResolvePhase::Finished && res.name@ == name,
        }
    }

    /// The lookup of the session's agent.
    fn resolve(session: &McpSession) -> (r: StartupStep)
        ensures
            r matches StartupStep::Query(f, q) && f.wf(session.agent_name@) && (f.phase matches StartupPhase::Resolve(
                res,
            ) && res.phase == ResolvePhase::Lookup) && query_is(
                q,
                SQL_AGENT_ID_BY_NAME@,
                seq![JsonView::Str(session.agent_name@)],
            ),
    {
        let (res, q) = AgentResolver::start(session.agent_name.as_str());
        StartupStep::Query(StartupFlow { phase: StartupPhase::Resolve(res) }, q)
    }

    /// Starts the session's start-up: the schema's first statement.
    pub fn start(session: &McpSession) -> (r: StartupStep)
        ensures
            r matches StartupStep::Query(f, q) && f.wf(session.agent_name@) && if migration_statements_spec(
                MIGRATION_SQL@,
            ).len() == 0 {
                f.phase matches StartupPhase::Resolve(res) && res.phase == ResolvePhase::Lookup && query_is(
                    q,
                    SQL_AGENT_ID_BY_NAME@,
                    seq![JsonView::Str(session.agent_name@)],
                )
            } else {
                f.phase matches StartupPhase::Migrate(run) && run.issued == 1 && views(run.statements@)
                    == migration_statements_spec(MIGRATION_SQL@) && q.sql@ == run.statements@[0]@
                    && q.params@.len() == 0
            },
    {
        let (run, step) = MigrationRun::start(MIGRATION_SQL);
        match step {
            MigrationStep::Execute(q) => StartupStep::Query(StartupFlow { phase: StartupPhase::Migrate(run) }, q),
            _ => Self::resolve(session),
        }
    }

    /// Takes the outcome of the last query and gives the next move. A failed
    /// statement stops start-up unless its object already existed; once the
    /// schema is applied the agent is resolved, and start-up ends with its id.
    pub fn resume(self, session: &McpSession, outcome: DbOutcome) -> (r: StartupStep)
        requires
            self.wf(session.agent_name@),
        ensures
            match self.phase {
                StartupPhase::Migrate(run) => match outcome {
                    Err(e) if !ignorable_error(e@) => r matches StartupStep::Failed(m) && m@
                        == migration_failure_spec(session.micro_url@, e@),
                    _ => if run.issued < run.statements@.len() {
                        r matches StartupStep::Query(f, q) && f.wf(session.agent_name@) && (
                        f.phase matches StartupPhase::Migrate(run2) && run2.statements == run.statements
                            && run2.issued == run.issued + 1) && q.sql@ == run.statements@[run.issued as int]@
                            && q.params@.len() == 0
                    } else {
                        r matches StartupStep::Query(f, q) && f.wf(session.agent_name@) && (
                        f.phase matches StartupPhase::Resolve(res) && res.phase == ResolvePhase::Lookup)
                            && query_is(q, SQL_AGENT_ID_BY_NAME@, seq![JsonView::Str(session.agent_name@)])
                    },
                },
                StartupPhase::Resolve(res) => match resolve_move(res.phase, res.name@, outcome) {
                    ResolveMove::Ask(sql, params) => r matches StartupStep::Query(f, q) && f.wf(
                        session.agent_name@,
                    ) && (f.phase matches StartupPhase::Resolve(res2) && res2.phase == resolve_next(
                        res.phase,
                        outcome,
                    )) && query_is(q, sql, params),
                    ResolveMove::Found(id) => r matches StartupStep::Ready(got) && got == id,
                    ResolveMove::Fail(e) => r matches StartupStep::Failed(m) && m@ == resolve_failure_spec(
                        session.agent_name@,
                        resolve_error_text(e),
                    ),
                },
            },
    {
        match self.phase {
            StartupPhase::Migrate(mut run) => {
                let result = match outcome {
                    Ok(_) => Ok(()),
                    Err(e) => Err(e),
                };
                match run.resume(result) {
                    MigrationStep::Execute(q) => StartupStep::Query(StartupFlow { phase: StartupPhase::Migrate(run) }, q),
                    MigrationStep::Finished => Self::resolve(session),
                    MigrationStep::Failed(e) => StartupStep::Failed(session.migration_failure(e.as_str())),
                }
            },
            StartupPhase::Resolve(mut res) => match res.resume(outcome) {
                ResolveStep::Query(q) => StartupStep::Query(StartupFlow { phase: StartupPhase::Resolve(res) }, q),
                ResolveStep::Resolved(id) => StartupStep::Ready(id),
                ResolveStep::Failed(e) => {
                    let text = e.text();
                    StartupStep::Failed(session.resolve_failure(text.as_str()))
                },
            },
        }
    }
}

} // verus!
