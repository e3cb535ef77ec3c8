//! Delivering a stored message: each recipient in turn is resolved to its
//! agent id (registered when unknown) and given an inbox entry. The first
//! failure stops the delivery.

use vstd::prelude::*;
use crate::db::SqlQuery;
use crate::error::{query_is, DbOutcome};
use crate::json::JsonView;
use crate::routes::agents::{
    resolve_move, resolve_next, AgentResolver, ResolveError, ResolveErrorView, ResolveMove,
    ResolvePhase, ResolveStep, SQL_AGENT_ID_BY_NAME,
};
use crate::routes::messages::{inbox_insert_query, SQL_INBOX_CC, SQL_INBOX_TO};

verus! {

/// The statement of an inbox entry: a carbon copy or a direct recipient.
pub open spec fn inbox_sql(cc: bool) -> Seq<char> {
    if cc {
        SQL_INBOX_CC@
    } else {
        SQL_INBOX_TO@
    }
}

/// Where a delivery stands with its current recipient.
pub enum DeliveryPhase {
    /// Resolving the recipient's name.
    Resolving(AgentResolver),
    /// Waiting for the recipient's inbox entry to be written.
    Inserting,
    Finished,
}

/// The delivery of message `message_id` to `targets` (each a name and
/// whether it is a carbon copy), in order; `next` is the current target.
pub struct DeliveryRun {
    pub message_id: i64,
    pub targets: Vec<(String, bool)>,
    pub next: usize,
    pub phase: DeliveryPhase,
}

/// The next move of a delivery.
pub enum DeliveryStep {
    Query(SqlQuery),
    Delivered,
    Failed(ResolveError),
}

/// One step of a delivery: from `old`, with the outcome of the last query,
/// to `new`, making the move `r`.
pub open spec fn delivery_transition(old: DeliveryRun, outcome: DbOutcome, new: DeliveryRun, r: DeliveryStep) -> bool {
    &&& new.wf()
    &&& new.message_id == old.message_id
    &&& new.targets@ == old.targets@
    &&& match old.phase {
        DeliveryPhase::Resolving(res) => match resolve_move(res.phase, res.name@, outcome) {
            ResolveMove::Ask(sql, params) => {
                &&& new.next == old.next
                &&& new.phase matches DeliveryPhase::Resolving(res2)
                    && res2.phase == resolve_next(res.phase, outcome)
                &&& r matches DeliveryStep::Query(q) && query_is(q, sql, params)
            },
            ResolveMove::Found(id) => {
                &&& new.next == old.next
                &&& new.phase is Inserting
                &&& r matches DeliveryStep::Query(q) && query_is(
                    q,
                    inbox_sql(old.targets@[old.next as int].1),
                    seq![JsonView::Int(old.message_id), JsonView::Int(id)],
                )
            },
            ResolveMove::Fail(e) => {
                &&& new.phase is Finished
                &&& r matches DeliveryStep::Failed(err) && err@ == e
            },
        },
        DeliveryPhase::Inserting => match outcome {
            Err(e) => {
                &&& new.phase is Finished
                &&& r matches DeliveryStep::Failed(err) && err@ == ResolveErrorView::Db(e@)
            },
            Ok(_) => if old.next + 1 < old.targets@.len() {
                &&& new.next == old.next + 1
                &&& new.phase is Resolving
                &&& r matches DeliveryStep::Query(q) && query_is(
                    q,
                    SQL_AGENT_ID_BY_NAME@,
                    seq![JsonView::Str(old.targets@[old.next + 1].0@)],
                )
            } else {
                &&& new.phase is Finished
                &&& r is Delivered
            },
        },
        DeliveryPhase::Finished => false,
    }
}

impl DeliveryRun {
    /// A delivery in progress works on an existing target, and a resolution in
    /// progress is that target's.
    pub open spec fn wf(&self) -> bool {
        match self.phase {
            DeliveryPhase::Resolving(r) => {
                &&& self.next < self.targets@.len()
                &&& r.phase != ResolvePhase::Finished
                &&& r.name@ == self.targets@[self.next as int].0@
            },
            DeliveryPhase::Inserting => self.next < self.targets@.len(),
            DeliveryPhase::Finished => true,
        }
    }

    /// Starts delivering message `message_id`: the lookup of the first
    /// target, or the end when there is none.
    pub fn start(message_id: i64, targets: Vec<(String, bool)>) -> (r: (DeliveryRun, DeliveryStep))
        ensures
            r.0.wf(),
            r.0.message_id == message_id,
            r.0.targets@ == targets@,
            r.0.next == 0,
            targets@.len() == 0 ==> r.0.phase is Finished && r.1 is Delivered,
            targets@.len() > 0 ==> r.0.phase is Resolving && (r.1 matches DeliveryStep::Query(q)
                && query_is(q, SQL_AGENT_ID_BY_NAME@, seq![JsonView::Str(targets@[0].0@)])),
    {
        if targets.len() == 0 {
            (DeliveryRun { message_id, targets, next: 0, phase: DeliveryPhase::Finished }, DeliveryStep::Delivered)
        } else {
            let (res, q) = AgentResolver::start(targets[0].0.as_str());
            (
                DeliveryRun { message_id, targets, next: 0, phase: DeliveryPhase::Resolving(res) },
                DeliveryStep::Query(q),
            )
        }
    }

    /// Takes the outcome of the last query and gives the next move: the
    /// resolution of the current target goes on until it yields an id, which
    /// gets the target's inbox entry; once that is written the next target is
    /// looked up, or the delivery is complete.
    pub fn resume(&mut self, outcome: DbOutcome) -> (r: DeliveryStep)
        requires
            old(self).wf(),
            !(old(self).phase is Finished),
        ensures
            delivery_transition(*old(self), outcome, *final(self), r),
    {
        let ghost start = *old(self);
        let mut phase = DeliveryPhase::Finished;
        std::mem::swap(&mut phase, &mut self.phase);
        assert(phase == start.phase);
        assert(start.wf());
        match phase {
            DeliveryPhase::Resolving(mut res) => {
                let ghost before = res;
                match res.resume(outcome) {
                    ResolveStep::Query(q) => {
                        self.phase = DeliveryPhase::Resolving(res);
                        proof {
                            assert(resolve_next(before.phase, outcome) != ResolvePhase::Finished);
                        }
                        DeliveryStep::Query(q)
                    },
                    ResolveStep::Resolved(id) => {
                        self.phase = DeliveryPhase::Inserting;
                        let cc = self.targets[self.next].1;
                        DeliveryStep::Query(inbox_insert_query(self.message_id, id, cc))
                    },
                    ResolveStep::Failed(e) => DeliveryStep::Failed(e),
                }
            },
            DeliveryPhase::Inserting => match outcome {
                Err(e) => DeliveryStep::Failed(ResolveError::Db(e)),
                Ok(_) => {
                    let count = self.targets.len();
                    assert(start.wf());
                    if self.next + 1 < count {
                        self.next = self.next + 1;
                        let (res, q) = AgentResolver::start(self.targets[self.next].0.as_str());
                        self.phase = DeliveryPhase::Resolving(res);
                        DeliveryStep::Query(q)
                    } else {
                        DeliveryStep::Delivered
                    }
                },
            },
            DeliveryPhase::Finished => DeliveryStep::Delivered,
        }
    }
}

// ---------------------------------------------------------------------------
// Laws
// ---------------------------------------------------------------------------

/// Step `i` of a trace moves the delivery from `runs[i]` to `runs[i + 1]`
/// with the outcome `outcomes[i]`, making the move `steps[i]`.
pub open spec fn step_taken(runs: Seq<DeliveryRun>, outcomes: Seq<DbOutcome>, steps: Seq<DeliveryStep>, i: int) -> bool {
    delivery_transition(runs[i], outcomes[i], runs[i + 1], steps[i])
}

/// `runs`, `outcomes` and `steps` trace a delivery from its first lookup:
/// each step is a transition of the delivery.
pub open spec fn is_trace(runs: Seq<DeliveryRun>, outcomes: Seq<DbOutcome>, steps: Seq<DeliveryStep>) -> bool {
    &&& runs.len() == outcomes.len() + 1
    &&& steps.len() == outcomes.len()
    &&& runs[0].wf()
    &&& runs[0].next == 0
    &&& runs[0].phase is Resolving
    &&& forall|i: int| 0 <= i < outcomes.len() ==> #[trigger] step_taken(runs, outcomes, steps, i)
}

/// Step `i` of a trace writes the inbox entry of target `k`: the target's
/// name was resolved, and its entry is the query of that step.
pub open spec fn writes_entry(runs: Seq<DeliveryRun>, i: int, k: int) -> bool {
    &&& runs[i].phase is Resolving
    &&& runs[i + 1].phase is Inserting
    &&& runs[i].next == k
}

/// The entry of target `k` was written in one of the first `j` steps.
pub open spec fn written_before(runs: Seq<DeliveryRun>, j: int, k: int) -> bool {
    exists|i: int| 0 <= i < j && #[trigger] writes_entry(runs, i, k)
}

/// Some step of the trace resolved target `k` and sent its inbox entry: of
/// the target's kind, for the delivered message.
pub open spec fn entry_sent(runs: Seq<DeliveryRun>, steps: Seq<DeliveryStep>, k: int) -> bool {
    exists|i: int|
        0 <= i < steps.len() && #[trigger] writes_entry(runs, i, k) && (steps[i] matches DeliveryStep::Query(q)
            && exists|id: i64|
            query_is(
                q,
                inbox_sql(runs[0].targets@[k].1),
                seq![JsonView::Int(runs[0].message_id), JsonView::Int(id)],
            ))
}

/// What holds after the first `j` steps of a trace: the message and the
/// targets are unchanged; every target before the current one had its entry
/// written, and the current one too while its entry is being written; no
/// entry was written for a target after the current one.
proof fn lemma_trace_prefix(runs: Seq<DeliveryRun>, outcomes: Seq<DbOutcome>, steps: Seq<DeliveryStep>, j: int)
    requires
        is_trace(runs, outcomes, steps),
        0 <= j <= outcomes.len(),
    ensures
        runs[j].targets@ == runs[0].targets@,
        runs[j].message_id == runs[0].message_id,
        runs[j].wf(),
        !(runs[j].phase is Finished) ==> {
            &&& forall|k: int| 0 <= k < runs[j].next ==> #[trigger] written_before(runs, j, k)
            &&& runs[j].phase is Inserting ==> written_before(runs, j, runs[j].next as int)
            &&& forall|i: int, k: int|
                0 <= i < j && #[trigger] writes_entry(runs, i, k) ==> (k < runs[j].next || (k == runs[j].next
                    && runs[j].phase is Inserting))
        },
    decreases j,
{
    if j > 0 {
        lemma_trace_prefix(runs, outcomes, steps, j - 1);
        assert(step_taken(runs, outcomes, steps, j - 1));
        let prev = runs[j - 1];
        let cur = runs[j];
        if !(cur.phase is Finished) {
            assert(!(prev.phase is Finished));
            assert forall|k: int| 0 <= k < cur.next implies #[trigger] written_before(runs, j, k) by {
                if k < prev.next {
                    assert(written_before(runs, j - 1, k));
                    let i = choose|i: int| 0 <= i < j - 1 && #[trigger] writes_entry(runs, i, k);
                    assert(writes_entry(runs, i, k));
                } else {
                    assert(prev.phase is Inserting);
                    let i = choose|i: int| 0 <= i < j - 1 && #[trigger] writes_entry(runs, i, prev.next as int);
                    assert(writes_entry(runs, i, k));
                }
            }
            if cur.phase is Inserting {
                if prev.phase is Inserting {
                    assert(false);
                } else {
                    assert(writes_entry(runs, j - 1, cur.next as int));
                }
            }
            assert forall|i: int, k: int| 0 <= i < j && #[trigger] writes_entry(runs, i, k) implies (k < cur.next || (k
                == cur.next && cur.phase is Inserting)) by {
                if i < j - 1 {
                    assert(k < prev.next || (k == prev.next && prev.phase is Inserting));
                }
            }
        }
    }
}

/// A delivery that completes writes the inbox entry of every target: for
/// each target some step resolved it and sent its entry, of the target's
/// kind (direct recipient or carbon copy) and for the delivered message.
pub proof fn law_delivery_reaches_every_target(
    runs: Seq<DeliveryRun>,
    outcomes: Seq<DbOutcome>,
    steps: Seq<DeliveryStep>,
)
    requires
        is_trace(runs, outcomes, steps),
        outcomes.len() > 0,
        steps.last() is Delivered,
    ensures
        forall|k: int| 0 <= k < runs[0].targets@.len() ==> #[trigger] entry_sent(runs, steps, k),
{
    let n = outcomes.len() - 1;
    lemma_trace_prefix(runs, outcomes, steps, n);
    assert(step_taken(runs, outcomes, steps, n));
    let last = runs[n];
    assert(last.phase is Inserting);
    assert forall|k: int| 0 <= k < runs[0].targets@.len() implies #[trigger] entry_sent(runs, steps, k) by {
        let i = if k < last.next {
            assert(written_before(runs, n, k));
            choose|i: int| 0 <= i < n && #[trigger] writes_entry(runs, i, k)
        } else {
            assert(written_before(runs, n, last.next as int));
            choose|i: int| 0 <= i < n && #[trigger] writes_entry(runs, i, last.next as int)
        };
        assert(writes_entry(runs, i, k));
        lemma_trace_prefix(runs, outcomes, steps, i);
        assert(step_taken(runs, outcomes, steps, i));
        let res = runs[i].phase->Resolving_0;
        let id = resolve_move(res.phase, res.name@, outcomes[i])->Found_0;
        assert(steps[i] matches DeliveryStep::Query(q) && query_is(
            q,
            inbox_sql(runs[0].targets@[k].1),
            seq![JsonView::Int(runs[0].message_id), JsonView::Int(id)],
        ));
    }
}

/// No target gets two inbox entries: along a delivery, the entry of a
/// target is written at most once.
pub proof fn law_delivery_writes_each_entry_once(
    runs: Seq<DeliveryRun>,
    outcomes: Seq<DbOutcome>,
    steps: Seq<DeliveryStep>,
    i1: int,
    i2: int,
    k: int,
)
    requires
        is_trace(runs, outcomes, steps),
        0 <= i1 < outcomes.len(),
        0 <= i2 < outcomes.len(),
        writes_entry(runs, i1, k),
        writes_entry(runs, i2, k),
    ensures
        i1 == i2,
{
    if i1 < i2 {
        lemma_trace_prefix(runs, outcomes, steps, i2);
        assert(writes_entry(runs, i1, k));
    } else if i2 < i1 {
        lemma_trace_prefix(runs, outcomes, steps, i1);
        assert(writes_entry(runs, i2, k));
    }
}

} // verus!
