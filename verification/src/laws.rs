//! The guarantees the listener gives over whole runs of its accept loop:
//! what a stretch of accept outcomes does to the dispatch history, in what
//! order tasks go out, that failures never kill the loop, and that the
//! shared context reaches every task unchanged.

use vstd::prelude::*;

use crate::context::{ConnectionTask, SharedContext, SocketAddress, task_for};
use crate::listener::{
    accepted, accept_step, dispatches_for, failed_run, run_trace, tasks_of, AcceptOutcome,
    ListenerModel, Phase,
};

verus! {

/// Running the accept loop never changes the listener's address, context,
/// or phase — in particular a listener that enters the loop running stays
/// running: no outcome terminates it — and, while running, appends to the
/// dispatch history exactly the tasks for the outcomes seen, in order.
pub proof fn lemma_run_trace(m: ListenerModel, outcomes: Seq<AcceptOutcome>)
    ensures
        run_trace(m, outcomes).address == m.address,
        run_trace(m, outcomes).context == m.context,
        run_trace(m, outcomes).phase == m.phase,
        m.phase == Phase::Running
            ==> run_trace(m, outcomes).dispatched
                == m.dispatched + dispatches_for(m.context, outcomes),
        m.phase != Phase::Running ==> run_trace(m, outcomes) == m,
    decreases outcomes.len(),
{
    if outcomes.len() == 0 {
        assert(m.dispatched + dispatches_for(m.context, outcomes) =~= m.dispatched);
    } else {
        let m1 = accept_step(m, outcomes[0]);
        let rest = outcomes.drop_first();
        lemma_run_trace(m1, rest);
        if m.phase == Phase::Running {
            match outcomes[0] {
                AcceptOutcome::Connection { conn_id, peer } => {
                    let task = task_for(m.context, conn_id, peer);
                    assert(m1.dispatched =~= m.dispatched + seq![task]);
                    assert((m.dispatched + seq![task]) + dispatches_for(m.context, rest)
                        =~= m.dispatched + (seq![task] + dispatches_for(m.context, rest)));
                }
                AcceptOutcome::Failed => {}
            }
        }
    }
}

/// The fatal-bind guarantee, seen from the loop's side: a listener that is
/// not running — freshly constructed, or aborted because its socket could
/// not be bound — has no accept loop, so no stretch of outcomes changes it
/// and nothing is ever dispatched.
pub proof fn lemma_inert_outside_running(m: ListenerModel, outcomes: Seq<AcceptOutcome>)
    requires
        m.phase != Phase::Running,
    ensures
        run_trace(m, outcomes) == m,
{
    lemma_run_trace(m, outcomes);
}

/// Connections are dispatched in the order the transport reports them: the
/// tasks sent out for a stretch of outcomes are exactly the tasks for its
/// accepted connections, in arrival order. Failed accepts are invisible in
/// the dispatch stream — they neither drop, delay, nor reorder anything.
pub proof fn lemma_dispatch_order(context: SharedContext, outcomes: Seq<AcceptOutcome>)
    ensures
        dispatches_for(context, outcomes) == tasks_of(context, accepted(outcomes)),
    decreases outcomes.len(),
{
    if outcomes.len() == 0 {
    } else {
        let rest = outcomes.drop_first();
        lemma_dispatch_order(context, rest);
        if outcomes[0] is Connection {
            lemma_tasks_of_cons(context, outcomes[0], accepted(rest));
        }
    }
}

/// Prepending one connection to a sequence of accepted connections prepends
/// exactly its task.
proof fn lemma_tasks_of_cons(context: SharedContext, conn: AcceptOutcome, rest: Seq<AcceptOutcome>)
    requires
        conn is Connection,
    ensures
        tasks_of(context, seq![conn] + rest)
            == seq![task_for(context, conn->conn_id, conn->peer)] + tasks_of(context, rest),
{
    assert((seq![conn] + rest)[0] == conn);
    assert((seq![conn] + rest).drop_first() =~= rest);
}

/// The task for each accepted connection, pointwise: one task per
/// connection, the i-th task built from the i-th connection and the shared
/// context.
pub proof fn lemma_tasks_of_index(context: SharedContext, conns: Seq<AcceptOutcome>)
    ensures
        tasks_of(context, conns).len() == conns.len(),
        forall|i: int| 0 <= i < conns.len()
            ==> #[trigger] tasks_of(context, conns)[i]
                == task_for(context, conns[i]->conn_id, conns[i]->peer),
    decreases conns.len(),
{
    if conns.len() == 0 {
    } else {
        let rest = conns.drop_first();
        lemma_tasks_of_index(context, rest);
        assert forall|i: int| 0 <= i < conns.len()
            implies #[trigger] tasks_of(context, conns)[i]
                == task_for(context, conns[i]->conn_id, conns[i]->peer) by {
            if i > 0 {
                assert(tasks_of(context, conns)[i] == tasks_of(context, rest)[i - 1]);
                assert(rest[i - 1] == conns[i]);
            }
        }
    }
}

/// Shared-state immutability: the accept loop never replaces the shared
/// context, and every task it dispatches holds a context equal to the
/// listener's own. A connection task only reads or copies handles out of
/// its context, so no task can change what later tasks are given.
pub proof fn lemma_shared_context_immutable(m: ListenerModel, outcomes: Seq<AcceptOutcome>)
    ensures
        run_trace(m, outcomes).context == m.context,
        forall|i: int| 0 <= i < dispatches_for(m.context, outcomes).len()
            ==> (#[trigger] dispatches_for(m.context, outcomes)[i]).context == m.context,
{
    lemma_run_trace(m, outcomes);
    lemma_dispatch_order(m.context, outcomes);
    lemma_tasks_of_index(m.context, accepted(outcomes));
}

/// Isolation: the i-th dispatched task is a function of the shared context
/// and the i-th accepted connection alone. No earlier connection's task —
/// however its protocol fared, which the listener never observes — and no
/// interleaved accept failure has any effect on it, and the loop is alive
/// afterwards.
pub proof fn lemma_isolation(m: ListenerModel, outcomes: Seq<AcceptOutcome>, i: int)
    requires
        m.phase == Phase::Running,
        0 <= i < accepted(outcomes).len(),
    ensures
        run_trace(m, outcomes).phase == Phase::Running,
        run_trace(m, outcomes).dispatched.len() == m.dispatched.len() + accepted(outcomes).len(),
        run_trace(m, outcomes).dispatched[m.dispatched.len() + i]
            == task_for(m.context, accepted(outcomes)[i]->conn_id, accepted(outcomes)[i]->peer),
{
    lemma_run_trace(m, outcomes);
    lemma_dispatch_order(m.context, outcomes);
    lemma_tasks_of_index(m.context, accepted(outcomes));
}

/// Accept failures are never fatal: any number of consecutive failed
/// accepts followed by one accepted connection dispatches exactly one task
/// — the one for that connection — and leaves the loop alive.
pub proof fn lemma_failures_then_connection(
    m: ListenerModel,
    k: nat,
    conn_id: u64,
    peer: SocketAddress,
)
    requires
        m.phase == Phase::Running,
    ensures
        ({
            let outcomes = failed_run(k).push(AcceptOutcome::Connection { conn_id, peer });
            &&& run_trace(m, outcomes).phase == Phase::Running
            &&& run_trace(m, outcomes).dispatched
                == m.dispatched.push(task_for(m.context, conn_id, peer))
        }),
{
    let conn = AcceptOutcome::Connection { conn_id, peer };
    let outcomes = failed_run(k).push(conn);
    lemma_run_trace(m, outcomes);
    lemma_dispatches_failed_run(m.context, k, conn_id, peer);
    assert(m.dispatched + seq![task_for(m.context, conn_id, peer)]
        =~= m.dispatched.push(task_for(m.context, conn_id, peer)));
}

/// A run of failed accepts followed by one connection dispatches that
/// connection's task and nothing else.
proof fn lemma_dispatches_failed_run(
    context: SharedContext,
    k: nat,
    conn_id: u64,
    peer: SocketAddress,
)
    ensures
        dispatches_for(context, failed_run(k).push(AcceptOutcome::Connection { conn_id, peer }))
            == seq![task_for(context, conn_id, peer)],
    decreases k,
{
    let conn = AcceptOutcome::Connection { conn_id, peer };
    let outcomes = failed_run(k).push(conn);
    if k == 0 {
        assert(outcomes[0] == conn);
        assert(outcomes.drop_first() =~= Seq::<AcceptOutcome>::empty());
        assert(dispatches_for(context, outcomes.drop_first()) =~= Seq::<ConnectionTask>::empty());
        assert(seq![task_for(context, conn_id, peer)] + Seq::<ConnectionTask>::empty()
            =~= seq![task_for(context, conn_id, peer)]);
    } else {
        assert(outcomes[0] == failed_run(k)[0]);
        assert(outcomes[0] is Failed);
        assert(outcomes.drop_first() =~= failed_run((k - 1) as nat).push(conn));
        lemma_dispatches_failed_run(context, (k - 1) as nat, conn_id, peer);
        assert(dispatches_for(context, outcomes)
            == dispatches_for(context, outcomes.drop_first()));
    }
}

} // verus!
