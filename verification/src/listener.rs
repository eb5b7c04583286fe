//! The listener: the component that owns the gateway's client-facing
//! listening socket and dispatches every accepted connection as an
//! independent connection task.
//!
//! The caller performs the I/O (bind, accept, task scheduling) and reports
//! each result here; the listener makes the decisions. Binding failure is
//! fatal: the listener aborts before ever entering the accept loop. A failed
//! accept is never fatal: the loop continues. A successful accept yields
//! exactly one connection task, built from that connection's transport and
//! copies of the shared context handles, dispatched fire-and-forget.

use vstd::prelude::*;

use crate::context::{ConnectionTask, SharedContext, SocketAddress, task_for};

verus! {

/// Lifecycle of the listener. A running listener has no terminal state: its
/// accept loop runs until the enclosing task is cancelled externally.
#[derive(Clone, Copy, PartialEq, Eq, Structural, Debug)]
pub enum Phase {
    /// Constructed; the listening socket is not bound yet.
    Created,
    /// The socket is bound and the accept loop may run.
    Running,
    /// Binding the socket failed. Fatal: the listener never serves.
    Aborted,
}

/// What one wait on the transport listener produced.
#[derive(Clone, Copy, PartialEq, Eq, Structural, Debug)]
pub enum AcceptOutcome {
    /// The transport accepted a connection: a fresh identifier for the
    /// accepted stream, and the remote peer's address.
    Connection { conn_id: u64, peer: SocketAddress },
    /// The accept call failed with a transient error.
    Failed,
}

/// What the caller must do right after construction, once the bind result
/// is known.
#[derive(Clone, Copy, PartialEq, Eq, Structural, Debug)]
pub enum StartupAction {
    /// The socket is bound: enter the accept loop.
    EnterAcceptLoop,
    /// The socket could not be bound: abort startup; the accept loop is
    /// never entered.
    AbortStartup,
}

/// What the caller must do with one accept outcome.
#[derive(Clone, Copy, PartialEq, Eq, Structural, Debug)]
pub enum DispatchAction {
    /// Spawn the contained work unit; the loop moves on at once.
    Dispatch(ConnectionTask),
    /// Log the transient accept error and keep the loop alive.
    ContinueLoop,
}

/// The listener's state as contracts see it: its configuration, its
/// lifecycle phase, and the tasks dispatched so far, in dispatch order.
/// The dispatch history is not stored by the running code — tasks are
/// fire-and-forget — so it exists in ghost code only.
#[verifier::ext_equal]
pub struct ListenerModel {
    pub address: SocketAddress,
    pub context: SharedContext,
    pub phase: Phase,
    pub dispatched: Seq<ConnectionTask>,
}

/// The model of a freshly constructed listener: configured, not yet bound,
/// nothing dispatched.
pub open spec fn init_model(address: SocketAddress, context: SharedContext) -> ListenerModel {
    ListenerModel { address, context, phase: Phase::Created, dispatched: Seq::empty() }
}

/// One turn of the accept loop: an accepted connection appends exactly its
/// own task, built from the shared context; a failed accept changes
/// nothing. Neither outcome touches the phase, the address, or the
/// context. A listener that is not running has no accept loop, so outside
/// the running phase nothing happens at all.
pub open spec fn accept_step(m: ListenerModel, outcome: AcceptOutcome) -> ListenerModel {
    if m.phase != Phase::Running {
        m
    } else {
        match outcome {
            AcceptOutcome::Connection { conn_id, peer } => (ListenerModel {
                dispatched: m.dispatched.push(task_for(m.context, conn_id, peer)),
                ..m
            }),
            AcceptOutcome::Failed => m,
        }
    }
}

/// The accept loop folded over a finite stretch of outcomes, oldest first.
pub open spec fn run_trace(m: ListenerModel, outcomes: Seq<AcceptOutcome>) -> ListenerModel
    decreases outcomes.len(),
{
    if outcomes.len() == 0 {
        m
    } else {
        run_trace(accept_step(m, outcomes[0]), outcomes.drop_first())
    }
}

/// The tasks a running listener sends out for a stretch of outcomes, in
/// dispatch order: one task per accepted connection, none for a failure.
pub open spec fn dispatches_for(context: SharedContext, outcomes: Seq<AcceptOutcome>) -> Seq<ConnectionTask>
    decreases outcomes.len(),
{
    if outcomes.len() == 0 {
        Seq::empty()
    } else {
        let rest = dispatches_for(context, outcomes.drop_first());
        match outcomes[0] {
            AcceptOutcome::Connection { conn_id, peer } => seq![task_for(context, conn_id, peer)] + rest,
            AcceptOutcome::Failed => rest,
        }
    }
}

/// The accepted connections within a stretch of outcomes, in the order the
/// transport reported them; failures are left out.
pub open spec fn accepted(outcomes: Seq<AcceptOutcome>) -> Seq<AcceptOutcome>
    decreases outcomes.len(),
{
    if outcomes.len() == 0 {
        Seq::empty()
    } else if outcomes[0] is Connection {
        seq![outcomes[0]] + accepted(outcomes.drop_first())
    } else {
        accepted(outcomes.drop_first())
    }
}

/// The task built for each of a sequence of accepted connections, in order.
pub open spec fn tasks_of(context: SharedContext, conns: Seq<AcceptOutcome>) -> Seq<ConnectionTask>
    decreases conns.len(),
{
    if conns.len() == 0 {
        Seq::empty()
    } else {
        seq![task_for(context, conns[0]->conn_id, conns[0]->peer)] + tasks_of(context, conns.drop_first())
    }
}

/// A stretch of consecutive failed accepts.
pub open spec fn failed_run(k: nat) -> Seq<AcceptOutcome> {
    Seq::new(k, |i: int| AcceptOutcome::Failed)
}

/// The listener: the bind address, the shared context whose handles every
/// dispatched task copies, the lifecycle phase, and (in ghost code) the
/// dispatch history.
pub struct Listener {
    address: SocketAddress,
    context: SharedContext,
    phase: Phase,
    dispatched: Ghost<Seq<ConnectionTask>>,
}

impl Listener {
    /// This listener's state, for contracts.
    pub closed spec fn model(self) -> ListenerModel {
        ListenerModel {
            address: self.address,
            context: self.context,
            phase: self.phase,
            dispatched: self.dispatched@,
        }
    }

    /// Constructs a listener for `address` over the given shared context.
    /// Pure data assignment: no socket is touched yet.
    pub fn new(address: SocketAddress, context: SharedContext) -> (listener: Listener)
        ensures
            listener.model() == init_model(address, context),
    {
        let listener = Listener {
            address,
            context,
            phase: Phase::Created,
            dispatched: Ghost(Seq::empty()),
        };
        proof {
            assert(listener.model() =~= init_model(address, context));
        }
        listener
    }

    /// The address the listener binds to.
    pub fn address(&self) -> (address: SocketAddress)
        ensures
            address == self.model().address,
    {
        self.address
    }

    /// The shared context; a copy of the handle bundle, not the resources.
    pub fn context(&self) -> (context: SharedContext)
        ensures
            context == self.model().context,
    {
        self.context
    }

    /// The listener's lifecycle phase.
    pub fn phase(&self) -> (phase: Phase)
        ensures
            phase == self.model().phase,
    {
        self.phase
    }

    /// Takes the result of binding the listening socket. Success makes the
    /// listener running, and the accept loop is entered. Failure is fatal:
    /// the listener aborts and never runs — there is no degraded mode for
    /// an ingress without its socket. Nothing else changes either way, and
    /// nothing has been dispatched yet.
    pub fn bind_result(&mut self, bound: bool) -> (action: StartupAction)
        requires
            old(self).model().phase == Phase::Created,
        ensures
            final(self).model().address == old(self).model().address,
            final(self).model().context == old(self).model().context,
            final(self).model().dispatched == old(self).model().dispatched,
            bound ==> final(self).model().phase == Phase::Running
                && action == StartupAction::EnterAcceptLoop,
            !bound ==> final(self).model().phase == Phase::Aborted
                && action == StartupAction::AbortStartup,
    {
        if bound {
            self.phase = Phase::Running;
            StartupAction::EnterAcceptLoop
        } else {
            self.phase = Phase::Aborted;
            StartupAction::AbortStartup
        }
    }

    /// Takes one accept outcome and decides the dispatch. An accepted
    /// connection yields exactly one task — that connection's transport
    /// plus copies of the shared handles — to be scheduled fire-and-forget.
    /// A failed accept yields no task and the loop stays alive: an accept
    /// failure is never fatal. Only a running listener accepts; an aborted
    /// one never reaches this point.
    pub fn accept_result(&mut self, outcome: AcceptOutcome) -> (action: DispatchAction)
        requires
            old(self).model().phase == Phase::Running,
        ensures
            final(self).model() == accept_step(old(self).model(), outcome),
            final(self).model().phase == Phase::Running,
            outcome matches AcceptOutcome::Connection { conn_id, peer }
                ==> action == DispatchAction::Dispatch(task_for(old(self).model().context, conn_id, peer)),
            outcome is Failed ==> action == DispatchAction::ContinueLoop,
    {
        match outcome {
            AcceptOutcome::Connection { conn_id, peer } => {
                let task = ConnectionTask::new(conn_id, peer, &self.context);
                self.dispatched = Ghost(self.dispatched@.push(task));
                proof {
                    assert(self.model() =~= accept_step(old(self).model(), outcome));
                }
                DispatchAction::Dispatch(task)
            }
            AcceptOutcome::Failed => {
                proof {
                    assert(self.model() =~= accept_step(old(self).model(), outcome));
                }
                DispatchAction::ContinueLoop
            }
        }
    }

    /// Runs the accept loop over a finite stretch of outcomes, oldest
    /// first, and returns the dispatched tasks in dispatch order: one per
    /// accepted connection, none for a failure, and the loop alive
    /// throughout.
    pub fn accept_all(&mut self, outcomes: &Vec<AcceptOutcome>) -> (tasks: Vec<ConnectionTask>)
        requires
            old(self).model().phase == Phase::Running,
        ensures
            final(self).model() == run_trace(old(self).model(), outcomes@),
            tasks@ == dispatches_for(old(self).model().context, outcomes@),
    {
        let ghost m0 = self.model();
        let mut tasks: Vec<ConnectionTask> = Vec::new();
        let mut i: usize = 0;
        proof {
            assert(outcomes@.skip(0) =~= outcomes@);
        }
        while i < outcomes.len()
            invariant
                i <= outcomes.len(),
                self.model().phase == Phase::Running,
                self.model().context == m0.context,
                run_trace(self.model(), outcomes@.skip(i as int)) == run_trace(m0, outcomes@),
                tasks@ + dispatches_for(m0.context, outcomes@.skip(i as int))
                    == dispatches_for(m0.context, outcomes@),
            decreases outcomes.len() - i,
        {
            let outcome = outcomes[i];
            proof {
                assert(outcomes@.skip(i as int)[0] == outcome);
                assert(outcomes@.skip(i as int).drop_first() =~= outcomes@.skip(i + 1));
            }
            let ghost tasks_before = tasks@;
            match self.accept_result(outcome) {
                DispatchAction::Dispatch(task) => {
                    tasks.push(task);
                    proof {
                        assert(tasks@ =~= tasks_before + seq![task]);
                        assert((tasks_before + seq![task])
                            + dispatches_for(m0.context, outcomes@.skip(i + 1))
                            =~= tasks_before
                                + (seq![task] + dispatches_for(m0.context, outcomes@.skip(i + 1))));
                    }
                }
                DispatchAction::ContinueLoop => {}
            }
            i = i + 1;
        }
        proof {
            assert(outcomes@.skip(outcomes@.len() as int) =~= Seq::<AcceptOutcome>::empty());
            assert(tasks@ + Seq::<ConnectionTask>::empty() =~= tasks@);
        }
        tasks
    }
}

} // verus!
