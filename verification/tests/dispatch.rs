//! The accept loop's dispatch behaviour: order, failure tolerance, and the
//! shared context reaching every task.

use gateway_ingress::context::{
    ConnectionTask, IdentityKeyHandle, SenderHandle, SharedContext, SocketAddress,
};
use gateway_ingress::listener::{AcceptOutcome, DispatchAction, Listener, Phase, StartupAction};

fn sample_context() -> SharedContext {
    SharedContext::new(
        IdentityKeyHandle { key_id: 42 },
        SenderHandle { channel_id: 1 },
        SenderHandle { channel_id: 2 },
    )
}

fn local_address() -> SocketAddress {
    // ::ffff:127.0.0.1, port 1789
    SocketAddress {
        ip_high: 0,
        ip_low: 0x0000_ffff_7f00_0001,
        port: 1789,
    }
}

fn peer(n: u64) -> SocketAddress {
    SocketAddress {
        ip_high: 0,
        ip_low: 0x0000_ffff_0a00_0000 + n,
        port: 40_000,
    }
}

fn running_listener() -> Listener {
    let mut listener = Listener::new(local_address(), sample_context());
    let action = listener.bind_result(true);
    assert_eq!(action, StartupAction::EnterAcceptLoop);
    listener
}

fn expect_dispatch(action: DispatchAction) -> ConnectionTask {
    match action {
        DispatchAction::Dispatch(task) => task,
        DispatchAction::ContinueLoop => panic!("expected a dispatched task"),
    }
}

#[test]
fn accepted_connection_dispatches_its_own_task() {
    let mut listener = running_listener();
    let action = listener.accept_result(AcceptOutcome::Connection {
        conn_id: 7,
        peer: peer(7),
    });
    let task = expect_dispatch(action);
    let expected = ConnectionTask::new(7, peer(7), &sample_context());
    assert_eq!(task, expected);
    assert_eq!(listener.phase(), Phase::Running);
}

#[test]
fn failed_accept_continues_the_loop() {
    let mut listener = running_listener();
    let action = listener.accept_result(AcceptOutcome::Failed);
    assert_eq!(action, DispatchAction::ContinueLoop);
    assert_eq!(listener.phase(), Phase::Running);
}

#[test]
fn dispatch_preserves_arrival_order() {
    let mut listener = running_listener();
    let outcomes = vec![
        AcceptOutcome::Connection { conn_id: 1, peer: peer(1) },
        AcceptOutcome::Failed,
        AcceptOutcome::Connection { conn_id: 2, peer: peer(2) },
        AcceptOutcome::Connection { conn_id: 3, peer: peer(3) },
        AcceptOutcome::Failed,
    ];
    let tasks = listener.accept_all(&outcomes);
    assert_eq!(tasks.len(), 3);
    assert_eq!(tasks[0].conn_id, 1);
    assert_eq!(tasks[1].conn_id, 2);
    assert_eq!(tasks[2].conn_id, 3);
    assert_eq!(listener.phase(), Phase::Running);
}

#[test]
fn consecutive_failures_then_connection_dispatch_exactly_one() {
    let mut listener = running_listener();
    for _ in 0..5 {
        let action = listener.accept_result(AcceptOutcome::Failed);
        assert_eq!(action, DispatchAction::ContinueLoop);
        assert_eq!(listener.phase(), Phase::Running);
    }
    let action = listener.accept_result(AcceptOutcome::Connection {
        conn_id: 9,
        peer: peer(9),
    });
    let task = expect_dispatch(action);
    assert_eq!(task.conn_id, 9);
    assert_eq!(listener.phase(), Phase::Running);
}

#[test]
fn failures_interleaved_in_batch_dispatch_only_the_connection() {
    let mut listener = running_listener();
    let mut outcomes = vec![AcceptOutcome::Failed; 4];
    outcomes.push(AcceptOutcome::Connection { conn_id: 11, peer: peer(11) });
    let tasks = listener.accept_all(&outcomes);
    assert_eq!(tasks.len(), 1);
    assert_eq!(tasks[0].conn_id, 11);
    assert_eq!(listener.phase(), Phase::Running);
}

#[test]
fn empty_batch_dispatches_nothing() {
    let mut listener = running_listener();
    let tasks = listener.accept_all(&Vec::new());
    assert!(tasks.is_empty());
    assert_eq!(listener.phase(), Phase::Running);
}

#[test]
fn three_connections_share_one_context() {
    let mut listener = running_listener();
    let outcomes = vec![
        AcceptOutcome::Connection { conn_id: 1, peer: peer(1) },
        AcceptOutcome::Connection { conn_id: 2, peer: peer(2) },
        AcceptOutcome::Connection { conn_id: 3, peer: peer(3) },
    ];
    let tasks = listener.accept_all(&outcomes);
    assert_eq!(tasks.len(), 3);
    let identity = sample_context().identity_key();
    for task in &tasks {
        assert_eq!(task.identity_key(), identity);
        assert_eq!(task.registry_sender(), SenderHandle { channel_id: 1 });
        assert_eq!(task.forwarding_sender(), SenderHandle { channel_id: 2 });
    }
    // Each task owns its transport exclusively: no two share a connection.
    assert_ne!(tasks[0].conn_id, tasks[1].conn_id);
    assert_ne!(tasks[1].conn_id, tasks[2].conn_id);
    assert_ne!(tasks[0].conn_id, tasks[2].conn_id);
}

#[test]
fn one_tasks_failure_is_invisible_to_later_dispatch() {
    let mut listener = running_listener();
    let first = expect_dispatch(listener.accept_result(AcceptOutcome::Connection {
        conn_id: 1,
        peer: peer(1),
    }));
    // The first task's protocol fails somewhere off on its own; the
    // listener never observes task outcomes, so there is nothing to report
    // back. Dropping the task stands for its run ending.
    drop(first);
    let action = listener.accept_result(AcceptOutcome::Failed);
    assert_eq!(action, DispatchAction::ContinueLoop);
    let second = expect_dispatch(listener.accept_result(AcceptOutcome::Connection {
        conn_id: 2,
        peer: peer(2),
    }));
    assert_eq!(second, ConnectionTask::new(2, peer(2), &sample_context()));
    assert_eq!(listener.phase(), Phase::Running);
}
