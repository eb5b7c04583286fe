//! Construction, bind results, and the data types the listener hands out.

use gateway_ingress::context::{
    ConnectionTask, IdentityKeyHandle, SenderHandle, SharedContext, SocketAddress,
};
use gateway_ingress::listener::{Listener, Phase, StartupAction};

fn sample_context() -> SharedContext {
    SharedContext::new(
        IdentityKeyHandle { key_id: 42 },
        SenderHandle { channel_id: 1 },
        SenderHandle { channel_id: 2 },
    )
}

fn sample_address() -> SocketAddress {
    SocketAddress {
        ip_high: 0,
        ip_low: 0x0000_ffff_7f00_0001,
        port: 1789,
    }
}

#[test]
fn construction_is_pure_data_assignment() {
    let listener = Listener::new(sample_address(), sample_context());
    assert_eq!(listener.phase(), Phase::Created);
    assert_eq!(listener.address(), sample_address());
    assert_eq!(listener.context(), sample_context());
}

#[test]
fn successful_bind_enters_the_accept_loop() {
    let mut listener = Listener::new(sample_address(), sample_context());
    let action = listener.bind_result(true);
    assert_eq!(action, StartupAction::EnterAcceptLoop);
    assert_eq!(listener.phase(), Phase::Running);
}

#[test]
fn fatal_bind_aborts_before_the_accept_loop() {
    let mut listener = Listener::new(sample_address(), sample_context());
    let action = listener.bind_result(false);
    assert_eq!(action, StartupAction::AbortStartup);
    // Aborted, not running: the accept loop is never entered.
    assert_eq!(listener.phase(), Phase::Aborted);
}

#[test]
fn context_hands_out_the_handles_it_was_built_with() {
    let context = sample_context();
    assert_eq!(context.identity_key(), IdentityKeyHandle { key_id: 42 });
    assert_eq!(context.registry_sender(), SenderHandle { channel_id: 1 });
    assert_eq!(context.forwarding_sender(), SenderHandle { channel_id: 2 });
}

#[test]
fn task_copies_the_shared_handles() {
    let context = sample_context();
    let peer = SocketAddress {
        ip_high: 0,
        ip_low: 0x0000_ffff_0a00_0001,
        port: 40_000,
    };
    let task = ConnectionTask::new(5, peer, &context);
    assert_eq!(task.conn_id, 5);
    assert_eq!(task.peer, peer);
    assert_eq!(task.context, context);
    assert_eq!(task.identity_key(), context.identity_key());
    assert_eq!(task.registry_sender(), context.registry_sender());
    assert_eq!(task.forwarding_sender(), context.forwarding_sender());
}
