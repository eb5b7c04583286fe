//! The shared long-lived resources of the ingress, and the per-connection
//! task that carries copies of them.

use vstd::prelude::*;

verus! {

/// A transport-layer address: a 128-bit IP value (an IPv4 address is carried
/// in its IPv6-mapped form) split into two words, and a port.
#[derive(Clone, Copy, PartialEq, Eq, Structural, Debug)]
pub struct SocketAddress {
    pub ip_high: u64,
    pub ip_low: u64,
    pub port: u16,
}

/// A shared, read-only handle to the node's identity keypair. The key
/// material itself is opaque to this subsystem and never inspected here;
/// two handles with equal `key_id` refer to the same underlying keypair.
#[derive(Clone, Copy, PartialEq, Eq, Structural, Debug)]
pub struct IdentityKeyHandle {
    pub key_id: u64,
}

/// A cloneable, concurrency-safe sending handle into an external channel:
/// the client registry's request queue, or the outbound mix-packet
/// forwarder. Two handles with equal `channel_id` feed the same underlying
/// channel, which performs its own internal synchronization.
#[derive(Clone, Copy, PartialEq, Eq, Structural, Debug)]
pub struct SenderHandle {
    pub channel_id: u64,
}

/// The bundle of long-lived resources that every connection task needs: the
/// node's identity keypair and the senders into the registry and forwarding
/// collaborators. The fields are private and no method writes them: after
/// construction a context can only be read, or have its handles copied out,
/// so no task can mutate what later tasks observe.
#[derive(Clone, Copy, PartialEq, Eq, Structural, Debug)]
pub struct SharedContext {
    identity: IdentityKeyHandle,
    registry: SenderHandle,
    forwarding: SenderHandle,
}

impl SharedContext {
    /// The identity keypair handle this context was built with.
    pub closed spec fn spec_identity(self) -> IdentityKeyHandle {
        self.identity
    }

    /// The registry sender handle this context was built with.
    pub closed spec fn spec_registry(self) -> SenderHandle {
        self.registry
    }

    /// The forwarding sender handle this context was built with.
    pub closed spec fn spec_forwarding(self) -> SenderHandle {
        self.forwarding
    }

    /// Bundles the three shared handles. Pure data assignment.
    pub fn new(
        identity: IdentityKeyHandle,
        registry: SenderHandle,
        forwarding: SenderHandle,
    ) -> (context: SharedContext)
        ensures
            context.spec_identity() == identity,
            context.spec_registry() == registry,
            context.spec_forwarding() == forwarding,
    {
        SharedContext { identity, registry, forwarding }
    }

    /// A copy of the identity keypair handle; the keypair itself stays
    /// shared and read-only.
    pub fn identity_key(&self) -> (handle: IdentityKeyHandle)
        ensures
            handle == self.spec_identity(),
    {
        self.identity
    }

    /// A copy of the registry sender handle.
    pub fn registry_sender(&self) -> (handle: SenderHandle)
        ensures
            handle == self.spec_registry(),
    {
        self.registry
    }

    /// A copy of the forwarding sender handle.
    pub fn forwarding_sender(&self) -> (handle: SenderHandle)
        ensures
            handle == self.spec_forwarding(),
    {
        self.forwarding
    }
}

/// The unit of work built for one accepted connection. `conn_id` identifies
/// the accepted transport, which the task owns exclusively; `peer` is the
/// remote address, kept for diagnostics; `context` holds copies of the
/// shared handles. Once dispatched the task runs independently: its outcome
/// is never reported back to the listener.
#[derive(Clone, Copy, PartialEq, Eq, Structural, Debug)]
pub struct ConnectionTask {
    pub conn_id: u64,
    pub peer: SocketAddress,
    pub context: SharedContext,
}

/// The task a listener builds for one accepted connection: the connection's
/// own transport and peer, plus the shared context, copied.
pub open spec fn task_for(context: SharedContext, conn_id: u64, peer: SocketAddress) -> ConnectionTask {
    ConnectionTask { conn_id, peer, context }
}

impl ConnectionTask {
    /// Builds the task for one accepted connection from the connection's
    /// transport identifier, its peer address, and copies of the shared
    /// handles.
    pub fn new(conn_id: u64, peer: SocketAddress, context: &SharedContext) -> (task: ConnectionTask)
        ensures
            task == task_for(*context, conn_id, peer),
    {
        ConnectionTask { conn_id, peer, context: *context }
    }

    /// The task's copy of the identity keypair handle.
    pub fn identity_key(&self) -> (handle: IdentityKeyHandle)
        ensures
            handle == self.context.spec_identity(),
    {
        self.context.identity_key()
    }

    /// The task's copy of the registry sender handle.
    pub fn registry_sender(&self) -> (handle: SenderHandle)
        ensures
            handle == self.context.spec_registry(),
    {
        self.context.registry_sender()
    }

    /// The task's copy of the forwarding sender handle.
    pub fn forwarding_sender(&self) -> (handle: SenderHandle)
        ensures
            handle == self.context.spec_forwarding(),
    {
        self.context.forwarding_sender()
    }
}

} // verus!
