//! The service: the transport handle and the protocol engine, bundled for
//! whoever holds the node's networking.

use crate::event::ProtocolId;
use crate::lock::{guard, share};
use crate::task::{service_task, ServiceTask, TaskView};
use parking_lot::Mutex;
use std::sync::Arc;
use vstd::prelude::*;

verus! {

/// Why a service could not be built.
#[derive(Debug, PartialEq, Eq)]
pub enum ConstructionError<E> {
    /// The transport did not start; the cause is the transport's own error.
    TransportStart(E),
}

/// What the transport is told of the protocol before it starts: the
/// protocol's identifier and the versions of it that this node speaks.
#[derive(Debug, PartialEq, Eq)]
pub struct Registration {
    pub protocol_id: ProtocolId,
    pub versions: Vec<u8>,
}

/// The tag under which a protocol version is registered: its low byte.
pub open spec fn version_tag(current_version: u32) -> u8 {
    (current_version % 256) as u8
}

/// The registration of `protocol_id` for a node that speaks the protocol
/// engine's `current_version` and no other.
pub fn registration(protocol_id: ProtocolId, current_version: u32) -> (registered: Registration)
    ensures
        registered.protocol_id == protocol_id,
        registered.versions@ == seq![version_tag(current_version)],
{
    let tag: u8 = (current_version % 256) as u8;
    let mut versions: Vec<u8> = Vec::new();
    versions.push(tag);
    Registration { protocol_id, versions }
}

/// A node's network service.  It shares both handles with its task: the
/// transport behind a lock, the protocol engine as it is.
#[verifier::reject_recursive_types(N)]
pub struct Service<N, P> {
    network: Arc<Mutex<N>>,
    protocol: Arc<P>,
}

impl<N, P> Service<N, P> {
    /// The transport handle of the service.
    pub closed spec fn handle(&self) -> Arc<Mutex<N>> {
        self.network
    }

    /// The protocol engine of the service.
    pub closed spec fn engine(&self) -> Arc<P> {
        self.protocol
    }

    /// Builds the service and its task from the protocol engine and from
    /// what starting the transport gave.
    ///
    /// A transport that started is put behind a lock and shared between the
    /// service and the task, as is the engine; the task is new and has not
    /// run.  A transport that did not start yields the error that wraps the
    /// cause, and neither a service nor a task.
    pub fn new<E>(protocol: P, started: Result<N, E>, protocol_id: ProtocolId) -> (result: Result<
        (Service<N, P>, ServiceTask<N, P>),
        ConstructionError<E>,
    >)
        ensures
            match started {
                Ok(_) => {
                    &&& result matches Ok((service, task))
                    &&& *service.engine() == protocol
                    &&& task.engine() == service.engine()
                    &&& task.handle() == service.handle()
                    &&& task@ == TaskView::initial(protocol_id)
                },
                Err(cause) => result == Err::<(Service<N, P>, ServiceTask<N, P>), _>(
                    ConstructionError::TransportStart(cause),
                ),
            },
    {
        let protocol = Arc::new(protocol);
        let service = match started {
            Ok(s) => Arc::new(guard(s)),
            Err(e) => return Err(ConstructionError::TransportStart(e)),
        };
        let task = service_task(share(&service), share(&protocol), protocol_id);
        Ok((Service { network: service, protocol }, task))
    }

    /// The lock-guarded transport.
    pub fn network(&self) -> (network: &Arc<Mutex<N>>)
        ensures
            *network == self.handle(),
    {
        &self.network
    }

    /// The protocol engine, for queries and sends outside the task's own
    /// callbacks.
    pub fn protocol(&self) -> (protocol: &Arc<P>)
        ensures
            *protocol == self.engine(),
    {
        &self.protocol
    }
}

} // verus!
