//! The short-lived binding through which the protocol engine acts on the
//! transport.

use crate::event::{PeerIndex, ProtocolId};
use crate::lock::share;
use parking_lot::Mutex;
use std::sync::Arc;
use vstd::prelude::*;

verus! {

/// Binds the transport handle to one protocol for the length of one callback.
///
/// The task makes a new adapter for every callback that may send, and numbers
/// them: `binding` tells the adapters of different callbacks apart.  An
/// adapter made by hand, for a send outside the task's callbacks, has no
/// number.  An adapter holds no other state.  Its operations do not touch the
/// transport; each yields the [`Command`] that the holder of the lock is to
/// carry out.
#[verifier::reject_recursive_types(N)]
pub struct Adapter<N> {
    network: Arc<Mutex<N>>,
    protocol_id: ProtocolId,
    binding: Option<u64>,
}

/// The plain values of an [`Adapter`].
pub struct AdapterView {
    pub protocol_id: ProtocolId,
    /// The number of the callback that the adapter was made for, if the task
    /// made it.
    pub binding: Option<u64>,
}

/// An outbound request to the transport, scoped to one protocol.
#[derive(Debug, PartialEq, Eq)]
pub enum Command {
    /// Send `data` to one peer.
    Send { protocol_id: ProtocolId, node_index: PeerIndex, data: Vec<u8> },
    /// Send `data` to every peer that has the protocol open.
    Broadcast { protocol_id: ProtocolId, data: Vec<u8> },
    /// Close the protocol towards one peer.
    Disconnect { protocol_id: ProtocolId, node_index: PeerIndex },
}

/// A [`Command`] with its payload as a sequence of bytes.
pub enum CommandView {
    Send { protocol_id: ProtocolId, node_index: PeerIndex, data: Seq<u8> },
    Broadcast { protocol_id: ProtocolId, data: Seq<u8> },
    Disconnect { protocol_id: ProtocolId, node_index: PeerIndex },
}

impl View for Command {
    type V = CommandView;

    open spec fn view(&self) -> CommandView {
        match *self {
            Command::Send { protocol_id, node_index, data } => CommandView::Send {
                protocol_id,
                node_index,
                data: data@,
            },
            Command::Broadcast { protocol_id, data } => CommandView::Broadcast {
                protocol_id,
                data: data@,
            },
            Command::Disconnect { protocol_id, node_index } => CommandView::Disconnect {
                protocol_id,
                node_index,
            },
        }
    }
}

impl<N> View for Adapter<N> {
    type V = AdapterView;

    closed spec fn view(&self) -> AdapterView {
        AdapterView { protocol_id: self.protocol_id, binding: self.binding }
    }
}

impl<N> Adapter<N> {
    /// The transport handle that the adapter is bound to.
    pub closed spec fn handle(&self) -> Arc<Mutex<N>> {
        self.network
    }

    /// Binds `network` to `protocol_id`, for a caller outside the task.
    pub fn new(network: &Arc<Mutex<N>>, protocol_id: ProtocolId) -> (adapter: Self)
        ensures
            adapter@ == (AdapterView { protocol_id, binding: None }),
            adapter.handle() == *network,
    {
        Adapter { network: share(network), protocol_id, binding: None }
    }

    /// Binds `network` to `protocol_id` for the task's callback number
    /// `binding`.
    pub(crate) fn bound(
        network: &Arc<Mutex<N>>,
        protocol_id: ProtocolId,
        binding: u64,
    ) -> (adapter: Self)
        ensures
            adapter@ == (AdapterView { protocol_id, binding: Some(binding) }),
            adapter.handle() == *network,
    {
        Adapter { network: share(network), protocol_id, binding: Some(binding) }
    }

    /// The lock-guarded transport; the holder takes the lock to carry out a
    /// command.
    pub fn network(&self) -> (network: &Arc<Mutex<N>>)
        ensures
            *network == self.handle(),
    {
        &self.network
    }

    pub fn protocol_id(&self) -> (protocol_id: ProtocolId)
        ensures
            protocol_id == self@.protocol_id,
    {
        self.protocol_id
    }

    pub fn binding(&self) -> (binding: Option<u64>)
        ensures
            binding == self@.binding,
    {
        self.binding
    }

    /// The command that sends `data` to the peer `node_index`.
    pub fn send(&self, node_index: PeerIndex, data: Vec<u8>) -> (command: Command)
        ensures
            command@ == (CommandView::Send {
                protocol_id: self@.protocol_id,
                node_index,
                data: data@,
            }),
    {
        Command::Send { protocol_id: self.protocol_id, node_index, data }
    }

    /// The command that sends `data` to every peer of the protocol.
    pub fn broadcast(&self, data: Vec<u8>) -> (command: Command)
        ensures
            command@ == (CommandView::Broadcast { protocol_id: self@.protocol_id, data: data@ }),
    {
        Command::Broadcast { protocol_id: self.protocol_id, data }
    }

    /// The command that closes the protocol towards the peer `node_index`.
    pub fn disconnect(&self, node_index: PeerIndex) -> (command: Command)
        ensures
            command@ == (CommandView::Disconnect { protocol_id: self@.protocol_id, node_index }),
    {
        Command::Disconnect { protocol_id: self.protocol_id, node_index }
    }
}

} // verus!
