//! What the transport reports to the service.

use vstd::prelude::*;

verus! {

/// Names this protocol's traffic on a transport that several protocols
/// share.  Fixed when the service is built and only ever passed on.
pub type ProtocolId = [u8; 3];

/// The transport's name for one connected peer.  It is valid from the
/// `OpenedCustomProtocol` event that introduces it to the
/// `ClosedCustomProtocol` event that retires it.
pub type PeerIndex = usize;

/// One event polled from the transport.
#[derive(Debug, PartialEq, Eq)]
pub enum TransportEvent {
    /// The peer sent `data` on this protocol.
    CustomMessage { node_index: PeerIndex, data: Vec<u8> },
    /// The peer opened this protocol.
    OpenedCustomProtocol { node_index: PeerIndex },
    /// The peer closed this protocol, or went away.
    ClosedCustomProtocol { node_index: PeerIndex },
    /// Any other kind of event; the service has no use for it.
    Other,
}

/// A [`TransportEvent`] with its payload as a sequence of bytes.
pub enum TransportEventView {
    CustomMessage { node_index: PeerIndex, data: Seq<u8> },
    OpenedCustomProtocol { node_index: PeerIndex },
    ClosedCustomProtocol { node_index: PeerIndex },
    Other,
}

impl View for TransportEvent {
    type V = TransportEventView;

    open spec fn view(&self) -> TransportEventView {
        match *self {
            TransportEvent::CustomMessage { node_index, data } => {
                TransportEventView::CustomMessage { node_index, data: data@ }
            },
            TransportEvent::OpenedCustomProtocol { node_index } => {
                TransportEventView::OpenedCustomProtocol { node_index }
            },
            TransportEvent::ClosedCustomProtocol { node_index } => {
                TransportEventView::ClosedCustomProtocol { node_index }
            },
            TransportEvent::Other => TransportEventView::Other,
        }
    }
}

impl TransportEventView {
    /// Whether the protocol engine is handed an adapter when it is told of
    /// this event: it may answer a message or greet a new peer, and has
    /// nothing to send to a peer that left.
    pub open spec fn needs_adapter(self) -> bool {
        self is CustomMessage || self is OpenedCustomProtocol
    }
}

} // verus!
