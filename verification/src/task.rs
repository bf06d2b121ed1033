//! The run loop of the service, as a state machine.
//!
//! Two sources feed the task: a timer that ticks once per maintenance period
//! and the transport's stream of events.  Each of them may yield an item,
//! report an error, or end.  The caller polls both, in whatever order they
//! become ready, and hands every result to [`ServiceTask::step`], which
//! answers with the one thing to do about it.  The task is over as soon as
//! either source is: whatever arrives after that is answered with
//! [`Action::Stopped`].

use crate::adapter::{Adapter, AdapterView};
use crate::event::{PeerIndex, ProtocolId, TransportEvent, TransportEventView};
use parking_lot::Mutex;
use std::sync::Arc;
use vstd::prelude::*;

verus! {

/// The maintenance period, in milliseconds.
pub const TICK_TIMEOUT_MILLIS: u64 = 1000;

/// How far the task has come.
#[derive(Clone, Copy, Debug, PartialEq, Eq, Structural)]
pub enum Phase {
    /// Both sources are live.
    Running,
    /// A source ended; the task returned `Ok`.
    Completed,
    /// The transport failed; the task returned its error.
    Failed,
}

/// One result of polling one of the two sources.
#[derive(Debug)]
pub enum Input<E> {
    /// The timer fired.
    Tick,
    /// A tick went wrong.  The timer itself is still there.
    TickError,
    /// The timer will not fire again.
    TimerEnded,
    /// The transport produced an event.
    Event(TransportEvent),
    /// The transport shut down in good order.
    TransportEnded,
    /// Polling the transport failed.
    TransportError(E),
}

/// An [`Input`] over the view of its event.
pub enum InputView<E> {
    Tick,
    TickError,
    TimerEnded,
    Event(TransportEventView),
    TransportEnded,
    TransportError(E),
}

impl<E> View for Input<E> {
    type V = InputView<E>;

    open spec fn view(&self) -> InputView<E> {
        match *self {
            Input::Tick => InputView::Tick,
            Input::TickError => InputView::TickError,
            Input::TimerEnded => InputView::TimerEnded,
            Input::Event(event) => InputView::Event(event@),
            Input::TransportEnded => InputView::TransportEnded,
            Input::TransportError(error) => InputView::TransportError(error),
        }
    }
}

/// What the caller is to do about one [`Input`].
#[verifier::reject_recursive_types(N)]
pub enum Action<N, E> {
    /// Call the engine's `maintain_peers` with the adapter.
    MaintainPeers { adapter: Adapter<N> },
    /// Call the engine's `on_message` with the adapter, the peer and the
    /// payload.
    OnMessage { adapter: Adapter<N>, node_index: PeerIndex, data: Vec<u8> },
    /// Call the engine's `on_peer_connected` with the adapter and the peer.
    OnPeerConnected { adapter: Adapter<N>, node_index: PeerIndex },
    /// Call the engine's `on_peer_disconnected` with the peer.
    OnPeerDisconnected { node_index: PeerIndex },
    /// Nothing: the event is of a kind that the service has no use for.
    Ignore,
    /// Log the tick's error and go on polling.
    LogTickError,
    /// Stop polling; the task's result is the one given.
    Finish(Result<(), E>),
    /// Nothing: the task had finished before.
    Stopped,
}

/// An [`Action`] over the views of its adapter and payload.
pub enum ActionView<E> {
    MaintainPeers { adapter: AdapterView },
    OnMessage { adapter: AdapterView, node_index: PeerIndex, data: Seq<u8> },
    OnPeerConnected { adapter: AdapterView, node_index: PeerIndex },
    OnPeerDisconnected { node_index: PeerIndex },
    Ignore,
    LogTickError,
    Finish(Result<(), E>),
    Stopped,
}

impl<N, E> View for Action<N, E> {
    type V = ActionView<E>;

    open spec fn view(&self) -> ActionView<E> {
        match *self {
            Action::MaintainPeers { adapter } => ActionView::MaintainPeers { adapter: adapter@ },
            Action::OnMessage { adapter, node_index, data } => ActionView::OnMessage {
                adapter: adapter@,
                node_index,
                data: data@,
            },
            Action::OnPeerConnected { adapter, node_index } => ActionView::OnPeerConnected {
                adapter: adapter@,
                node_index,
            },
            Action::OnPeerDisconnected { node_index } => ActionView::OnPeerDisconnected {
                node_index,
            },
            Action::Ignore => ActionView::Ignore,
            Action::LogTickError => ActionView::LogTickError,
            Action::Finish(result) => ActionView::Finish(result),
            Action::Stopped => ActionView::Stopped,
        }
    }
}

impl<N, E> Action<N, E> {
    /// The adapter that the action hands to the engine, if it hands one.
    pub open spec fn adapter(self) -> Option<Adapter<N>> {
        match self {
            Action::MaintainPeers { adapter } => Some(adapter),
            Action::OnMessage { adapter, .. } => Some(adapter),
            Action::OnPeerConnected { adapter, .. } => Some(adapter),
            _ => None,
        }
    }
}

impl<E> ActionView<E> {
    /// The adapter that the action hands to the engine, if it hands one.
    pub open spec fn adapter(self) -> Option<AdapterView> {
        match self {
            ActionView::MaintainPeers { adapter } => Some(adapter),
            ActionView::OnMessage { adapter, .. } => Some(adapter),
            ActionView::OnPeerConnected { adapter, .. } => Some(adapter),
            _ => None,
        }
    }
}

/// The plain values of a [`ServiceTask`].
pub struct TaskView {
    pub protocol_id: ProtocolId,
    pub phase: Phase,
    /// The number that the next adapter gets.
    pub bindings: u64,
}

/// The number after `binding`; numbering starts over after `u64::MAX`.
pub open spec fn next_binding(binding: u64) -> u64 {
    if binding == u64::MAX {
        0
    } else {
        (binding + 1) as u64
    }
}

impl<E> InputView<E> {
    /// Whether the answer to this input, while the task runs, carries an
    /// adapter.
    pub open spec fn needs_adapter(self) -> bool {
        self is Tick || (self matches InputView::Event(event) && event.needs_adapter())
    }

    /// Whether this input says that a source is over.
    pub open spec fn ends_task(self) -> bool {
        self is TimerEnded || self is TransportEnded || self is TransportError
    }
}

impl TaskView {
    /// The task as [`service_task`] makes it.
    pub open spec fn initial(protocol_id: ProtocolId) -> TaskView {
        TaskView { protocol_id, phase: Phase::Running, bindings: 0 }
    }

    /// The adapter that the task hands out next.
    pub open spec fn next_adapter(self) -> AdapterView {
        AdapterView { protocol_id: self.protocol_id, binding: Some(self.bindings) }
    }

    /// The task after it has been handed `input`.
    ///
    /// A task that is over stays as it is.  A running task is over after an
    /// input that ends a source: it has failed if the transport failed, and
    /// completed otherwise.  Any other input leaves it running, and moves
    /// the numbering on if an adapter goes out.
    pub open spec fn step_state<E>(self, input: InputView<E>) -> TaskView {
        if self.phase != Phase::Running {
            self
        } else if input is TransportError {
            TaskView { phase: Phase::Failed, ..self }
        } else if input.ends_task() {
            TaskView { phase: Phase::Completed, ..self }
        } else if input.needs_adapter() {
            TaskView { bindings: next_binding(self.bindings), ..self }
        } else {
            self
        }
    }

    /// What the task answers when it is handed `input`.
    pub open spec fn step_action<E>(self, input: InputView<E>) -> ActionView<E> {
        if self.phase != Phase::Running {
            ActionView::Stopped
        } else {
            match input {
                InputView::Tick => ActionView::MaintainPeers { adapter: self.next_adapter() },
                InputView::TickError => ActionView::LogTickError,
                InputView::TimerEnded => ActionView::Finish(Ok(())),
                InputView::Event(TransportEventView::CustomMessage { node_index, data }) => {
                    ActionView::OnMessage { adapter: self.next_adapter(), node_index, data }
                },
                InputView::Event(TransportEventView::OpenedCustomProtocol { node_index }) => {
                    ActionView::OnPeerConnected { adapter: self.next_adapter(), node_index }
                },
                InputView::Event(TransportEventView::ClosedCustomProtocol { node_index }) => {
                    ActionView::OnPeerDisconnected { node_index }
                },
                InputView::Event(TransportEventView::Other) => ActionView::Ignore,
                InputView::TransportEnded => ActionView::Finish(Ok(())),
                InputView::TransportError(error) => ActionView::Finish(Err(error)),
            }
        }
    }
}

impl TaskView {
    /// The task after it has been handed `inputs`, one after the other.
    pub open spec fn run<E>(self, inputs: Seq<InputView<E>>) -> TaskView
        decreases inputs.len(),
    {
        if inputs.len() == 0 {
            self
        } else {
            self.run(inputs.drop_last()).step_state(inputs.last())
        }
    }

    /// The task at the moment it is handed `inputs[k]`.
    pub open spec fn state_at<E>(self, inputs: Seq<InputView<E>>, k: int) -> TaskView
        recommends
            0 <= k <= inputs.len(),
    {
        self.run(inputs.take(k))
    }

    /// What the task answers to `inputs[k]`, after all the inputs before it.
    pub open spec fn action_at<E>(self, inputs: Seq<InputView<E>>, k: int) -> ActionView<E>
        recommends
            0 <= k < inputs.len(),
    {
        self.state_at(inputs, k).step_action(inputs[k])
    }
}

/// The run loop's state: the two handles that the callbacks need, the
/// protocol, how far the loop has come and how many adapters it has issued.
#[verifier::reject_recursive_types(N)]
pub struct ServiceTask<N, P> {
    network: Arc<Mutex<N>>,
    protocol: Arc<P>,
    protocol_id: ProtocolId,
    phase: Phase,
    bindings: u64,
}

impl<N, P> View for ServiceTask<N, P> {
    type V = TaskView;

    closed spec fn view(&self) -> TaskView {
        TaskView { protocol_id: self.protocol_id, phase: self.phase, bindings: self.bindings }
    }
}

/// The task of a service over `network_service` and `protocol`: running, with
/// no adapter issued yet.  It does nothing until it is stepped.
pub fn service_task<N, P>(
    network_service: Arc<Mutex<N>>,
    protocol: Arc<P>,
    protocol_id: ProtocolId,
) -> (task: ServiceTask<N, P>)
    ensures
        task@ == TaskView::initial(protocol_id),
        task.handle() == network_service,
        task.engine() == protocol,
{
    ServiceTask {
        network: network_service,
        protocol,
        protocol_id,
        phase: Phase::Running,
        bindings: 0,
    }
}

impl<N, P> ServiceTask<N, P> {
    /// The transport handle that the task polls and binds its adapters to.
    pub closed spec fn handle(&self) -> Arc<Mutex<N>> {
        self.network
    }

    /// The protocol engine that the task's callbacks go to.
    pub closed spec fn engine(&self) -> Arc<P> {
        self.protocol
    }

    /// The lock-guarded transport, to poll it for the next event.
    pub fn network(&self) -> (network: &Arc<Mutex<N>>)
        ensures
            *network == self.handle(),
    {
        &self.network
    }

    /// The protocol engine, to carry out a callback.
    pub fn protocol(&self) -> (protocol: &Arc<P>)
        ensures
            *protocol == self.engine(),
    {
        &self.protocol
    }

    pub fn protocol_id(&self) -> (protocol_id: ProtocolId)
        ensures
            protocol_id == self@.protocol_id,
    {
        self.protocol_id
    }

    pub fn phase(&self) -> (phase: Phase)
        ensures
            phase == self@.phase,
    {
        self.phase
    }

    /// Whether the sources are still to be polled.
    pub fn is_running(&self) -> (running: bool)
        ensures
            running == (self@.phase == Phase::Running),
    {
        self.phase == Phase::Running
    }

    /// A new adapter over the task's transport and protocol, under the next
    /// number.
    fn bind(&mut self) -> (adapter: Adapter<N>)
        ensures
            adapter@ == old(self)@.next_adapter(),
            adapter.handle() == old(self).handle(),
            final(self)@ == (TaskView {
                bindings: next_binding(old(self)@.bindings),
                ..old(self)@
            }),
            final(self).handle() == old(self).handle(),
            final(self).engine() == old(self).engine(),
    {
        let adapter = Adapter::bound(&self.network, self.protocol_id, self.bindings);
        self.bindings = if self.bindings == u64::MAX {
            0
        } else {
            self.bindings + 1
        };
        adapter
    }

    /// Takes one result of polling a source and says what to do about it.
    ///
    /// While the task runs, a tick asks for maintenance, a message, a new
    /// peer and a lost peer each ask for the engine's callback of that name
    /// with the event's own peer and payload, a tick's error is to be logged,
    /// and the end or failure of a source finishes the task.  Every callback
    /// that may send gets an adapter of its own, bound to the task's
    /// transport and protocol.  Once the task has finished it answers
    /// `Stopped` to everything.
    pub fn step<E>(&mut self, input: Input<E>) -> (action: Action<N, E>)
        ensures
            final(self)@ == old(self)@.step_state(input@),
            action@ == old(self)@.step_action(input@),
            final(self).handle() == old(self).handle(),
            final(self).engine() == old(self).engine(),
            action.adapter() matches Some(adapter) ==> adapter.handle() == old(self).handle(),
    {
        if self.phase != Phase::Running {
            return Action::Stopped;
        }
        match input {
            Input::Tick => Action::MaintainPeers { adapter: self.bind() },
            Input::TickError => Action::LogTickError,
            Input::TimerEnded => {
                self.phase = Phase::Completed;
                Action::Finish(Ok(()))
            },
            Input::Event(TransportEvent::CustomMessage { node_index, data }) => {
                Action::OnMessage { adapter: self.bind(), node_index, data }
            },
            Input::Event(TransportEvent::OpenedCustomProtocol { node_index }) => {
                Action::OnPeerConnected { adapter: self.bind(), node_index }
            },
            Input::Event(TransportEvent::ClosedCustomProtocol { node_index }) => {
                Action::OnPeerDisconnected { node_index }
            },
            Input::Event(TransportEvent::Other) => Action::Ignore,
            Input::TransportEnded => {
                self.phase = Phase::Completed;
                Action::Finish(Ok(()))
            },
            Input::TransportError(error) => {
                self.phase = Phase::Failed;
                Action::Finish(Err(error))
            },
        }
    }
}

} // verus!
