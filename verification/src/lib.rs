//! Scheduling and dispatch core of a peer-to-peer network service.
//!
//! The service owns a lock-guarded handle to a transport and a handle to a
//! protocol engine.  Its task merges two sources, a maintenance timer and the
//! transport's event stream, and decides for every item that either source
//! yields which callback of the protocol engine is due.  The decisions are a
//! state machine: the caller polls the sources, hands each result to
//! [`ServiceTask::step`] and performs the [`Action`] that comes back.

pub mod adapter;
pub mod event;
pub mod laws;
pub mod lock;
pub mod service;
pub mod task;

pub use adapter::{Adapter, AdapterView, Command, CommandView};
pub use event::{PeerIndex, ProtocolId, TransportEvent, TransportEventView};
pub use service::{registration, ConstructionError, Registration, Service};
pub use task::{
    service_task, Action, ActionView, Input, InputView, Phase, ServiceTask, TaskView,
    TICK_TIMEOUT_MILLIS,
};
