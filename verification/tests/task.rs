use network::{
    service_task, Action, Input, PeerIndex, Phase, ProtocolId, ServiceTask, TransportEvent,
    TICK_TIMEOUT_MILLIS,
};
use parking_lot::Mutex;
use std::sync::Arc;

const PROTOCOL: ProtocolId = [7, 7, 7];

type Task = ServiceTask<&'static str, &'static str>;

fn new_task() -> Task {
    service_task(Arc::new(Mutex::new("transport")), Arc::new("engine"), PROTOCOL)
}

fn message(node_index: PeerIndex, data: &[u8]) -> Input<String> {
    Input::Event(TransportEvent::CustomMessage { node_index, data: data.to_vec() })
}

fn opened(node_index: PeerIndex) -> Input<String> {
    Input::Event(TransportEvent::OpenedCustomProtocol { node_index })
}

fn closed(node_index: PeerIndex) -> Input<String> {
    Input::Event(TransportEvent::ClosedCustomProtocol { node_index })
}

/// A short name for an action, with the number of its adapter where it has
/// one.
fn describe(action: &Action<&'static str, String>) -> String {
    match action {
        Action::MaintainPeers { adapter } => format!("maintain#{:?}", adapter.binding()),
        Action::OnMessage { adapter, node_index, data } => {
            format!("message#{:?}({}, {:?})", adapter.binding(), node_index, data)
        }
        Action::OnPeerConnected { adapter, node_index } => {
            format!("connected#{:?}({})", adapter.binding(), node_index)
        }
        Action::OnPeerDisconnected { node_index } => format!("disconnected({})", node_index),
        Action::Ignore => format!("ignore"),
        Action::LogTickError => format!("log tick error"),
        Action::Finish(result) => format!("finish({:?})", result),
        Action::Stopped => format!("stopped"),
    }
}

fn run(task: &mut Task, inputs: Vec<Input<String>>) -> Vec<String> {
    let mut answers = Vec::new();
    for input in inputs {
        answers.push(describe(&task.step(input)));
    }
    answers
}

#[test]
fn tick_timeout_is_one_second() {
    assert_eq!(TICK_TIMEOUT_MILLIS, 1000);
}

#[test]
fn new_task_runs_and_has_issued_nothing() {
    let mut task = new_task();
    assert!(task.is_running());
    assert_eq!(task.phase(), Phase::Running);
    assert_eq!(task.protocol_id(), PROTOCOL);
    assert_eq!(*task.network().lock(), "transport");
    assert_eq!(**task.protocol(), "engine");
    match task.step(Input::<String>::Tick) {
        Action::MaintainPeers { adapter } => assert_eq!(adapter.binding(), Some(0)),
        _ => panic!("the first tick asks for maintenance"),
    }
}

#[test]
fn tick_asks_for_maintenance() {
    let mut task = new_task();
    match task.step(Input::<String>::Tick) {
        Action::MaintainPeers { adapter } => {
            assert_eq!(adapter.protocol_id(), PROTOCOL);
            assert!(Arc::ptr_eq(adapter.network(), task.network()));
        }
        _ => panic!("a tick asks for maintenance"),
    }
    assert!(task.is_running());
}

#[test]
fn message_is_dispatched_with_its_peer_and_payload() {
    let mut task = new_task();
    match task.step(message(3, &[1, 2, 3, 255])) {
        Action::OnMessage { adapter, node_index, data } => {
            assert_eq!(node_index, 3);
            assert_eq!(data, vec![1u8, 2, 3, 255]);
            assert_eq!(adapter.protocol_id(), PROTOCOL);
            assert!(Arc::ptr_eq(adapter.network(), task.network()));
        }
        _ => panic!("a message asks for on_message"),
    }
    assert!(task.is_running());
}

#[test]
fn empty_message_is_dispatched_too() {
    let mut task = new_task();
    match task.step(message(0, &[])) {
        Action::OnMessage { node_index, data, .. } => {
            assert_eq!(node_index, 0);
            assert!(data.is_empty());
        }
        _ => panic!("a message asks for on_message"),
    }
}

#[test]
fn opened_protocol_is_dispatched_with_its_peer() {
    let mut task = new_task();
    match task.step(opened(11)) {
        Action::OnPeerConnected { adapter, node_index } => {
            assert_eq!(node_index, 11);
            assert_eq!(adapter.protocol_id(), PROTOCOL);
            assert!(Arc::ptr_eq(adapter.network(), task.network()));
        }
        _ => panic!("an opened protocol asks for on_peer_connected"),
    }
    assert!(task.is_running());
}

#[test]
fn closed_protocol_is_dispatched_without_an_adapter() {
    let mut task = new_task();
    match task.step(closed(11)) {
        Action::OnPeerDisconnected { node_index } => assert_eq!(node_index, 11),
        _ => panic!("a closed protocol asks for on_peer_disconnected"),
    }
    // No adapter went out, so the next one still has the first number.
    match task.step(Input::<String>::Tick) {
        Action::MaintainPeers { adapter } => assert_eq!(adapter.binding(), Some(0)),
        _ => panic!("a tick asks for maintenance"),
    }
}

#[test]
fn other_event_is_ignored() {
    let mut task = new_task();
    assert!(matches!(task.step(Input::<String>::Event(TransportEvent::Other)), Action::Ignore));
    assert!(task.is_running());
    match task.step(Input::<String>::Tick) {
        Action::MaintainPeers { adapter } => assert_eq!(adapter.binding(), Some(0)),
        _ => panic!("a tick asks for maintenance"),
    }
}

#[test]
fn tick_error_is_logged_and_the_next_tick_still_fires() {
    let mut task = new_task();
    assert!(matches!(task.step(Input::<String>::TickError), Action::LogTickError));
    assert_eq!(task.phase(), Phase::Running);
    assert!(matches!(task.step(Input::<String>::Tick), Action::MaintainPeers { .. }));
    assert!(matches!(task.step(Input::<String>::TickError), Action::LogTickError));
    assert!(matches!(task.step(Input::<String>::TickError), Action::LogTickError));
    assert!(matches!(task.step(Input::<String>::Tick), Action::MaintainPeers { .. }));
    assert!(task.is_running());
}

#[test]
fn timer_end_finishes_the_task_with_ok() {
    let mut task = new_task();
    assert!(matches!(task.step(Input::<String>::TimerEnded), Action::Finish(Ok(()))));
    assert_eq!(task.phase(), Phase::Completed);
    assert!(!task.is_running());
    assert!(matches!(task.step(message(1, &[1])), Action::Stopped));
}

#[test]
fn transport_end_finishes_the_task_and_no_tick_is_dispatched_after() {
    let mut task = new_task();
    assert!(matches!(task.step(Input::<String>::Tick), Action::MaintainPeers { .. }));
    assert!(matches!(task.step(Input::<String>::TransportEnded), Action::Finish(Ok(()))));
    assert_eq!(task.phase(), Phase::Completed);
    for _ in 0..5 {
        assert!(matches!(task.step(Input::<String>::Tick), Action::Stopped));
    }
    assert_eq!(task.phase(), Phase::Completed);
}

#[test]
fn transport_error_finishes_the_task_with_that_error() {
    let mut task = new_task();
    match task.step(Input::TransportError(String::from("connection reset"))) {
        Action::Finish(Err(error)) => assert_eq!(error, "connection reset"),
        _ => panic!("a failed poll finishes the task with its error"),
    }
    assert_eq!(task.phase(), Phase::Failed);
    assert!(!task.is_running());
}

#[test]
fn finished_task_answers_stopped_to_everything() {
    let mut task = new_task();
    task.step(Input::TransportError(String::from("gone")));
    let answers = run(
        &mut task,
        vec![
            Input::Tick,
            Input::TickError,
            Input::TimerEnded,
            message(1, &[1]),
            opened(1),
            closed(1),
            Input::Event(TransportEvent::Other),
            Input::TransportEnded,
            Input::TransportError(String::from("again")),
        ],
    );
    assert_eq!(answers, vec!["stopped"; 9]);
    assert_eq!(task.phase(), Phase::Failed);
}

#[test]
fn every_event_is_dispatched_once_and_in_order() {
    let mut task = new_task();
    let answers = run(
        &mut task,
        vec![
            opened(0),
            message(0, &[10]),
            Input::Tick,
            message(0, &[20, 21]),
            Input::Event(TransportEvent::Other),
            opened(1),
            message(1, &[30]),
            Input::TickError,
            closed(0),
            message(1, &[]),
            Input::Tick,
            Input::TransportEnded,
            message(1, &[40]),
            Input::Tick,
        ],
    );
    assert_eq!(
        answers,
        vec![
            "connected#Some(0)(0)",
            "message#Some(1)(0, [10])",
            "maintain#Some(2)",
            "message#Some(3)(0, [20, 21])",
            "ignore",
            "connected#Some(4)(1)",
            "message#Some(5)(1, [30])",
            "log tick error",
            "disconnected(0)",
            "message#Some(6)(1, [])",
            "maintain#Some(7)",
            "finish(Ok(()))",
            "stopped",
            "stopped",
        ]
    );
}

#[test]
fn no_two_callbacks_get_the_same_adapter() {
    let mut task = new_task();
    let mut numbers = Vec::new();
    for round in 0..50usize {
        let action = match round % 3 {
            0 => task.step(Input::<String>::Tick),
            1 => task.step(message(round, &[round as u8])),
            _ => task.step(opened(round)),
        };
        match action {
            Action::MaintainPeers { adapter }
            | Action::OnMessage { adapter, .. }
            | Action::OnPeerConnected { adapter, .. } => numbers.push(adapter.binding()),
            _ => panic!("each of these inputs hands out an adapter"),
        }
    }
    for (i, first) in numbers.iter().enumerate() {
        assert_eq!(*first, Some(i as u64));
        for second in &numbers[i + 1..] {
            assert_ne!(first, second);
        }
    }
}
