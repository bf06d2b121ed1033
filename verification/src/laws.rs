//! What holds of every run of the task, whatever the sources yield.
//!
//! A run is a task and the sequence of inputs that it is handed;
//! `TaskView::state_at` and `TaskView::action_at` give the task before the
//! `k`-th input and the answer to it, which are what `k` calls of
//! `ServiceTask::step` leave and what the next call returns.

use crate::event::TransportEventView;
use crate::task::{next_binding, ActionView, InputView, Phase, TaskView};
use vstd::prelude::*;

verus! {

/// How many adapters the task hands out over `inputs`.
spec fn issued<E>(task: TaskView, inputs: Seq<InputView<E>>) -> nat
    decreases inputs.len(),
{
    if inputs.len() == 0 {
        0
    } else {
        let before: TaskView = task.run(inputs.drop_last());
        let last: nat = if before.phase == Phase::Running && inputs.last().needs_adapter() {
            1
        } else {
            0
        };
        issued(task, inputs.drop_last()) + last
    }
}

/// How many binding numbers there are.
spec fn numbers() -> int {
    u64::MAX + 1
}

/// The first `k + 1` inputs are the first `k` and then `inputs[k]`.
proof fn unfold_run<E>(task: TaskView, inputs: Seq<InputView<E>>, k: int)
    requires
        0 <= k < inputs.len(),
    ensures
        task.state_at(inputs, k + 1) == task.state_at(inputs, k).step_state(inputs[k]),
        issued(task, inputs.take(k + 1)) == issued(task, inputs.take(k)) + if task.state_at(
            inputs,
            k,
        ).phase == Phase::Running && inputs[k].needs_adapter() {
            1nat
        } else {
            0nat
        },
{
    let prefix: Seq<InputView<E>> = inputs.take(k + 1);
    assert(prefix.drop_last() == inputs.take(k));
    assert(prefix.last() == inputs[k]);
}

/// A run never changes the protocol of the task, and a task that is over
/// stays over, in the phase in which it ended.
pub proof fn run_keeps_protocol_and_end<E>(task: TaskView, inputs: Seq<InputView<E>>)
    ensures
        task.run(inputs).protocol_id == task.protocol_id,
        task.phase != Phase::Running ==> task.run(inputs) == task,
    decreases inputs.len(),
{
    if inputs.len() > 0 {
        run_keeps_protocol_and_end(task, inputs.drop_last());
    }
}

/// A running task is still running after inputs of which none ends a source.
proof fn running_after<E>(task: TaskView, inputs: Seq<InputView<E>>, j: int, k: int)
    requires
        0 <= j <= k <= inputs.len(),
        task.state_at(inputs, j).phase == Phase::Running,
        forall|i: int| j <= i < k ==> !(#[trigger] inputs[i]).ends_task(),
    ensures
        task.state_at(inputs, k).phase == Phase::Running,
    decreases k - j,
{
    if j < k {
        running_after(task, inputs, j, k - 1);
        unfold_run(task, inputs, k - 1);
        assert(!inputs[k - 1].ends_task());
    }
}

/// A task that is over at the `j`-th input is in the same state at every
/// later one.
proof fn over_after<E>(task: TaskView, inputs: Seq<InputView<E>>, j: int, k: int)
    requires
        0 <= j <= k <= inputs.len(),
        task.state_at(inputs, j).phase != Phase::Running,
    ensures
        task.state_at(inputs, k) == task.state_at(inputs, j),
    decreases k - j,
{
    if j < k {
        over_after(task, inputs, j, k - 1);
        unfold_run(task, inputs, k - 1);
    }
}

/// The numbering of the adapters follows the count of those handed out.
proof fn bindings_follow_issued<E>(task: TaskView, inputs: Seq<InputView<E>>, k: int)
    requires
        0 <= k <= inputs.len(),
    ensures
        task.state_at(inputs, k).bindings == (task.bindings + issued(task, inputs.take(k)))
            % numbers(),
    decreases k,
{
    if k == 0 {
        assert(inputs.take(0).len() == 0);
    } else {
        bindings_follow_issued(task, inputs, k - 1);
        unfold_run(task, inputs, k - 1);
        let before: TaskView = task.state_at(inputs, k - 1);
        let count: int = task.bindings + issued(task, inputs.take(k - 1));
        if before.phase == Phase::Running && inputs[k - 1].needs_adapter() {
            assert(!inputs[k - 1].ends_task());
            assert(next_binding(before.bindings) == (count + 1) % numbers()) by {
                vstd::arithmetic::div_mod::lemma_add_mod_noop(count, 1, numbers());
                vstd::arithmetic::div_mod::lemma_small_mod(1, numbers() as nat);
                if before.bindings == u64::MAX {
                    vstd::arithmetic::div_mod::lemma_mod_self_0(numbers());
                } else {
                    vstd::arithmetic::div_mod::lemma_small_mod(
                        (before.bindings + 1) as nat,
                        numbers() as nat,
                    );
                }
            }
        }
    }
}

/// Between two inputs no more adapters go out than there are inputs.
proof fn issued_is_bounded<E>(task: TaskView, inputs: Seq<InputView<E>>, j: int, k: int)
    requires
        0 <= j <= k <= inputs.len(),
    ensures
        issued(task, inputs.take(j)) <= issued(task, inputs.take(k)) <= issued(task, inputs.take(j))
            + (k - j),
    decreases k - j,
{
    if j < k {
        issued_is_bounded(task, inputs, j, k - 1);
        unfold_run(task, inputs, k - 1);
    }
}

/// Every event is dispatched, once and as it came.
///
/// While the task runs, a message is answered with `on_message`, a peer that
/// opened the protocol with `on_peer_connected` and one that closed it with
/// `on_peer_disconnected`, each for the event's own peer and with the
/// message's own payload, and with an adapter for the task's protocol where
/// the callback takes one.  Nothing else is answered with any of the three.
pub proof fn dispatch_is_complete<E>(task: TaskView, inputs: Seq<InputView<E>>, k: int)
    requires
        0 <= k < inputs.len(),
        task.state_at(inputs, k).phase == Phase::Running,
    ensures
        task.state_at(inputs, k).next_adapter().protocol_id == task.protocol_id,
        match inputs[k] {
            InputView::Event(TransportEventView::CustomMessage { node_index, data }) => {
                task.action_at(inputs, k) == (ActionView::<E>::OnMessage {
                    adapter: task.state_at(inputs, k).next_adapter(),
                    node_index,
                    data,
                })
            },
            InputView::Event(TransportEventView::OpenedCustomProtocol { node_index }) => {
                task.action_at(inputs, k) == (ActionView::<E>::OnPeerConnected {
                    adapter: task.state_at(inputs, k).next_adapter(),
                    node_index,
                })
            },
            InputView::Event(TransportEventView::ClosedCustomProtocol { node_index }) => {
                task.action_at(inputs, k) == (ActionView::<E>::OnPeerDisconnected { node_index })
            },
            _ => {
                &&& !(task.action_at(inputs, k) is OnMessage)
                &&& !(task.action_at(inputs, k) is OnPeerConnected)
                &&& !(task.action_at(inputs, k) is OnPeerDisconnected)
            },
        },
{
    run_keeps_protocol_and_end(task, inputs.take(k));
}

/// A tick that goes wrong does not stop the ticks.
///
/// The error of a tick leaves a running task as it was.  So does every later
/// input up to the next tick, unless it ends a source; and that tick is
/// answered with `maintain_peers`.
pub proof fn tick_error_is_recovered<E>(task: TaskView, inputs: Seq<InputView<E>>, k: int, j: int)
    requires
        0 <= k < j < inputs.len(),
        task.state_at(inputs, k).phase == Phase::Running,
        inputs[k] is TickError,
        forall|i: int| k < i < j ==> !(#[trigger] inputs[i]).ends_task(),
        inputs[j] is Tick,
    ensures
        task.action_at(inputs, k) == ActionView::<E>::LogTickError,
        task.state_at(inputs, k + 1) == task.state_at(inputs, k),
        task.action_at(inputs, j) == (ActionView::<E>::MaintainPeers {
            adapter: task.state_at(inputs, j).next_adapter(),
        }),
{
    unfold_run(task, inputs, k);
    running_after(task, inputs, k + 1, j);
}

/// The task is over as soon as one source is.
///
/// The input that ends a source finishes a running task: with the
/// transport's error if the transport failed, with `Ok` otherwise.  Every
/// input after that, a tick as much as any other, is answered with
/// `Stopped`, and none changes the task any more.
pub proof fn ended_source_stops_task<E>(task: TaskView, inputs: Seq<InputView<E>>, k: int, j: int)
    requires
        0 <= k < j < inputs.len(),
        task.state_at(inputs, k).phase == Phase::Running,
        inputs[k].ends_task(),
    ensures
        task.action_at(inputs, k) == ActionView::Finish(
            match inputs[k] {
                InputView::TransportError(error) => Err(error),
                _ => Ok(()),
            },
        ),
        task.state_at(inputs, k + 1).phase == if inputs[k] is TransportError {
            Phase::Failed
        } else {
            Phase::Completed
        },
        task.action_at(inputs, j) == ActionView::<E>::Stopped,
        task.state_at(inputs, j) == task.state_at(inputs, k + 1),
{
    unfold_run(task, inputs, k);
    over_after(task, inputs, k + 1, j);
}

/// The task has one result.
///
/// If the task answers `Finish` to one input, it answers `Finish` to no
/// other, before or after.
pub proof fn task_finishes_once<E>(task: TaskView, inputs: Seq<InputView<E>>, j: int, k: int)
    requires
        0 <= j < inputs.len(),
        0 <= k < inputs.len(),
        j != k,
        task.action_at(inputs, k) is Finish,
    ensures
        !(task.action_at(inputs, j) is Finish),
{
    if j < k {
        if task.action_at(inputs, j) is Finish {
            ended_source_stops_task(task, inputs, j, k);
        }
    } else {
        ended_source_stops_task(task, inputs, k, j);
    }
}

/// No adapter serves two callbacks.
///
/// The adapters that go out at two different inputs carry different numbers,
/// as long as the inputs are less than `2^64` apart; both are bound to the
/// protocol of the task.
pub proof fn adapters_are_fresh<E>(task: TaskView, inputs: Seq<InputView<E>>, j: int, k: int)
    requires
        0 <= j < k < inputs.len(),
        k - j <= u64::MAX,
        task.action_at(inputs, j).adapter() is Some,
        task.action_at(inputs, k).adapter() is Some,
    ensures
        task.action_at(inputs, j).adapter()->0.binding is Some,
        task.action_at(inputs, k).adapter()->0.binding is Some,
        task.action_at(inputs, j).adapter()->0.binding != task.action_at(
            inputs,
            k,
        ).adapter()->0.binding,
        task.action_at(inputs, j).adapter()->0.protocol_id == task.protocol_id,
        task.action_at(inputs, k).adapter()->0.protocol_id == task.protocol_id,
{
    run_keeps_protocol_and_end(task, inputs.take(j));
    run_keeps_protocol_and_end(task, inputs.take(k));
    bindings_follow_issued(task, inputs, j);
    bindings_follow_issued(task, inputs, k);
    unfold_run(task, inputs, j);
    issued_is_bounded(task, inputs, j + 1, k);
    let first: int = task.bindings + issued(task, inputs.take(j));
    let second: int = task.bindings + issued(task, inputs.take(k));
    assert(inputs[j].needs_adapter() && task.state_at(inputs, j).phase == Phase::Running);
    assert(0 < second - first < numbers());
    if first % numbers() == second % numbers() {
        vstd::arithmetic::div_mod::lemma_fundamental_div_mod(first, numbers());
        vstd::arithmetic::div_mod::lemma_fundamental_div_mod(second, numbers());
        let gap: int = second / numbers() - first / numbers();
        assert(second - first == numbers() * gap) by (nonlinear_arith)
            requires
                first == numbers() * (first / numbers()) + first % numbers(),
                second == numbers() * (second / numbers()) + second % numbers(),
                first % numbers() == second % numbers(),
                gap == second / numbers() - first / numbers(),
        ;
        assert(false) by (nonlinear_arith)
            requires
                second - first == numbers() * gap,
                0 < second - first < numbers(),
        ;
    }
}

} // verus!
