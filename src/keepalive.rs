use vstd::prelude::*;

verus! {

/// State of the keep-alive task of one session.
#[derive(Debug, Clone, Copy, PartialEq, Eq, Structural)]
pub enum KeepAliveState {
    Running,
    Stopped,
}

/// What the keep-alive task observes at one of its wait boundaries.
#[derive(Debug, Clone, Copy, PartialEq, Eq, Structural)]
pub enum KeepAliveEvent {
    /// The interval elapsed and no cancellation was signalled.
    Tick,
    /// The session's event sequence was dropped, or the signal's sender is gone.
    Cancelled,
    /// Writing the last heartbeat to the transport failed.
    SendFailed,
}

/// What the keep-alive task does next.
#[derive(Debug, Clone, Copy, PartialEq, Eq, Structural)]
pub enum KeepAliveAction {
    SendHeartbeat,
    Stop,
}

/// One decision of the keep-alive task.
pub open spec fn keep_alive_spec(s: KeepAliveState, e: KeepAliveEvent) -> (
    KeepAliveState,
    KeepAliveAction,
) {
    match (s, e) {
        (KeepAliveState::Running, KeepAliveEvent::Tick) => (
            KeepAliveState::Running,
            KeepAliveAction::SendHeartbeat,
        ),
        _ => (KeepAliveState::Stopped, KeepAliveAction::Stop),
    }
}

/// The actions taken from state `s` on the events `es`, in order.
pub open spec fn keep_alive_run(s: KeepAliveState, es: Seq<KeepAliveEvent>) -> Seq<
    KeepAliveAction,
>
    decreases es.len(),
{
    if es.len() == 0 {
        Seq::empty()
    } else {
        let (next, a) = keep_alive_spec(s, es[0]);
        seq![a] + keep_alive_run(next, es.drop_first())
    }
}

/// Decides the keep-alive task's next state and action: while running, each
/// tick sends one heartbeat; a cancellation or a failed write stops it for
/// good.
pub fn keep_alive_step(s: KeepAliveState, e: KeepAliveEvent) -> (r: (
    KeepAliveState,
    KeepAliveAction,
))
    ensures
        r == keep_alive_spec(s, e),
{
    match (s, e) {
        (KeepAliveState::Running, KeepAliveEvent::Tick) => (
            KeepAliveState::Running,
            KeepAliveAction::SendHeartbeat,
        ),
        _ => (KeepAliveState::Stopped, KeepAliveAction::Stop),
    }
}

proof fn lemma_stopped_sends_nothing(es: Seq<KeepAliveEvent>)
    ensures
        forall|i: int|
            0 <= i < es.len() ==> #[trigger] keep_alive_run(KeepAliveState::Stopped, es)[i]
                == KeepAliveAction::Stop,
        keep_alive_run(KeepAliveState::Stopped, es).len() == es.len(),
    decreases es.len(),
{
    if es.len() > 0 {
        lemma_stopped_sends_nothing(es.drop_first());
        let tail = keep_alive_run(KeepAliveState::Stopped, es.drop_first());
        assert forall|i: int|
            0 <= i < es.len() implies #[trigger] keep_alive_run(KeepAliveState::Stopped, es)[i]
            == KeepAliveAction::Stop by {
            if i > 0 {
                assert(keep_alive_run(KeepAliveState::Stopped, es)[i] == tail[i - 1]);
            }
        }
    }
}

/// Once cancellation is observed, no heartbeat is sent any more: whatever
/// state the task was in and whatever it observes afterwards, every later
/// action is `Stop`.
pub proof fn lemma_no_heartbeat_after_cancel(s: KeepAliveState, later: Seq<KeepAliveEvent>)
    ensures
        ({
            let acts = keep_alive_run(s, seq![KeepAliveEvent::Cancelled] + later);
            &&& acts.len() == later.len() + 1
            &&& forall|i: int| 0 <= i < acts.len() ==> acts[i] != KeepAliveAction::SendHeartbeat
        }),
{
    let es = seq![KeepAliveEvent::Cancelled] + later;
    assert(es.drop_first() =~= later);
    lemma_stopped_sends_nothing(later);
    let acts = keep_alive_run(s, es);
    let tail = keep_alive_run(KeepAliveState::Stopped, later);
    assert(acts == seq![KeepAliveAction::Stop] + tail);
    assert forall|i: int| 0 <= i < acts.len() implies acts[i] != KeepAliveAction::SendHeartbeat by {
        if i > 0 {
            assert(acts[i] == tail[i - 1]);
        }
    }
}

} // verus!
