use vstd::prelude::*;
use crate::message::{StreamControlMessage, VolumeBits};
use crate::pool::PoolView;

verus! {

/// Where one playback stands.
#[derive(Clone, Copy, Debug, PartialEq, Eq, Structural)]
pub enum StreamState {
    /// The backend session is being built.
    Starting,
    Playing,
    Paused,
    /// The backend ran out of samples.
    Finished,
    /// A Stop was honoured, or the session could not be built.
    Stopped,
}

/// What a worker observes.
#[derive(Clone, Copy, Debug, PartialEq, Eq, Structural)]
pub enum WorkerEvent {
    /// The buffer decoded and the backend session exists.
    Ready,
    /// The buffer could not be decoded or the session could not be built.
    StartFailed,
    /// A control message from the pool.
    Control(StreamControlMessage),
    /// The backend reports that no samples are left.
    Exhausted,
}

/// What the worker does to its backend session.
#[derive(Clone, Copy, Debug, PartialEq, Eq, Structural)]
pub enum BackendAction {
    Nothing,
    /// Apply the sound's volume and the rate, then start playback.
    Start,
    Halt,
    Suspend,
    Resume,
    SetVolume(VolumeBits),
}

/// The result of one event: the next state, the action on the backend, and
/// whether the pool must now be told that the stream ended.
#[derive(Clone, Copy, Debug, PartialEq, Eq, Structural)]
pub struct WorkerStep {
    pub next: StreamState,
    pub action: BackendAction,
    pub notify: bool,
}

pub open spec fn is_terminal(s: StreamState) -> bool {
    s is Finished || s is Stopped
}

/// Next state and backend action for each state and event; pairs that the
/// table does not name leave the state as it is and do nothing.
pub open spec fn transition(state: StreamState, event: WorkerEvent) -> (StreamState, BackendAction) {
    match (state, event) {
        (StreamState::Starting, WorkerEvent::Ready) => (StreamState::Playing, BackendAction::Start),
        (StreamState::Starting, WorkerEvent::StartFailed) => (StreamState::Stopped, BackendAction::Nothing),
        (StreamState::Playing, WorkerEvent::Control(StreamControlMessage::Stop)) => (
            StreamState::Stopped,
            BackendAction::Halt,
        ),
        (StreamState::Playing, WorkerEvent::Control(StreamControlMessage::Pause)) => (
            StreamState::Paused,
            BackendAction::Suspend,
        ),
        (StreamState::Playing, WorkerEvent::Control(StreamControlMessage::SetVolume(v))) => (
            StreamState::Playing,
            BackendAction::SetVolume(v),
        ),
        (StreamState::Playing, WorkerEvent::Exhausted) => (StreamState::Finished, BackendAction::Nothing),
        (StreamState::Paused, WorkerEvent::Control(StreamControlMessage::Resume)) => (
            StreamState::Playing,
            BackendAction::Resume,
        ),
        (StreamState::Paused, WorkerEvent::Control(StreamControlMessage::Stop)) => (
            StreamState::Stopped,
            BackendAction::Halt,
        ),
        (StreamState::Paused, WorkerEvent::Control(StreamControlMessage::SetVolume(v))) => (
            StreamState::Paused,
            BackendAction::SetVolume(v),
        ),
        (StreamState::Paused, WorkerEvent::Exhausted) => (StreamState::Finished, BackendAction::Nothing),
        _ => (state, BackendAction::Nothing),
    }
}

/// Advances a stream by one event. The pool is to be notified exactly when
/// the stream enters a terminal state.
pub fn step(state: StreamState, event: WorkerEvent) -> (r: WorkerStep)
    ensures
        r.next == transition(state, event).0,
        r.action == transition(state, event).1,
        r.notify == (!is_terminal(state) && is_terminal(r.next)),
{
    let (next, action) = match (state, event) {
        (StreamState::Starting, WorkerEvent::Ready) => (StreamState::Playing, BackendAction::Start),
        (StreamState::Starting, WorkerEvent::StartFailed) => (StreamState::Stopped, BackendAction::Nothing),
        (StreamState::Playing, WorkerEvent::Control(StreamControlMessage::Stop)) => (
            StreamState::Stopped,
            BackendAction::Halt,
        ),
        (StreamState::Playing, WorkerEvent::Control(StreamControlMessage::Pause)) => (
            StreamState::Paused,
            BackendAction::Suspend,
        ),
        (StreamState::Playing, WorkerEvent::Control(StreamControlMessage::SetVolume(v))) => (
            StreamState::Playing,
            BackendAction::SetVolume(v),
        ),
        (StreamState::Playing, WorkerEvent::Exhausted) => (StreamState::Finished, BackendAction::Nothing),
        (StreamState::Paused, WorkerEvent::Control(StreamControlMessage::Resume)) => (
            StreamState::Playing,
            BackendAction::Resume,
        ),
        (StreamState::Paused, WorkerEvent::Control(StreamControlMessage::Stop)) => (
            StreamState::Stopped,
            BackendAction::Halt,
        ),
        (StreamState::Paused, WorkerEvent::Control(StreamControlMessage::SetVolume(v))) => (
            StreamState::Paused,
            BackendAction::SetVolume(v),
        ),
        (StreamState::Paused, WorkerEvent::Exhausted) => (StreamState::Finished, BackendAction::Nothing),
        _ => (state, BackendAction::Nothing),
    };
    let was_terminal = match state {
        StreamState::Finished | StreamState::Stopped => true,
        _ => false,
    };
    let now_terminal = match next {
        StreamState::Finished | StreamState::Stopped => true,
        _ => false,
    };
    WorkerStep { next: next, action: action, notify: !was_terminal && now_terminal }
}

/// Whether the worker is done and must leave its loop.
pub fn is_done(state: StreamState) -> (r: bool)
    ensures
        r == is_terminal(state),
{
    match state {
        StreamState::Finished | StreamState::Stopped => true,
        _ => false,
    }
}

/// A playing or paused stream whose backend runs dry ends as Finished and
/// reports it; the pool's handling of that report (`finish_stream`, which
/// leaves `after.streams == before.streams.remove(stream_id)`) drops it from
/// the registry.
pub proof fn lemma_exhaustion_reclaims(
    state: StreamState,
    stream_id: u32,
    before: PoolView,
    after: PoolView,
)
    requires
        state is Playing || state is Paused,
        after.streams == before.streams.remove(stream_id),
    ensures
        transition(state, WorkerEvent::Exhausted).0 is Finished,
        !is_terminal(state) && is_terminal(transition(state, WorkerEvent::Exhausted).0),
        !after.streams.contains_key(stream_id),
{
}

/// A stream that is not yet terminal and receives Stop ends as Stopped,
/// halts its backend, and reports its end.
pub proof fn lemma_stop_ends_stream(state: StreamState)
    requires
        state is Playing || state is Paused,
    ensures
        transition(state, WorkerEvent::Control(StreamControlMessage::Stop)) == (
            StreamState::Stopped,
            BackendAction::Halt,
        ),
        !is_terminal(state),
{
}

/// A terminal stream stays where it is and does nothing, whatever happens.
pub proof fn lemma_terminal_is_final(state: StreamState, event: WorkerEvent)
    requires
        is_terminal(state),
    ensures
        transition(state, event) == (state, BackendAction::Nothing),
{
}

} // verus!
