use soundpool::message::StreamControlMessage;
use soundpool::worker::{is_done, step, BackendAction, StreamState, WorkerEvent, WorkerStep};

fn ctl(m: StreamControlMessage) -> WorkerEvent {
    WorkerEvent::Control(m)
}

#[test]
fn starting_becomes_playing() {
    let s = step(StreamState::Starting, WorkerEvent::Ready);
    assert_eq!(
        s,
        WorkerStep { next: StreamState::Playing, action: BackendAction::Start, notify: false }
    );
}

#[test]
fn failed_start_stops_and_reports() {
    let s = step(StreamState::Starting, WorkerEvent::StartFailed);
    assert_eq!(
        s,
        WorkerStep { next: StreamState::Stopped, action: BackendAction::Nothing, notify: true }
    );
}

#[test]
fn playing_transitions() {
    let p = StreamState::Playing;
    let stop = step(p, ctl(StreamControlMessage::Stop));
    assert_eq!((stop.next, stop.action, stop.notify), (StreamState::Stopped, BackendAction::Halt, true));
    let pause = step(p, ctl(StreamControlMessage::Pause));
    assert_eq!((pause.next, pause.action, pause.notify), (StreamState::Paused, BackendAction::Suspend, false));
    let v = 0.5f32.to_bits();
    let vol = step(p, ctl(StreamControlMessage::SetVolume(v)));
    assert_eq!((vol.next, vol.action), (StreamState::Playing, BackendAction::SetVolume(v)));
    let dry = step(p, WorkerEvent::Exhausted);
    assert_eq!((dry.next, dry.action, dry.notify), (StreamState::Finished, BackendAction::Nothing, true));
    let resume = step(p, ctl(StreamControlMessage::Resume));
    assert_eq!((resume.next, resume.action), (StreamState::Playing, BackendAction::Nothing));
}

#[test]
fn paused_transitions() {
    let p = StreamState::Paused;
    let resume = step(p, ctl(StreamControlMessage::Resume));
    assert_eq!((resume.next, resume.action, resume.notify), (StreamState::Playing, BackendAction::Resume, false));
    let stop = step(p, ctl(StreamControlMessage::Stop));
    assert_eq!((stop.next, stop.action, stop.notify), (StreamState::Stopped, BackendAction::Halt, true));
    let v = 0.0f32.to_bits();
    let vol = step(p, ctl(StreamControlMessage::SetVolume(v)));
    assert_eq!((vol.next, vol.action), (StreamState::Paused, BackendAction::SetVolume(v)));
    let dry = step(p, WorkerEvent::Exhausted);
    assert_eq!((dry.next, dry.notify), (StreamState::Finished, true));
}

#[test]
fn terminal_states_stay_silent() {
    for t in [StreamState::Finished, StreamState::Stopped] {
        assert!(is_done(t));
        for e in [WorkerEvent::Ready, WorkerEvent::Exhausted, ctl(StreamControlMessage::Resume)] {
            let s = step(t, e);
            assert_eq!(s, WorkerStep { next: t, action: BackendAction::Nothing, notify: false });
        }
    }
    assert!(!is_done(StreamState::Playing));
    assert!(!is_done(StreamState::Starting));
}
