use soundpool::message::{
    Delivery, InternalMessages, LoadMessage, PlayContent, RequestMessage, StreamControlMessage,
    UNIT_BITS,
};
use soundpool::pool::{Outcome, PoolError, Soundpool};
use soundpool::worker::{step, StreamState, WorkerEvent};

fn wav_bytes() -> Vec<u8> {
    let mut b = b"RIFF".to_vec();
    b.extend_from_slice(&[36, 0, 0, 0]);
    b.extend_from_slice(b"WAVEfmt ");
    b
}

fn deliveries(o: Outcome) -> Vec<Delivery> {
    match o {
        Outcome::Deliver(d) => d,
        _ => panic!("expected control messages"),
    }
}

#[test]
fn load_ids_increase_from_one() {
    let mut p = Soundpool::new();
    let mut last = 0u32;
    for i in 1..=5u32 {
        let id = p.load(&[i as u8, 1, 2]);
        assert_eq!(id, i);
        assert!(id > last);
        last = id;
    }
}

#[test]
fn load_copies_bytes_at_unit_volume() {
    let mut p = Soundpool::new();
    let data = wav_bytes();
    let id = p.load(&data);
    assert_eq!(p.sound_data(id), Some(&data));
    assert_eq!(p.volume(id), Some(1.0f32.to_bits()));
    assert_eq!(p.sound_data(id + 1), None);
    assert_eq!(p.sound_data(0), None);
}

#[test]
fn load_empty_buffer_is_accepted() {
    let mut p = Soundpool::new();
    assert_eq!(p.load(&[]), 1);
    assert_eq!(p.sound_data(1), Some(&Vec::new()));
}

#[test]
fn play_unknown_sound_returns_zero() {
    let mut p = Soundpool::new();
    assert_eq!(p.play(999, 0, UNIT_BITS), 0);
    assert_eq!(p.stream_sound(1), None);
    p.load(&[1]);
    assert_eq!(p.play(2, 0, UNIT_BITS), 0);
    assert_eq!(p.play(0, 0, UNIT_BITS), 0);
    assert_eq!(p.stream_sound(1), None);
}

#[test]
fn play_allocates_fresh_stream_ids() {
    let mut p = Soundpool::new();
    p.load(&[1]);
    p.load(&[2]);
    assert_eq!(p.play(1, 0, UNIT_BITS), 1);
    assert_eq!(p.play(2, 0, UNIT_BITS), 2);
    assert_eq!(p.play_once(1), 3);
    assert_eq!(p.stream_sound(1), Some(1));
    assert_eq!(p.stream_sound(2), Some(2));
    assert_eq!(p.stream_sound(3), Some(1));
}

#[test]
fn stream_ids_follow_the_largest_registered() {
    let mut p = Soundpool::new();
    p.load(&[1]);
    assert_eq!(p.play(1, 0, UNIT_BITS), 1);
    assert_eq!(p.play(1, 0, UNIT_BITS), 2);
    assert_eq!(p.play(1, 0, UNIT_BITS), 3);
    assert!(p.finish_stream(2));
    assert_eq!(p.play(1, 0, UNIT_BITS), 4);
    assert!(p.finish_stream(4));
    assert_eq!(p.play(1, 0, UNIT_BITS), 4);
}

#[test]
fn controls_on_unknown_stream_do_nothing() {
    let mut p = Soundpool::new();
    p.load(&[1]);
    p.play(1, 0, UNIT_BITS);
    assert!(p.stop(7).is_empty());
    assert!(p.pause(7).is_empty());
    assert!(p.resume(7).is_empty());
    assert_eq!(p.stream_sound(1), Some(1));
    assert_eq!(p.stream_sound(7), None);
}

#[test]
fn controls_reach_a_registered_stream() {
    let mut p = Soundpool::new();
    p.load(&[1]);
    p.play(1, 0, UNIT_BITS);
    let one = |m| vec![Delivery { stream_id: 1, message: m }];
    assert_eq!(p.stop(1), one(StreamControlMessage::Stop));
    assert_eq!(p.pause(1), one(StreamControlMessage::Pause));
    assert_eq!(p.resume(1), one(StreamControlMessage::Resume));
}

#[test]
fn stop_by_sound_selects_matching_streams() {
    let mut p = Soundpool::new();
    p.load(&[1]);
    p.load(&[2]);
    p.play(1, 0, UNIT_BITS);
    p.play(2, 0, UNIT_BITS);
    p.play(1, 0, UNIT_BITS);
    let d = p.stop_by_sound(1);
    assert_eq!(
        d,
        vec![
            Delivery { stream_id: 1, message: StreamControlMessage::Stop },
            Delivery { stream_id: 3, message: StreamControlMessage::Stop },
        ]
    );
    assert!(p.stop_by_sound(5).is_empty());
}

#[test]
fn set_volume_updates_store_and_streams() {
    let mut p = Soundpool::new();
    p.load(&[1]);
    p.load(&[2]);
    p.play(1, 0, UNIT_BITS);
    p.play(2, 0, UNIT_BITS);
    p.play(1, 0, UNIT_BITS);
    let half = 0.5f32.to_bits();
    let d = p.set_volume(1, half).unwrap();
    let m = StreamControlMessage::SetVolume(half);
    assert_eq!(
        d,
        vec![Delivery { stream_id: 1, message: m }, Delivery { stream_id: 3, message: m }]
    );
    assert_eq!(p.volume(1), Some(half));
    assert_eq!(p.volume(2), Some(UNIT_BITS));
    assert_eq!(p.sound_data(1), Some(&vec![1u8]));
}

#[test]
fn set_volume_without_streams_still_stores() {
    let mut p = Soundpool::new();
    p.load(&[1]);
    let v = 0.25f32.to_bits();
    assert_eq!(p.set_volume(1, v), Ok(Vec::new()));
    assert_eq!(p.volume(1), Some(v));
}

#[test]
fn set_volume_on_unknown_sound_fails() {
    let mut p = Soundpool::new();
    assert_eq!(p.set_volume(3, UNIT_BITS), Err(PoolError::UnknownSound(3)));
    assert_eq!(p.volume(3), None);
}

#[test]
fn finished_stream_leaves_the_registry() {
    let mut p = Soundpool::new();
    p.load(&[1]);
    p.play(1, 0, UNIT_BITS);
    p.play(1, 0, UNIT_BITS);
    assert!(p.handle_internal(InternalMessages::StreamFinished(1)));
    assert_eq!(p.stream_sound(1), None);
    assert_eq!(p.stream_sound(2), Some(1));
    assert!(!p.finish_stream(1));
    assert!(p.stop(1).is_empty());
}

#[test]
fn dispose_stops_every_stream() {
    let mut p = Soundpool::new();
    p.load(&[1]);
    p.load(&[2]);
    p.play(1, 0, UNIT_BITS);
    p.play(2, 0, UNIT_BITS);
    let d = p.dispose();
    assert_eq!(
        d,
        vec![
            Delivery { stream_id: 1, message: StreamControlMessage::Stop },
            Delivery { stream_id: 2, message: StreamControlMessage::Stop },
        ]
    );
    assert!(!p.is_running());
    assert_eq!(p.stream_sound(1), None);
    assert_eq!(p.sound_data(1), None);
}

#[test]
fn disposed_pool_ignores_requests() {
    let mut p = Soundpool::new();
    p.load(&[1]);
    assert!(matches!(p.handle_request(RequestMessage::Dispose), Outcome::Terminate(_)));
    assert!(matches!(
        p.handle_request(RequestMessage::Load(LoadMessage::new(vec![1]))),
        Outcome::Ignored
    ));
    assert!(matches!(
        p.handle_request(RequestMessage::Play(PlayContent::new_once(1))),
        Outcome::Ignored
    ));
    assert_eq!(p.load(&[1]), 0);
    assert_eq!(p.play(1, 0, UNIT_BITS), 0);
}

#[test]
fn handle_request_routes_each_kind() {
    let mut p = Soundpool::new();
    let rate = 1.5f32.to_bits();
    assert!(matches!(
        p.handle_request(RequestMessage::Load(LoadMessage::new(vec![9, 9]))),
        Outcome::Loaded(1)
    ));
    match p.handle_request(RequestMessage::Play(PlayContent::new(1, 0, rate))) {
        Outcome::Played(id, r) => {
            assert_eq!(id, 1);
            assert_eq!(r, rate);
        }
        _ => panic!("expected a stream"),
    }
    assert!(matches!(
        p.handle_request(RequestMessage::Play(PlayContent::new_once(4))),
        Outcome::Played(0, _)
    ));
    let pause = deliveries(p.handle_request(RequestMessage::Pause(1)));
    assert_eq!(pause, vec![Delivery { stream_id: 1, message: StreamControlMessage::Pause }]);
    let resume = deliveries(p.handle_request(RequestMessage::Resume(1)));
    assert_eq!(resume, vec![Delivery { stream_id: 1, message: StreamControlMessage::Resume }]);
    let by_sound = deliveries(p.handle_request(RequestMessage::StopBySound(1)));
    assert_eq!(by_sound, vec![Delivery { stream_id: 1, message: StreamControlMessage::Stop }]);
    assert!(matches!(
        p.handle_request(RequestMessage::SetVolume(8, UNIT_BITS)),
        Outcome::Failed(PoolError::UnknownSound(8))
    ));
}

#[test]
fn play_content_defaults() {
    let c = PlayContent::new_with_defaults(4, None, None);
    assert_eq!((c.sound_id, c.repeat, c.rate), (4, 0, 1.0f32.to_bits()));
    let c = PlayContent::new_with_defaults(4, Some(-1), Some(2.0f32.to_bits()));
    assert_eq!((c.sound_id, c.repeat, c.rate), (4, -1, 2.0f32.to_bits()));
    let c = PlayContent::new_once(6);
    assert_eq!((c.sound_id, c.repeat, c.rate), (6, 0, UNIT_BITS));
}

#[test]
fn request_names() {
    assert_eq!(RequestMessage::Dispose.name(), "Dispose");
    assert_eq!(RequestMessage::SetVolume(1, UNIT_BITS).name(), "SetVolume");
    assert_eq!(RequestMessage::StopBySound(1).name(), "StopBySound");
    assert_eq!(RequestMessage::Load(LoadMessage::new(vec![])).name(), "Load");
}

#[test]
fn end_to_end_load_play_volume_stop_dispose() {
    let mut p = Soundpool::new();
    let id = match p.handle_request(RequestMessage::Load(LoadMessage::new(wav_bytes()))) {
        Outcome::Loaded(id) => id,
        _ => panic!("expected a sound id"),
    };
    assert_eq!(id, 1);
    let stream = match p.handle_request(RequestMessage::Play(PlayContent::new(1, 0, UNIT_BITS))) {
        Outcome::Played(s, _) => s,
        _ => panic!("expected a stream id"),
    };
    assert_eq!(stream, 1);
    let mut state = step(StreamState::Starting, WorkerEvent::Ready).next;
    assert_eq!(state, StreamState::Playing);

    let half = 0.5f32.to_bits();
    let d = deliveries(p.handle_request(RequestMessage::SetVolume(1, half)));
    assert_eq!(d, vec![Delivery { stream_id: 1, message: StreamControlMessage::SetVolume(half) }]);
    assert_eq!(f32::from_bits(p.volume(1).unwrap()), 0.5);
    state = step(state, WorkerEvent::Control(d[0].message)).next;
    assert_eq!(state, StreamState::Playing);

    let d = deliveries(p.handle_request(RequestMessage::Stop(1)));
    assert_eq!(d, vec![Delivery { stream_id: 1, message: StreamControlMessage::Stop }]);
    let s = step(state, WorkerEvent::Control(d[0].message));
    assert_eq!(s.next, StreamState::Stopped);
    assert!(s.notify);
    assert!(p.handle_internal(InternalMessages::StreamFinished(1)));
    assert_eq!(p.stream_sound(1), None);

    match p.handle_request(RequestMessage::Dispose) {
        Outcome::Terminate(d) => assert!(d.is_empty()),
        _ => panic!("expected termination"),
    }
    assert!(!p.is_running());
}

#[test]
fn end_to_end_play_without_load() {
    let mut p = Soundpool::new();
    match p.handle_request(RequestMessage::Play(PlayContent::new(999, 0, UNIT_BITS))) {
        Outcome::Played(s, _) => assert_eq!(s, 0),
        _ => panic!("expected a stream answer"),
    }
    assert_eq!(p.stream_sound(1), None);
    assert!(p.stop(1).is_empty());
}
