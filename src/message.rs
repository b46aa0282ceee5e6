use vstd::prelude::*;

verus! {

/// Identifier of a loaded sound; `0` never names one.
pub type SoundId = u32;

/// Identifier of a playback stream; `0` never names one.
pub type StreamId = u32;

/// A volume or a playback rate, carried as the bit pattern of an IEEE-754
/// single-precision number. The pool only stores and forwards such values;
/// the audio backend is the one that reads them as numbers.
pub type VolumeBits = u32;

/// Bit pattern of the single-precision number `1.0`: the volume a sound is
/// loaded with, and the rate of a plain playback.
pub const UNIT_BITS: u32 = 0x3f80_0000;

/// Request to add an encoded audio buffer to the sound store.
pub struct LoadMessage {
    pub data: Vec<u8>,
}

impl LoadMessage {
    pub fn new(data: Vec<u8>) -> (r: LoadMessage)
        ensures
            r.data@ == data@,
    {
        LoadMessage { data: data }
    }
}

/// Request to start one playback of a loaded sound.
pub struct PlayContent {
    pub sound_id: SoundId,
    /// Accepted and carried along; looping is not performed.
    pub repeat: i32,
    pub rate: VolumeBits,
}

impl PlayContent {
    pub fn new(sound_id: SoundId, repeat: i32, rate: VolumeBits) -> (r: PlayContent)
        ensures
            r.sound_id == sound_id,
            r.repeat == repeat,
            r.rate == rate,
    {
        PlayContent { sound_id: sound_id, repeat: repeat, rate: rate }
    }

    /// A missing `repeat` is `0`, a missing `rate` is `1.0`.
    pub fn new_with_defaults(sound_id: SoundId, repeat: Option<i32>, rate: Option<VolumeBits>) -> (r:
        PlayContent)
        ensures
            r.sound_id == sound_id,
            r.repeat == (match repeat {
                Some(n) => n,
                None => 0i32,
            }),
            r.rate == (match rate {
                Some(x) => x,
                None => UNIT_BITS,
            }),
    {
        let repeat = match repeat {
            Some(n) => n,
            None => 0,
        };
        let rate = match rate {
            Some(x) => x,
            None => UNIT_BITS,
        };
        PlayContent::new(sound_id, repeat, rate)
    }

    /// One playback at normal speed.
    pub fn new_once(sound_id: SoundId) -> (r: PlayContent)
        ensures
            r.sound_id == sound_id,
            r.repeat == 0,
            r.rate == UNIT_BITS,
    {
        PlayContent::new_with_defaults(sound_id, None, None)
    }
}

/// What a caller can ask of a pool. Results of `Load` and `Play` are returned
/// by the pool's request handler rather than through a callback.
pub enum RequestMessage {
    Load(LoadMessage),
    Play(PlayContent),
    Stop(StreamId),
    StopBySound(SoundId),
    Pause(StreamId),
    Resume(StreamId),
    SetVolume(SoundId, VolumeBits),
    Dispose,
}

pub open spec fn request_name(m: RequestMessage) -> Seq<char> {
    match m {
        RequestMessage::Load(_) => "Load"@,
        RequestMessage::Play(_) => "Play"@,
        RequestMessage::Stop(_) => "Stop"@,
        RequestMessage::StopBySound(_) => "StopBySound"@,
        RequestMessage::Pause(_) => "Pause"@,
        RequestMessage::Resume(_) => "Resume"@,
        RequestMessage::SetVolume(_, _) => "SetVolume"@,
        RequestMessage::Dispose => "Dispose"@,
    }
}

impl RequestMessage {
    /// The variant's name, for diagnostics.
    pub fn name(&self) -> (r: &'static str)
        ensures
            r@ == request_name(*self),
    {
        match self {
            RequestMessage::Load(_) => "Load",
            RequestMessage::Play(_) => "Play",
            RequestMessage::Stop(_) => "Stop",
            RequestMessage::StopBySound(_) => "StopBySound",
            RequestMessage::Pause(_) => "Pause",
            RequestMessage::Resume(_) => "Resume",
            RequestMessage::SetVolume(_, _) => "SetVolume",
            RequestMessage::Dispose => "Dispose",
        }
    }
}

/// Sent by a stream worker to the pool, and only by a worker.
pub enum InternalMessages {
    StreamFinished(StreamId),
}

/// Sent by the pool to the worker of one stream.
#[derive(Clone, Copy, Debug, PartialEq, Eq, Structural)]
pub enum StreamControlMessage {
    Pause,
    Resume,
    Stop,
    SetVolume(VolumeBits),
}

/// One control message addressed to one stream.
#[derive(Clone, Copy, Debug, PartialEq, Eq, Structural)]
pub struct Delivery {
    pub stream_id: StreamId,
    pub message: StreamControlMessage,
}

} // verus!
