use vstd::prelude::*;
use crate::message::{
    Delivery, InternalMessages, RequestMessage, SoundId, StreamControlMessage, StreamId, VolumeBits, UNIT_BITS,
};

verus! {

/// A loaded sound as the contracts see it.
pub struct SoundView {
    pub data: Seq<u8>,
    pub volume: VolumeBits,
}

/// The pool's state: the sound store, the stream registry (stream id to the
/// sound it plays), and whether the pool still takes requests.
pub struct PoolView {
    pub sounds: Map<SoundId, SoundView>,
    pub streams: Map<StreamId, SoundId>,
    pub running: bool,
}

/// `id` is one more than the largest key of `dom`, or `1` when `dom` holds no
/// positive key.
pub open spec fn follows_max(dom: Set<u32>, id: u32) -> bool {
    &&& id >= 1
    &&& forall|k: u32| dom.contains(k) ==> k < id
    &&& id == 1 || dom.contains((id - 1) as u32)
}

/// Every live stream plays a sound of the store, and `0` names nothing.
pub open spec fn consistent(v: PoolView) -> bool {
    &&& !v.sounds.contains_key(0)
    &&& !v.streams.contains_key(0)
    &&& forall|s: StreamId| #[trigger] v.streams.contains_key(s) ==> v.sounds.contains_key(v.streams[s])
    &&& !v.running ==> v.sounds.is_empty() && v.streams.is_empty()
}

/// Stream `s` is registered and, when a sound is given, plays that sound.
pub open spec fn selected(streams: Map<StreamId, SoundId>, filter: Option<SoundId>, s: StreamId) -> bool {
    &&& streams.contains_key(s)
    &&& match filter {
        Some(sound_id) => streams[s] == sound_id,
        None => true,
    }
}

/// `out` sends `message` once to each selected stream, in increasing stream
/// id order, and to no other stream.
pub open spec fn addressed(
    streams: Map<StreamId, SoundId>,
    filter: Option<SoundId>,
    message: StreamControlMessage,
    out: Seq<Delivery>,
) -> bool {
    &&& forall|i: int| 0 <= i < out.len() ==> #[trigger] out[i].message == message
    &&& forall|i: int| 0 <= i < out.len() ==> selected(streams, filter, #[trigger] out[i].stream_id)
    &&& forall|i: int, j: int| 0 <= i < j < out.len() ==> out[i].stream_id < out[j].stream_id
    &&& forall|s: StreamId| #[trigger] selected(streams, filter, s) ==> exists|i: int|
        0 <= i < out.len() && out[i].stream_id == s
}

/// The result of a `Load` request on `old`.
pub open spec fn loaded(old: PoolView, data: Seq<u8>, new: PoolView, id: SoundId) -> bool {
    if old.running && !old.sounds.contains_key(u32::MAX) {
        &&& follows_max(old.sounds.dom(), id)
        &&& new.sounds == old.sounds.insert(id, SoundView { data: data, volume: UNIT_BITS })
        &&& new.streams == old.streams
        &&& new.running == old.running
    } else {
        id == 0 && new == old
    }
}

/// The result of a `Play` request on `old`.
pub open spec fn played(old: PoolView, sound_id: SoundId, new: PoolView, id: StreamId) -> bool {
    if old.sounds.contains_key(sound_id) && !old.streams.contains_key(u32::MAX) {
        &&& follows_max(old.streams.dom(), id)
        &&& new.streams == old.streams.insert(id, sound_id)
        &&& new.sounds == old.sounds
        &&& new.running == old.running
    } else {
        id == 0 && new == old
    }
}

/// The result of a successful `SetVolume` request on `old`.
pub open spec fn volume_set(
    old: PoolView,
    sound_id: SoundId,
    volume: VolumeBits,
    new: PoolView,
    out: Seq<Delivery>,
) -> bool {
    &&& old.sounds.contains_key(sound_id)
    &&& new.sounds == old.sounds.insert(
        sound_id,
        SoundView { data: old.sounds[sound_id].data, volume: volume },
    )
    &&& new.streams == old.streams
    &&& new.running == old.running
    &&& addressed(old.streams, Some(sound_id), StreamControlMessage::SetVolume(volume), out)
}

/// The result of a `Dispose` request on `old`.
pub open spec fn disposed(old: PoolView, new: PoolView, out: Seq<Delivery>) -> bool {
    &&& addressed(old.streams, None, StreamControlMessage::Stop, out)
    &&& !new.running
    &&& new.sounds.is_empty()
    &&& new.streams.is_empty()
}

/// The control message for one stream, or nothing when it is not registered.
pub open spec fn routed(streams: Map<StreamId, SoundId>, stream_id: StreamId, message: StreamControlMessage) -> Seq<Delivery> {
    if streams.contains_key(stream_id) {
        seq![Delivery { stream_id: stream_id, message: message }]
    } else {
        seq![]
    }
}

/// Sound ids handed out by successive loads strictly increase: each new id
/// is above every id already in the store, so none is handed out twice
/// while the pool lives.
pub proof fn lemma_load_ids_increase(
    v0: PoolView,
    d0: Seq<u8>,
    v1: PoolView,
    a: SoundId,
    d1: Seq<u8>,
    v2: PoolView,
    b: SoundId,
)
    requires
        loaded(v0, d0, v1, a),
        loaded(v1, d1, v2, b),
        a != 0,
        b != 0,
    ensures
        !v0.sounds.contains_key(a),
        forall|k: SoundId| v0.sounds.contains_key(k) ==> k < a,
        v1.sounds.contains_key(a),
        a < b,
        !v1.sounds.contains_key(b),
{
    assert(v1.sounds.contains_key(a));
}

/// Playing a sound that is not in the store yields `0` and leaves the
/// registry as it was.
pub proof fn lemma_play_unknown(old: PoolView, sound_id: SoundId, new: PoolView, id: StreamId)
    requires
        played(old, sound_id, new, id),
        !old.sounds.contains_key(sound_id),
    ensures
        id == 0,
        new.streams == old.streams,
{
}

/// Playing a loaded sound yields a positive stream id that was not
/// registered before and is registered after, while ids remain.
pub proof fn lemma_play_registers(old: PoolView, sound_id: SoundId, new: PoolView, id: StreamId)
    requires
        played(old, sound_id, new, id),
        old.sounds.contains_key(sound_id),
        !old.streams.contains_key(u32::MAX),
    ensures
        id > 0,
        !old.streams.contains_key(id),
        new.streams.contains_key(id),
        new.streams[id] == sound_id,
{
}

/// A control request for a stream that is not registered sends nothing;
/// the registry is left as it was, as `stop`, `pause` and `resume` only read
/// the pool.
pub proof fn lemma_unknown_stream_untouched(
    streams: Map<StreamId, SoundId>,
    stream_id: StreamId,
    message: StreamControlMessage,
)
    requires
        !streams.contains_key(stream_id),
    ensures
        routed(streams, stream_id, message) == Seq::<Delivery>::empty(),
{
}

/// Setting a sound's volume stores the new value for that sound and sends
/// it to every registered stream of that sound.
pub proof fn lemma_volume_reaches_streams(
    old: PoolView,
    sound_id: SoundId,
    volume: VolumeBits,
    new: PoolView,
    out: Seq<Delivery>,
    s: StreamId,
)
    requires
        volume_set(old, sound_id, volume, new, out),
        old.streams.contains_key(s),
        old.streams[s] == sound_id,
    ensures
        new.sounds[sound_id].volume == volume,
        exists|i: int|
            0 <= i < out.len() && out[i] == (Delivery {
                stream_id: s,
                message: StreamControlMessage::SetVolume(volume),
            }),
{
    assert(selected(old.streams, Some(sound_id), s));
    let i = choose|i: int| 0 <= i < out.len() && out[i].stream_id == s;
    assert(out[i].message == StreamControlMessage::SetVolume(volume));
}

/// Disposing sends Stop to every registered stream and leaves a pool that
/// takes no further request.
pub proof fn lemma_dispose_stops_all(old: PoolView, new: PoolView, out: Seq<Delivery>, s: StreamId)
    requires
        disposed(old, new, out),
        old.streams.contains_key(s),
    ensures
        !new.running,
        exists|i: int|
            0 <= i < out.len() && out[i] == (Delivery {
                stream_id: s,
                message: StreamControlMessage::Stop,
            }),
{
    assert(selected(old.streams, None, s));
    let i = choose|i: int| 0 <= i < out.len() && out[i].stream_id == s;
    assert(out[i].message == StreamControlMessage::Stop);
}

#[derive(Clone, Copy, Debug, PartialEq, Eq, Structural)]
pub enum PoolError {
    UnknownSound(SoundId),
}

/// What handling one request asks of the runtime around the pool.
pub enum Outcome {
    /// Answer the caller with this sound id (`0`: nothing was loaded).
    Loaded(SoundId),
    /// Answer the caller with this stream id (`0`: no stream was started);
    /// otherwise start a worker for it at the given rate.
    Played(StreamId, VolumeBits),
    /// Send these control messages.
    Deliver(Vec<Delivery>),
    /// The request named a sound that is not loaded.
    Failed(PoolError),
    /// Send these control messages, then stop taking requests.
    Terminate(Vec<Delivery>),
    /// The pool was disposed before this request: nothing was done.
    Ignored,
}

#[derive(Clone, Copy)]
struct StreamEntry {
    stream_id: StreamId,
    sound_id: SoundId,
}

/// The state owned by a pool's coordinating loop: the sound store and the
/// stream registry. Sound ids are `1..=n` in load order; registry entries are
/// kept in increasing stream id order.
pub struct Soundpool {
    sounds: Vec<Vec<u8>>,
    volumes: Vec<VolumeBits>,
    streams: Vec<StreamEntry>,
    registry: Ghost<Map<StreamId, SoundId>>,
    running: bool,
}

impl View for Soundpool {
    type V = PoolView;

    closed spec fn view(&self) -> PoolView {
        PoolView {
            sounds: Map::new(
                |k: u32| 1 <= k <= self.sounds.len(),
                |k: u32|
                    SoundView {
                        data: self.sounds[k - 1]@,
                        volume: self.volumes[k - 1],
                    },
            ),
            streams: self.registry@,
            running: self.running,
        }
    }
}

impl Soundpool {
    pub closed spec fn wf(&self) -> bool {
        &&& self.sounds.len() <= u32::MAX
        &&& self.volumes.len() == self.sounds.len()
        &&& forall|i: int, j: int|
            0 <= i < j < self.streams.len() ==> self.streams[i].stream_id < self.streams[j].stream_id
        &&& forall|i: int|
            0 <= i < self.streams.len() ==> {
                &&& self.registry@.contains_key(#[trigger] self.streams[i].stream_id)
                &&& self.registry@[self.streams[i].stream_id] == self.streams[i].sound_id
                &&& self.streams[i].stream_id != 0
                &&& 1 <= self.streams[i].sound_id <= self.sounds.len()
            }
        &&& forall|s: StreamId|
            #[trigger] self.registry@.contains_key(s) ==> exists|i: int|
                0 <= i < self.streams.len() && self.streams[i].stream_id == s
        &&& !self.running ==> self.sounds.len() == 0 && self.streams.len() == 0
    }

    /// A well-formed pool satisfies the data model's invariants.
    pub proof fn lemma_consistent(&self)
        requires
            self.wf(),
        ensures
            consistent(self@),
    {
        assert forall|s: StreamId| #[trigger] self@.streams.contains_key(s) implies self@.sounds.contains_key(
            self@.streams[s],
        ) by {
            let i = choose|i: int| 0 <= i < self.streams.len() && self.streams[i].stream_id == s;
            assert(self.registry@.contains_key(self.streams[i].stream_id));
        }
        if !self.running {
            assert(self@.sounds.dom() =~= Set::empty());
            assert(self@.streams.dom() =~= Set::empty()) by {
                assert forall|s: StreamId| !self@.streams.contains_key(s) by {
                    if self@.streams.contains_key(s) {
                        let i = choose|i: int|
                            0 <= i < self.streams.len() && self.streams[i].stream_id == s;
                    }
                }
            }
        }
    }

    pub fn new() -> (r: Soundpool)
        ensures
            r.wf(),
            r@.running,
            r@.sounds.is_empty(),
            r@.streams.is_empty(),
    {
        let r = Soundpool {
            sounds: Vec::new(),
            volumes: Vec::new(),
            streams: Vec::new(),
            registry: Ghost(Map::empty()),
            running: true,
        };
        assert(r@.sounds.dom() =~= Set::empty());
        r
    }

    /// Whether the pool still takes requests.
    pub fn is_running(&self) -> (r: bool)
        ensures
            r == self@.running,
    {
        self.running
    }

    /// Adds a sound to the store under a fresh id, at volume `1.0`.
    fn store(&mut self, data: Vec<u8>) -> (r: SoundId)
        requires
            old(self).wf(),
        ensures
            final(self).wf(),
            loaded(old(self)@, data@, final(self)@, r),
    {
        if !self.running || self.sounds.len() == u32::MAX as usize {
            return 0;
        }
        self.sounds.push(data);
        self.volumes.push(UNIT_BITS);
        let id = self.sounds.len() as u32;
        proof {
            let v = SoundView { data: data@, volume: UNIT_BITS };
            assert(self@.sounds =~= old(self)@.sounds.insert(id, v));
            assert(old(self)@.sounds.contains_key((id - 1) as u32) || id == 1);
        }
        id
    }

    /// Copies `buf` into the store and returns its new sound id: one more
    /// than the largest id so far, or `1` for the first sound. Returns `0`
    /// and changes nothing once the pool is disposed or the ids are used up.
    pub fn load(&mut self, buf: &[u8]) -> (r: SoundId)
        requires
            old(self).wf(),
        ensures
            final(self).wf(),
            loaded(old(self)@, buf@, final(self)@, r),
    {
        let data = vstd::slice::slice_to_vec(buf);
        self.store(data)
    }

    /// Registers a new stream of `sound_id` and returns its id: one more than
    /// the largest registered stream id, or `1` when none is registered.
    /// Returns `0` and changes nothing when the sound is not loaded. `repeat`
    /// and `rate` concern the stream's worker and are not kept here.
    pub fn play(&mut self, sound_id: SoundId, repeat: i32, rate: VolumeBits) -> (r: StreamId)
        requires
            old(self).wf(),
        ensures
            final(self).wf(),
            played(old(self)@, sound_id, final(self)@, r),
    {
        if sound_id == 0 || sound_id as usize > self.sounds.len() {
            return 0;
        }
        let n = self.streams.len();
        let stream_id: u32 = if n == 0 {
            1
        } else {
            let last = self.streams[n - 1].stream_id;
            if last == u32::MAX {
                assert(old(self)@.streams.contains_key(u32::MAX));
                return 0;
            }
            last + 1
        };
        proof {
            if n > 0 {
                assert(self.registry@.contains_key(self.streams[n - 1].stream_id));
            }
            assert forall|k: u32| old(self)@.streams.contains_key(k) implies k < stream_id by {
                let i = choose|i: int| 0 <= i < self.streams.len() && self.streams[i].stream_id == k;
                assert(i <= n - 1);
            }
        }
        self.streams.push(StreamEntry { stream_id: stream_id, sound_id: sound_id });
        self.registry = Ghost(self.registry@.insert(stream_id, sound_id));
        proof {
            assert forall|s: StreamId| #[trigger] self.registry@.contains_key(s) implies exists|i: int|
                0 <= i < self.streams.len() && self.streams[i].stream_id == s by {
                if s == stream_id {
                    assert(self.streams[n as int].stream_id == s);
                } else {
                    let i = choose|i: int|
                        0 <= i < old(self).streams.len() && old(self).streams[i].stream_id == s;
                    assert(self.streams[i].stream_id == s);
                }
            }
            assert(self@.sounds =~= old(self)@.sounds);
        }
        stream_id
    }

    /// `play` with no repeat, at normal speed.
    pub fn play_once(&mut self, sound_id: SoundId) -> (r: StreamId)
        requires
            old(self).wf(),
        ensures
            final(self).wf(),
            played(old(self)@, sound_id, final(self)@, r),
    {
        self.play(sound_id, 0, UNIT_BITS)
    }

    /// `message` for `stream_id` when that stream is registered.
    fn route(&self, stream_id: StreamId, message: StreamControlMessage) -> (r: Vec<Delivery>)
        requires
            self.wf(),
        ensures
            r@ == routed(self@.streams, stream_id, message),
    {
        let mut i: usize = 0;
        while i < self.streams.len()
            invariant
                self.wf(),
                i <= self.streams.len(),
                forall|j: int| 0 <= j < i ==> self.streams[j].stream_id != stream_id,
            decreases self.streams.len() - i,
        {
            if self.streams[i].stream_id == stream_id {
                assert(self.registry@.contains_key(self.streams[i as int].stream_id));
                let mut out = Vec::new();
                out.push(Delivery { stream_id: stream_id, message: message });
                return out;
            }
            i = i + 1;
        }
        Vec::new()
    }

    /// `message` for each selected stream, in increasing stream id order.
    fn deliver(&self, filter: Option<SoundId>, message: StreamControlMessage) -> (r: Vec<Delivery>)
        requires
            self.wf(),
        ensures
            addressed(self@.streams, filter, message, r@),
    {
        let mut out: Vec<Delivery> = Vec::new();
        let mut i: usize = 0;
        while i < self.streams.len()
            invariant
                self.wf(),
                i <= self.streams.len(),
                forall|k: int| 0 <= k < out.len() ==> #[trigger] out@[k].message == message,
                forall|k: int|
                    0 <= k < out.len() ==> selected(self@.streams, filter, #[trigger] out@[k].stream_id),
                forall|k: int, l: int| 0 <= k < l < out.len() ==> out@[k].stream_id < out@[l].stream_id,
                forall|k: int, j: int|
                    0 <= k < out.len() && i <= j < self.streams.len() ==> out@[k].stream_id
                        < self.streams[j].stream_id,
                forall|j: int|
                    0 <= j < i && selected(self@.streams, filter, #[trigger] self.streams[j].stream_id)
                        ==> exists|k: int| 0 <= k < out.len() && out@[k].stream_id == self.streams[j].stream_id,
            decreases self.streams.len() - i,
        {
            let e = self.streams[i];
            let take = match filter {
                Some(sound_id) => e.sound_id == sound_id,
                None => true,
            };
            assert(self.registry@.contains_key(self.streams[i as int].stream_id));
            let ghost before = out@;
            if take {
                out.push(Delivery { stream_id: e.stream_id, message: message });
                assert(out@[out.len() - 1].stream_id == self.streams[i as int].stream_id);
            }
            proof {
                assert forall|j: int|
                    0 <= j <= i && selected(self@.streams, filter, #[trigger] self.streams[j].stream_id)
                        implies exists|k: int| 0 <= k < out.len() && out@[k].stream_id == self.streams[j].stream_id by {
                    if j < i {
                        let k = choose|k: int| 0 <= k < before.len() && before[k].stream_id == self.streams[j].stream_id;
                        assert(out@[k] == before[k]);
                    } else {
                        assert(take);
                        assert(out@[out.len() - 1].stream_id == self.streams[j].stream_id);
                    }
                }
            }
            i = i + 1;
        }
        proof {
            assert forall|s: StreamId| #[trigger] selected(self@.streams, filter, s) implies exists|k: int|
                0 <= k < out.len() && out@[k].stream_id == s by {
                let j = choose|j: int| 0 <= j < self.streams.len() && self.streams[j].stream_id == s;
                assert(selected(self@.streams, filter, self.streams[j].stream_id));
            }
        }
        out
    }

    /// A Stop message for `stream_id`, or nothing when it is not registered.
    pub fn stop(&self, stream_id: StreamId) -> (r: Vec<Delivery>)
        requires
            self.wf(),
        ensures
            r@ == routed(self@.streams, stream_id, StreamControlMessage::Stop),
    {
        self.route(stream_id, StreamControlMessage::Stop)
    }

    /// A Pause message for `stream_id`, or nothing when it is not registered.
    pub fn pause(&self, stream_id: StreamId) -> (r: Vec<Delivery>)
        requires
            self.wf(),
        ensures
            r@ == routed(self@.streams, stream_id, StreamControlMessage::Pause),
    {
        self.route(stream_id, StreamControlMessage::Pause)
    }

    /// A Resume message for `stream_id`, or nothing when it is not registered.
    pub fn resume(&self, stream_id: StreamId) -> (r: Vec<Delivery>)
        requires
            self.wf(),
        ensures
            r@ == routed(self@.streams, stream_id, StreamControlMessage::Resume),
    {
        self.route(stream_id, StreamControlMessage::Resume)
    }

    /// A Stop message for every registered stream of `sound_id`.
    pub fn stop_by_sound(&self, sound_id: SoundId) -> (r: Vec<Delivery>)
        requires
            self.wf(),
        ensures
            addressed(self@.streams, Some(sound_id), StreamControlMessage::Stop, r@),
    {
        self.deliver(Some(sound_id), StreamControlMessage::Stop)
    }

    /// Sets the stored volume of `sound_id` and returns a SetVolume message
    /// for each registered stream of that sound. Fails, changing nothing,
    /// when the sound is not loaded.
    pub fn set_volume(&mut self, sound_id: SoundId, volume: VolumeBits) -> (r: Result<
        Vec<Delivery>,
        PoolError,
    >)
        requires
            old(self).wf(),
        ensures
            final(self).wf(),
            match r {
                Ok(out) => volume_set(old(self)@, sound_id, volume, final(self)@, out@),
                Err(e) => {
                    &&& e == PoolError::UnknownSound(sound_id)
                    &&& !old(self)@.sounds.contains_key(sound_id)
                    &&& final(self)@ == old(self)@
                },
            },
    {
        if sound_id == 0 || sound_id as usize > self.sounds.len() {
            return Err(PoolError::UnknownSound(sound_id));
        }
        let out = self.deliver(Some(sound_id), StreamControlMessage::SetVolume(volume));
        self.volumes.set(sound_id as usize - 1, volume);
        proof {
            let v = SoundView { data: old(self)@.sounds[sound_id].data, volume: volume };
            assert(self@.sounds =~= old(self)@.sounds.insert(sound_id, v));
            assert(self.volumes.len() == self.sounds.len());
            assert(self.streams == old(self).streams);
            assert(self.registry == old(self).registry);
        }
        Ok(out)
    }

    /// Returns a Stop message for every registered stream, empties the
    /// store and the registry, and stops taking requests.
    pub fn dispose(&mut self) -> (r: Vec<Delivery>)
        requires
            old(self).wf(),
        ensures
            final(self).wf(),
            disposed(old(self)@, final(self)@, r@),
    {
        let out = self.deliver(None, StreamControlMessage::Stop);
        self.sounds = Vec::new();
        self.volumes = Vec::new();
        self.streams = Vec::new();
        self.registry = Ghost(Map::empty());
        self.running = false;
        proof {
            assert(self@.sounds.dom() =~= Set::empty());
            assert(self@.streams.dom() =~= Set::empty());
        }
        out
    }

    /// Removes `stream_id` from the registry; returns whether it was there.
    pub fn finish_stream(&mut self, stream_id: StreamId) -> (r: bool)
        requires
            old(self).wf(),
        ensures
            final(self).wf(),
            r == old(self)@.streams.contains_key(stream_id),
            final(self)@.streams == old(self)@.streams.remove(stream_id),
            final(self)@.sounds == old(self)@.sounds,
            final(self)@.running == old(self)@.running,
    {
        let mut i: usize = 0;
        while i < self.streams.len()
            invariant
                self.wf(),
                *self == *old(self),
                i <= self.streams.len(),
                forall|j: int| 0 <= j < i ==> self.streams[j].stream_id != stream_id,
            decreases self.streams.len() - i,
        {
            if self.streams[i].stream_id == stream_id {
                let ghost before = self.streams@;
                assert(self.registry@.contains_key(self.streams[i as int].stream_id));
                self.streams.remove(i);
                self.registry = Ghost(self.registry@.remove(stream_id));
                proof {
                    assert forall|j: int| 0 <= j < self.streams.len() implies self.streams[j] == if j < i {
                        before[j]
                    } else {
                        before[j + 1]
                    } by {}
                    assert forall|a: int, b: int|
                        0 <= a < b < self.streams.len() implies self.streams[a].stream_id
                        < self.streams[b].stream_id by {
                        let a0 = if a < i { a } else { a + 1 };
                        let b0 = if b < i { b } else { b + 1 };
                        assert(before[a0].stream_id < before[b0].stream_id);
                    }
                    assert forall|j: int| 0 <= j < self.streams.len() implies {
                        &&& self.registry@.contains_key(#[trigger] self.streams[j].stream_id)
                        &&& self.registry@[self.streams[j].stream_id] == self.streams[j].sound_id
                        &&& self.streams[j].stream_id != 0
                        &&& 1 <= self.streams[j].sound_id <= self.sounds.len()
                    } by {
                        let j0 = if j < i { j } else { j + 1 };
                        assert(old(self).registry@.contains_key(before[j0].stream_id));
                        if j0 < i {
                            assert(before[j0].stream_id < before[i as int].stream_id);
                        } else {
                            assert(before[i as int].stream_id < before[j0].stream_id);
                        }
                    }
                    assert forall|s: StreamId| #[trigger] self.registry@.contains_key(s) implies exists|j: int|
                        0 <= j < self.streams.len() && self.streams[j].stream_id == s by {
                        let j0 = choose|j: int| 0 <= j < before.len() && before[j].stream_id == s;
                        if j0 < i {
                            assert(self.streams[j0].stream_id == s);
                        } else {
                            assert(j0 != i);
                            assert(self.streams[j0 - 1].stream_id == s);
                        }
                    }
                    assert(self@.sounds =~= old(self)@.sounds);
                }
                return true;
            }
            i = i + 1;
        }
        proof {
            assert(!old(self)@.streams.contains_key(stream_id)) by {
                if old(self)@.streams.contains_key(stream_id) {
                    let j = choose|j: int| 0 <= j < self.streams.len() && self.streams[j].stream_id == stream_id;
                }
            }
            assert(self.registry@.remove(stream_id) =~= self.registry@);
        }
        false
    }

    /// Handles a notice from a stream worker.
    pub fn handle_internal(&mut self, message: InternalMessages) -> (r: bool)
        requires
            old(self).wf(),
        ensures
            final(self).wf(),
            match message {
                InternalMessages::StreamFinished(stream_id) => {
                    &&& r == old(self)@.streams.contains_key(stream_id)
                    &&& final(self)@.streams == old(self)@.streams.remove(stream_id)
                    &&& final(self)@.sounds == old(self)@.sounds
                    &&& final(self)@.running == old(self)@.running
                },
            },
    {
        match message {
            InternalMessages::StreamFinished(stream_id) => self.finish_stream(stream_id),
        }
    }

    /// The encoded bytes of `sound_id`, when it is loaded.
    pub fn sound_data(&self, sound_id: SoundId) -> (r: Option<&Vec<u8>>)
        requires
            self.wf(),
        ensures
            match r {
                Some(d) => self@.sounds.contains_key(sound_id) && d@ == self@.sounds[sound_id].data,
                None => !self@.sounds.contains_key(sound_id),
            },
    {
        if sound_id == 0 || sound_id as usize > self.sounds.len() {
            None
        } else {
            Some(&self.sounds[sound_id as usize - 1])
        }
    }

    /// The stored volume of `sound_id`, when it is loaded.
    pub fn volume(&self, sound_id: SoundId) -> (r: Option<VolumeBits>)
        requires
            self.wf(),
        ensures
            match r {
                Some(v) => self@.sounds.contains_key(sound_id) && v == self@.sounds[sound_id].volume,
                None => !self@.sounds.contains_key(sound_id),
            },
    {
        if sound_id == 0 || sound_id as usize > self.sounds.len() {
            None
        } else {
            Some(self.volumes[sound_id as usize - 1])
        }
    }

    /// The sound that `stream_id` plays, when it is registered.
    pub fn stream_sound(&self, stream_id: StreamId) -> (r: Option<SoundId>)
        requires
            self.wf(),
        ensures
            match r {
                Some(s) => self@.streams.contains_key(stream_id) && s == self@.streams[stream_id],
                None => !self@.streams.contains_key(stream_id),
            },
    {
        let mut i: usize = 0;
        while i < self.streams.len()
            invariant
                self.wf(),
                i <= self.streams.len(),
                forall|j: int| 0 <= j < i ==> self.streams[j].stream_id != stream_id,
            decreases self.streams.len() - i,
        {
            if self.streams[i].stream_id == stream_id {
                assert(self.registry@.contains_key(self.streams[i as int].stream_id));
                return Some(self.streams[i].sound_id);
            }
            i = i + 1;
        }
        None
    }

    /// Handles one request. Once the pool is disposed every request is
    /// ignored and changes nothing.
    pub fn handle_request(&mut self, request: RequestMessage) -> (r: Outcome)
        requires
            old(self).wf(),
        ensures
            final(self).wf(),
            !old(self)@.running ==> r is Ignored && final(self)@ == old(self)@,
            old(self)@.running ==> match request {
                RequestMessage::Load(m) => r matches Outcome::Loaded(id) && loaded(
                    old(self)@,
                    m.data@,
                    final(self)@,
                    id,
                ),
                RequestMessage::Play(c) => r matches Outcome::Played(id, rate) && rate == c.rate
                    && played(old(self)@, c.sound_id, final(self)@, id),
                RequestMessage::Stop(s) => r matches Outcome::Deliver(out) && out@ == routed(
                    old(self)@.streams,
                    s,
                    StreamControlMessage::Stop,
                ) && final(self)@ == old(self)@,
                RequestMessage::StopBySound(sound_id) => r matches Outcome::Deliver(out) && addressed(
                    old(self)@.streams,
                    Some(sound_id),
                    StreamControlMessage::Stop,
                    out@,
                ) && final(self)@ == old(self)@,
                RequestMessage::Pause(s) => r matches Outcome::Deliver(out) && out@ == routed(
                    old(self)@.streams,
                    s,
                    StreamControlMessage::Pause,
                ) && final(self)@ == old(self)@,
                RequestMessage::Resume(s) => r matches Outcome::Deliver(out) && out@ == routed(
                    old(self)@.streams,
                    s,
                    StreamControlMessage::Resume,
                ) && final(self)@ == old(self)@,
                RequestMessage::SetVolume(sound_id, volume) => if old(self)@.sounds.contains_key(
                    sound_id,
                ) {
                    r matches Outcome::Deliver(out) && volume_set(
                        old(self)@,
                        sound_id,
                        volume,
                        final(self)@,
                        out@,
                    )
                } else {
                    r matches Outcome::Failed(e) && e == PoolError::UnknownSound(sound_id)
                        && final(self)@ == old(self)@
                },
                RequestMessage::Dispose => r matches Outcome::Terminate(out) && disposed(
                    old(self)@,
                    final(self)@,
                    out@,
                ),
            },
    {
        if !self.running {
            return Outcome::Ignored;
        }
        match request {
            RequestMessage::Load(m) => Outcome::Loaded(self.store(m.data)),
            RequestMessage::Play(c) => Outcome::Played(self.play(c.sound_id, c.repeat, c.rate), c.rate),
            RequestMessage::Stop(s) => Outcome::Deliver(self.stop(s)),
            RequestMessage::StopBySound(sound_id) => Outcome::Deliver(self.stop_by_sound(sound_id)),
            RequestMessage::Pause(s) => Outcome::Deliver(self.pause(s)),
            RequestMessage::Resume(s) => Outcome::Deliver(self.resume(s)),
            RequestMessage::SetVolume(sound_id, volume) => match self.set_volume(sound_id, volume) {
                Ok(out) => Outcome::Deliver(out),
                Err(e) => Outcome::Failed(e),
            },
            RequestMessage::Dispose => Outcome::Terminate(self.dispose()),
        }
    }
}

} // verus!
