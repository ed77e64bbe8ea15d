//! The engine's holder of at most one actively-decoding track.
//!
//! Decoding itself is done outside the library: the unverified shell opens a
//! media file, normalizes it to stereo 48 kHz, and hands each fill call the
//! chunk of samples the decoder produced together with the decoder's reported
//! playback position. The slot accounts for that state — whether a source is
//! loaded, its total duration and the elapsed position — and moves a produced
//! chunk into the caller's sample buffer.

use vstd::prelude::*;

use crate::errors::PlayerError;

verus! {

/// Zero or one loaded audio source, with its total duration and the
/// last-reported playback position, both in nanoseconds.
pub struct Slot {
    loaded: bool,
    duration_nanos: u64,
    playback_position_nanos: u64,
}

impl Slot {
    /// Whether a source is loaded.
    pub closed spec fn is_loaded(self) -> bool {
        self.loaded
    }

    /// The total duration of the loaded source, in nanoseconds.
    pub closed spec fn duration(self) -> u64 {
        self.duration_nanos
    }

    /// The last-reported playback position, in nanoseconds.
    pub closed spec fn position(self) -> u64 {
        self.playback_position_nanos
    }

    /// Whether a source is currently loaded.
    pub fn has_source(&self) -> (b: bool)
        ensures
            b == self.is_loaded(),
    {
        self.loaded
    }

    /// Read the total duration back.
    pub fn duration_nanos(&self) -> (d: u64)
        ensures
            d == self.duration(),
    {
        self.duration_nanos
    }

    /// Read the elapsed playback position back.
    pub fn playback_position_nanos(&self) -> (p: u64)
        ensures
            p == self.position(),
    {
        self.playback_position_nanos
    }

    /// An empty slot: no source, zero duration and position.
    pub fn new() -> (s: Slot)
        ensures
            !s.is_loaded(),
            s.duration() == 0,
            s.position() == 0,
    {
        Slot { loaded: false, duration_nanos: 0, playback_position_nanos: 0 }
    }

    /// A slot holding a freshly decoded source of the given total duration,
    /// positioned at the start.
    pub fn insert(duration_nanos: u64) -> (s: Slot)
        ensures
            s.is_loaded(),
            s.duration() == duration_nanos,
            s.position() == 0,
    {
        Slot { loaded: true, duration_nanos, playback_position_nanos: 0 }
    }

    /// Accept the chunk the decoder produced for one fill request: write it
    /// at the front of `out` and silence the remainder (the engine operates
    /// on a zero-initialized same-length sample buffer), record the decoder's
    /// new position, and return the count written. A count below the
    /// requested demand signals track exhaustion to the caller; an empty slot
    /// fails with `NoSourceLoaded`.
    pub fn play(&mut self, chunk: &Vec<i16>, new_position_nanos: u64, out: &mut Vec<i16>) -> (r:
        Result<usize, PlayerError>)
        requires
            chunk@.len() <= old(out)@.len(),
        ensures
            final(out)@.len() == old(out)@.len(),
            !old(self).is_loaded() ==> {
                &&& r == Err::<usize, PlayerError>(PlayerError::NoSourceLoaded)
                &&& *final(self) == *old(self)
                &&& final(out)@ == old(out)@
            },
            old(self).is_loaded() ==> {
                &&& r == Ok::<usize, PlayerError>(chunk.len())
                &&& final(out)@ == chunk@ + Seq::new(
                    (old(out)@.len() - chunk@.len()) as nat,
                    (|i: int| 0i16),
                )
                &&& final(self).is_loaded()
                &&& final(self).duration() == old(self).duration()
                &&& final(self).position() == new_position_nanos
            },
    {
        if !self.loaded {
            return Err(PlayerError::NoSourceLoaded);
        }
        let out_len: usize = out.len();
        let n = chunk.len();
        let mut j: usize = 0;
        while j < n
            invariant
                n == chunk@.len(),
                0 <= j <= n,
                n <= out_len,
                out_len == out@.len(),
                out@.len() == old(out)@.len(),
                forall|p: int| 0 <= p < j ==> out@[p] == chunk@[p],
            decreases n - j,
        {
            out.set(j, chunk[j]);
            j = j + 1;
        }
        while j < out_len
            invariant
                n == chunk@.len(),
                n <= j <= out_len,
                out_len == out@.len(),
                out@.len() == old(out)@.len(),
                forall|p: int| 0 <= p < n ==> out@[p] == chunk@[p],
                forall|p: int| n <= p < j ==> out@[p] == 0i16,
            decreases out_len - j,
        {
            out.set(j, 0i16);
            j = j + 1;
        }
        self.playback_position_nanos = new_position_nanos;
        proof {
            assert(out@ =~= chunk@ + Seq::new(
                (old(out)@.len() - chunk@.len()) as nat,
                (|i: int| 0i16),
            ));
        }
        Ok(n)
    }
}

} // verus!
