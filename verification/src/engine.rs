//! The playback engine: a playlist cursor and a track slot, orchestrated so
//! that one buffer-fill call can straddle a track boundary.
//!
//! Decoding and the byte buffer's consumer live outside the library, so a
//! fill call is a short dialogue: the engine says what to do next
//! ([`AppService::plan_fill`]), the shell decodes or pulls samples, and the
//! engine takes each produced chunk into the output buffer
//! ([`AppService::play_chunk`]) and decides whether to advance to the next
//! track ([`AppService::next_after_short`]). The decisions and the buffer
//! arithmetic are verified; only the pull from the decoder is not.

use vstd::prelude::*;

use crate::codec::le_bytes;
use crate::codec::write_le_bytes;
use crate::errors::PlayerError;
use crate::player_queue::PlayerQueue;
use crate::slot::Slot;
use crate::wrap_index;

verus! {

/// What a fill call must do first.
#[derive(Debug)]
pub enum FillPlan {
    /// A source is loaded: pull samples from it.
    PullCurrent,
    /// The slot is empty and this identifier stands at the current index:
    /// decode it, load it, then pull.
    LoadTrack(String),
    /// The slot is empty and nothing is queued at the current index: report
    /// zero samples.
    Idle,
}

/// What follows a fill that came up short of its demand.
#[derive(Debug)]
pub enum Advance {
    /// No next track: return the partial count, the queue is exhausted.
    Done(usize),
    /// The cursor moved circularly forward to this identifier: decode it,
    /// load it, and fill the remainder of the same buffer.
    NextTrack(String),
}

/// The playback engine's state: the durable playlist, the current queue
/// index, and the slot holding at most one decoded track.
pub struct AppService {
    /// The durable playlist. Mutations go through `PlayerQueue`'s verified
    /// methods, so the shell may enqueue and reorder directly.
    pub playlist: PlayerQueue,
    /// The current queue index (the playback cursor).
    pub index: usize,
    /// The slot holding at most one decoded track.
    pub slot: Slot,
}

/// A boundary-spanning fill assembles exactly the two serialized chunks.
///
/// When the exhausted track yields `first` and the freshly loaded next
/// track yields `second`, together meeting the buffer's demand, the two
/// `play_chunk` writes (the first at sample offset zero, the second just
/// past it) leave the buffer holding the little-endian bytes of the tail
/// of the old track followed by the head of the new one, and nothing
/// else.
pub proof fn lemma_boundary_fill(buf0: Seq<u8>, first: Seq<i16>, second: Seq<i16>)
    requires
        2 * first.len() + 2 * second.len() == buf0.len(),
    ensures
        ({
            let buf1 = buf0.take(0) + le_bytes(first) + Seq::new(
                (buf0.len() - 2 * first.len()) as nat,
                (|i: int| 0u8),
            );
            let buf2 = buf1.take(2 * first.len() as int) + le_bytes(second) + Seq::new(
                (buf1.len() - 2 * first.len() - 2 * second.len()) as nat,
                (|i: int| 0u8),
            );
            buf2 == le_bytes(first + second) && buf2.len() == buf0.len()
        }),
{
    let buf1 = buf0.take(0) + le_bytes(first) + Seq::new(
        (buf0.len() - 2 * first.len()) as nat,
        (|i: int| 0u8),
    );
    let buf2 = buf1.take(2 * first.len() as int) + le_bytes(second) + Seq::new(
        (buf1.len() - 2 * first.len() - 2 * second.len()) as nat,
        (|i: int| 0u8),
    );
    assert(buf1.take(2 * first.len() as int) =~= le_bytes(first));
    crate::codec::lemma_le_bytes_concat(first, second);
    assert(buf2 =~= le_bytes(first + second));
}

impl AppService {
    /// The current queue index.
    pub open spec fn cursor(self) -> int {
        self.index as int
    }

    /// The slot's state.
    pub open spec fn slot_view(self) -> Slot {
        self.slot
    }

    /// A fresh engine over `queue`, at index zero with an empty slot.
    pub fn new(queue: PlayerQueue) -> (s: AppService)
        ensures
            s.playlist == queue,
            s.cursor() == 0,
            !s.slot_view().is_loaded(),
            s.slot_view().duration() == 0,
            s.slot_view().position() == 0,
    {
        AppService { playlist: queue, index: 0, slot: Slot::new() }
    }

    /// Read the current queue index back.
    pub fn current_index(&self) -> (i: usize)
        ensures
            i == self.cursor(),
    {
        self.index
    }

    /// Decide what a fill call must do first: pull from a loaded source, load
    /// the entry at the current index, or idle when nothing is queued there.
    pub fn plan_fill(&self) -> (p: FillPlan)
        ensures
            self.slot_view().is_loaded() ==> p is PullCurrent,
            !self.slot_view().is_loaded() && self.cursor() < self.playlist@.len() ==> {
                &&& p matches FillPlan::LoadTrack(id)
                &&& id@ == self.playlist@[self.cursor()]
            },
            !self.slot_view().is_loaded() && self.cursor() >= self.playlist@.len() ==> p is Idle,
    {
        if self.slot.has_source() {
            FillPlan::PullCurrent
        } else {
            match self.playlist.get_at(self.index) {
                Ok(id) => FillPlan::LoadTrack(id),
                Err(_) => FillPlan::Idle,
            }
        }
    }

    /// Load a freshly decoded track of the given duration into the slot,
    /// replacing whatever was there.
    pub fn load_track(&mut self, duration_nanos: u64)
        ensures
            final(self).playlist == old(self).playlist,
            final(self).cursor() == old(self).cursor(),
            final(self).slot_view().is_loaded(),
            final(self).slot_view().duration() == duration_nanos,
            final(self).slot_view().position() == 0,
    {
        self.slot = Slot::insert(duration_nanos);
    }

    /// Take one produced chunk into the output byte buffer at the byte
    /// position of sample `sample_offset`, serializing each sample as a
    /// little-endian byte pair and zero-filling every byte after the chunk:
    /// the engine serializes a whole zero-initialized same-length sample
    /// buffer, so a short fill leaves silence, never stale bytes. Returns the
    /// total sample count up to and including this chunk; fails with
    /// `NoSourceLoaded` on an empty slot.
    pub fn play_chunk(
        &mut self,
        chunk: &Vec<i16>,
        new_position_nanos: u64,
        out: &mut Vec<u8>,
        sample_offset: usize,
    ) -> (r: Result<usize, PlayerError>)
        requires
            old(out)@.len() % 2 == 0,
            2 * sample_offset + 2 * chunk@.len() <= old(out)@.len(),
        ensures
            final(out)@.len() == old(out)@.len(),
            final(self).playlist == old(self).playlist,
            final(self).cursor() == old(self).cursor(),
            !old(self).slot_view().is_loaded() ==> {
                &&& r == Err::<usize, PlayerError>(PlayerError::NoSourceLoaded)
                &&& *final(self) == *old(self)
                &&& final(out)@ == old(out)@
            },
            old(self).slot_view().is_loaded() ==> {
                &&& r == Ok::<usize, PlayerError>((sample_offset + chunk@.len()) as usize)
                &&& final(out)@ == old(out)@.take(2 * sample_offset as int) + le_bytes(chunk@)
                    + Seq::new(
                    (old(out)@.len() - 2 * sample_offset - 2 * chunk@.len()) as nat,
                    (|i: int| 0u8),
                )
                &&& final(self).slot_view().is_loaded()
                &&& final(self).slot_view().duration() == old(self).slot_view().duration()
                &&& final(self).slot_view().position() == new_position_nanos
            },
    {
        let out_len: usize = out.len();
        proof {
            assert(2 * sample_offset + 2 * chunk@.len() <= out_len);
        }
        // the same-length sample buffer covering everything past the offset
        let rest: usize = (out_len - 2 * sample_offset) / 2;
        let mut binding: Vec<i16> = vec![0i16; rest];
        match self.slot.play(chunk, new_position_nanos, &mut binding) {
            Err(e) => Err(e),
            Ok(count) => {
                proof {
                    assert(binding@ =~= chunk@ + Seq::new(
                        (rest - chunk@.len()) as nat,
                        (|i: int| 0i16),
                    ));
                }
                write_le_bytes(&binding, out, sample_offset);
                proof {
                    crate::codec::lemma_le_bytes_concat(
                        chunk@,
                        Seq::new((rest - chunk@.len()) as nat, (|i: int| 0i16)),
                    );
                    crate::codec::lemma_le_bytes_zeros((rest - chunk@.len()) as nat);
                    assert(out@ =~= old(out)@.take(2 * sample_offset as int) + le_bytes(chunk@)
                        + Seq::new(
                        (old(out)@.len() - 2 * sample_offset - 2 * chunk@.len()) as nat,
                        (|i: int| 0u8),
                    ));
                }
                Ok(sample_offset + count)
            },
        }
    }

    /// After a fill that produced fewer samples than demanded: eject the
    /// exhausted source and ask the playlist for the circular successor of
    /// the current index. If one exists the cursor advances to it and the
    /// caller loads it and fills the remainder of the same buffer; otherwise
    /// the partial count stands and no error is raised.
    pub fn next_after_short(&mut self, written: usize) -> (a: Advance)
        ensures
            final(self).playlist == old(self).playlist,
            !final(self).slot_view().is_loaded(),
            old(self).cursor() >= old(self).playlist@.len() ==> {
                &&& a matches Advance::Done(w) && w == written
                &&& final(self).cursor() == old(self).cursor()
            },
            old(self).playlist@.len() == 0 ==> {
                &&& a matches Advance::Done(w) && w == written
                &&& final(self).cursor() == old(self).cursor()
            },
            old(self).cursor() < old(self).playlist@.len() ==> {
                &&& final(self).cursor() == wrap_index(
                    old(self).cursor(),
                    1,
                    old(self).playlist@.len() as int,
                )
                &&& a matches Advance::NextTrack(id)
                &&& id@ == old(self).playlist@[final(self).cursor()]
            },
    {
        self.slot = Slot::new();
        match self.playlist.get_next(self.index) {
            Ok((idx, id)) => {
                self.index = idx;
                Advance::NextTrack(id)
            },
            Err(_) => Advance::Done(written),
        }
    }
}

} // verus!
