//! A queue-driven audio playback library.
//!
//! The library keeps an ordered playlist of track identifiers, resolves
//! next/previous references circularly, and fills caller-supplied sample
//! buffers across track boundaries. Persistence follows a stage-then-commit
//! protocol so that a crash between the two steps never corrupts the
//! previously committed playlist.

pub mod acquire;
pub mod codec;
pub mod config;
pub mod durable;
pub mod engine;
pub mod errors;
pub mod player_queue;
pub mod slot;
pub mod track_info;

use vstd::prelude::*;

verus! {

/// Circularly wrapped index arithmetic: the target of a relative lookup.
pub open spec fn wrap_index(i: int, step: int, len: int) -> int
    recommends
        len > 0,
{
    (i + step) % len
}

} // verus!
