//! The human-readable record beside a media file.
//!
//! The sidecar metadata file is read and parsed outside the library; the
//! extracted fields come in as plain optional values and are validated here:
//! a record exists exactly when all three fields were present and well-typed.

use vstd::prelude::*;

verus! {

/// Title, artist and duration (whole seconds) of one track.
#[derive(Debug)]
pub struct TrackInfo {
    /// The track's title.
    pub title: String,
    /// The artist (the channel that published the track).
    pub artist: String,
    /// The total duration in whole seconds.
    pub duration_secs: u64,
}

impl TrackInfo {
    /// Assemble a record from the fields a sidecar file yielded: `Some`
    /// exactly when every field was present.
    pub fn new(title: Option<String>, artist: Option<String>, duration_secs: Option<u64>) -> (r:
        Option<TrackInfo>)
        ensures
            r is Some <==> (title is Some && artist is Some && duration_secs is Some),
            r matches Some(t) ==> {
                &&& title matches Some(ti) && t.title == ti
                &&& artist matches Some(ar) && t.artist == ar
                &&& duration_secs matches Some(d) && t.duration_secs == d
            },
    {
        match (title, artist, duration_secs) {
            (Some(t), Some(a), Some(d)) => Some(
                TrackInfo { title: t, artist: a, duration_secs: d },
            ),
            _ => None,
        }
    }
}

} // verus!
