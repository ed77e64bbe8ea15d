//! Error kinds shared by the playlist store, the track slot and the engine.

use vstd::prelude::*;

verus! {

/// What can go wrong across the library.
///
/// `OutOfRange` and `Mismatch` are recoverable conditions that drive the
/// engine's state transitions; `NoSourceLoaded` is the control signal for an
/// empty slot. `IoFailure` and `DecodeFailure` are reserved for the unverified
/// shell around the library, which maps real read/write and decode errors to
/// them before handing values in.
#[derive(Clone, Copy, Debug, PartialEq, Eq, Structural)]
pub enum PlayerError {
    /// An index at or past the end of the playlist, or a circular lookup on
    /// an empty playlist.
    OutOfRange,
    /// The entry at the claimed index does not carry the claimed identifier.
    Mismatch,
    /// A buffer fill was requested while no source is loaded.
    NoSourceLoaded,
    /// A durable-store read, write or rename failed.
    IoFailure,
    /// A media file was missing, unreadable or in an unsupported format.
    DecodeFailure,
}

} // verus!
