//! Process configuration, as the library consumes it.
//!
//! The shell reads this from its own configuration source and converts; the
//! library only carries the values.

use vstd::prelude::*;

verus! {

/// Where media files live, where the acquisition executable stands, and the
/// option strings passed to it verbatim.
#[derive(Debug)]
pub struct Config {
    /// The directory identifiers resolve under.
    pub data_dir: String,
    /// The acquisition executable.
    pub ytdlp_path: String,
    /// Options handed to the acquisition executable.
    pub ytdlp_option: Vec<String>,
}

} // verus!
