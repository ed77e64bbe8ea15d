//! The stage-then-commit protocol behind the durable playlist.
//!
//! The on-disk artifact is modelled as two line lists: the committed file and
//! an optional staged sibling. A mutation first stages the complete new
//! contents, then commits by renaming the staged copy over the committed one.
//! The committed contents never change except by a whole `commit`, so a crash
//! between the two steps leaves the prior durable state intact.

use vstd::prelude::*;

verus! {

/// The model of the durable playlist file and its staging sibling.
///
/// The unverified shell mirrors every `stage` with a write of the full
/// contents to a sibling temp path and every `commit` with a rename of that
/// temp path over the real file.
pub struct DurableFile {
    main: Vec<String>,
    temp: Option<Vec<String>>,
}

impl DurableFile {
    /// The lines of the committed file, in order.
    pub closed spec fn committed(self) -> Seq<Seq<char>> {
        self.main.deep_view()
    }

    /// The lines of the staged sibling, if one has been written.
    pub closed spec fn staged(self) -> Option<Seq<Seq<char>>> {
        match self.temp {
            Some(t) => Some(t.deep_view()),
            None => None,
        }
    }

    /// A fresh store holding `lines` as its committed contents.
    pub fn new(lines: Vec<String>) -> (d: DurableFile)
        ensures
            d.committed() == lines.deep_view(),
            d.staged() is None,
    {
        DurableFile { main: lines, temp: None }
    }

    /// Write the complete new contents beside the committed file.
    ///
    /// The committed contents are untouched: a crash after this step loses
    /// only the staged copy, never the prior durable state.
    pub fn stage(&mut self, lines: Vec<String>)
        ensures
            final(self).committed() == old(self).committed(),
            final(self).staged() == Some(lines.deep_view()),
    {
        self.temp = Some(lines);
    }

    /// Rename the staged copy over the committed file.
    pub fn commit(&mut self)
        requires
            old(self).staged() is Some,
        ensures
            Some(final(self).committed()) == old(self).staged(),
            final(self).staged() is None,
    {
        let staged = self.temp.take();
        match staged {
            Some(lines) => {
                self.main = lines;
            },
            None => {},
        }
    }

    /// Read the committed lines back.
    pub fn lines(&self) -> (r: &Vec<String>)
        ensures
            r.deep_view() == self.committed(),
    {
        &self.main
    }
}

} // verus!
