//! Recognizing the acquisition collaborator's output.
//!
//! The collaborator is a child process whose standard output is a sequence of
//! text lines; the library's obligation is to recognize the line that names
//! the eventual local file, keep the last such path, and — only once the
//! whole sequence has been drained — derive the track identifier (the path's
//! file name) to append to the playlist.
//!
//! A line names the destination when it carries, anywhere, a bracketed tag
//! followed by the word `Destination:` between runs of blanks:
//! `[...] Destination: <path>`. The first closing bracket whose tail has that
//! shape, with an opening bracket anywhere before it, decides; the path is
//! everything after the blank run that follows `Destination:`. A blank is an
//! ASCII whitespace byte.

use vstd::prelude::*;

verus! {

/// Whether a byte is a blank: an ASCII whitespace byte (space, tab, line
/// feed, vertical tab, form feed or carriage return).
pub open spec fn is_blank(b: u8) -> bool {
    b == 32 || (9 <= b && b <= 13)
}

/// The first index at or after `k` holding a non-blank byte (or the end).
pub open spec fn blank_run_end(line: Seq<u8>, k: int) -> int
    recommends
        0 <= k <= line.len(),
    decreases line.len() - k when 0 <= k <= line.len()
{
    if k < line.len() && is_blank(line[k]) {
        blank_run_end(line, k + 1)
    } else {
        k
    }
}

/// The bytes of the word `Destination:` stand at `k`.
pub open spec fn marker_matches(line: Seq<u8>, k: int) -> bool {
    &&& 0 <= k
    &&& k + 12 <= line.len()
    &&& line[k] == 68
    &&& line[k + 1] == 101
    &&& line[k + 2] == 115
    &&& line[k + 3] == 116
    &&& line[k + 4] == 105
    &&& line[k + 5] == 110
    &&& line[k + 6] == 97
    &&& line[k + 7] == 116
    &&& line[k + 8] == 105
    &&& line[k + 9] == 111
    &&& line[k + 10] == 110
    &&& line[k + 11] == 58
}

/// Where the captured path would begin for a closing bracket at `j`: past
/// the blanks, the marker, and the blanks after it.
pub open spec fn capture_start(line: Seq<u8>, j: int) -> int {
    blank_run_end(line, blank_run_end(line, j + 1) + 12)
}

/// A closing bracket at `j` whose tail is blanks, the marker, and at least
/// one more blank.
pub open spec fn closes_at(line: Seq<u8>, j: int) -> bool {
    let w = blank_run_end(line, j + 1);
    &&& 0 <= j < line.len()
    &&& line[j] == 93
    &&& w > j + 1
    &&& marker_matches(line, w)
    &&& blank_run_end(line, w + 12) > w + 12
}

/// An opening bracket stands somewhere before `j`.
pub open spec fn opens_before(line: Seq<u8>, j: int) -> bool {
    exists|s: int| 0 <= s < j && line[s] == 91
}

/// The closing bracket at `j` completes a destination line.
pub open spec fn dest_match_at(line: Seq<u8>, j: int) -> bool {
    closes_at(line, j) && opens_before(line, j)
}

/// The first index at or after `j` that completes a destination line.
pub open spec fn first_match_from(line: Seq<u8>, j: int) -> Option<int>
    decreases line.len() - j when 0 <= j <= line.len()
{
    if j >= line.len() {
        None
    } else if dest_match_at(line, j) {
        Some(j)
    } else {
        first_match_from(line, j + 1)
    }
}

/// The destination path a line names, if it names one.
pub open spec fn parsed_dest(line: Seq<u8>) -> Option<Seq<u8>> {
    match first_match_from(line, 0) {
        Some(j) => Some(line.skip(capture_start(line, j))),
        None => None,
    }
}

/// Where a path's file name begins: just past the last slash.
pub open spec fn name_start(path: Seq<u8>) -> int
    decreases path.len(),
{
    if path.len() == 0 {
        0
    } else if path[path.len() - 1] == 47 {
        path.len() as int
    } else {
        name_start(path.take(path.len() - 1))
    }
}

/// The effective end of a path for file-name purposes: trailing slashes and
/// trailing lone-dot components do not count, as in the standard library's
/// path handling.
pub open spec fn trimmed_len(path: Seq<u8>) -> int
    decreases path.len(),
{
    if path.len() == 0 {
        0
    } else if path[path.len() - 1] == 47 {
        trimmed_len(path.drop_last())
    } else if path[path.len() - 1] == 46 && (path.len() == 1 || path[path.len() - 2] == 47) {
        trimmed_len(path.drop_last())
    } else {
        path.len() as int
    }
}

/// A path's file name: the last component, ignoring trailing slashes and
/// lone-dot components; none when nothing remains or the last component is
/// the parent-directory marker.
pub open spec fn spec_file_name(path: Seq<u8>) -> Option<Seq<u8>> {
    let trimmed = path.take(trimmed_len(path));
    let name = trimmed.skip(name_start(trimmed));
    if name.len() == 0 {
        None
    } else if name == seq![46u8, 46u8] {
        None
    } else {
        Some(name)
    }
}

/// Advance past blanks starting at `k`.
fn skip_blanks(line: &Vec<u8>, k: usize) -> (w: usize)
    requires
        k <= line@.len(),
    ensures
        w == blank_run_end(line@, k as int),
        k <= w <= line@.len(),
{
    let n = line.len();
    let mut i = k;
    while i < n && (line[i] == 32 || (9 <= line[i] && line[i] <= 13))
        invariant
            k <= i <= n,
            n == line@.len(),
            blank_run_end(line@, k as int) == blank_run_end(line@, i as int),
        decreases n - i,
    {
        i = i + 1;
    }
    i
}

/// Whether the marker word stands at `k`.
fn marker_at(line: &Vec<u8>, k: usize) -> (r: bool)
    requires
        k + 12 <= line@.len(),
    ensures
        r == marker_matches(line@, k as int),
{
    let n = line.len();
    proof {
        assert(k + 12 <= n);
    }
    line[k] == 68 && line[k + 1] == 101 && line[k + 2] == 115 && line[k + 3] == 116 && line[k + 4]
        == 105 && line[k + 5] == 110 && line[k + 6] == 97 && line[k + 7] == 116 && line[k + 8]
        == 105 && line[k + 9] == 111 && line[k + 10] == 110 && line[k + 11] == 58
}

/// Check the tail after a closing bracket at `j`; on success return where the
/// captured path begins.
fn check_tail(line: &Vec<u8>, j: usize) -> (r: Option<usize>)
    requires
        j < line@.len(),
        line@[j as int] == 93,
    ensures
        r is Some <==> closes_at(line@, j as int),
        r matches Some(start) ==> start == capture_start(line@, j as int) && start <= line@.len(),
{
    let n = line.len();
    let w = skip_blanks(line, j + 1);
    if w == j + 1 {
        return None;
    }
    if n - w < 12 {
        return None;
    }
    if !marker_at(line, w) {
        return None;
    }
    let m = skip_blanks(line, w + 12);
    if m == w + 12 {
        return None;
    }
    Some(m)
}

/// Copy the bytes from `start` up to `end`.
fn slice_bytes(line: &Vec<u8>, start: usize, end: usize) -> (v: Vec<u8>)
    requires
        start <= end <= line@.len(),
    ensures
        v@ == line@.subrange(start as int, end as int),
{
    let mut v: Vec<u8> = Vec::new();
    let mut i = start;
    while i < end
        invariant
            start <= i <= end,
            end <= line@.len(),
            v@ == line@.subrange(start as int, i as int),
        decreases end - i,
    {
        let b = line[i];
        v.push(b);
        proof {
            assert(v@ =~= line@.subrange(start as int, i as int + 1));
        }
        i = i + 1;
    }
    v
}

/// The destination path named by one output line, if it names one: the
/// capture of the earliest complete `[...] Destination: <path>` shape.
pub fn parse_destination(line: &Vec<u8>) -> (r: Option<Vec<u8>>)
    ensures
        r is Some <==> parsed_dest(line@) is Some,
        r matches Some(p) ==> Some(p@) == parsed_dest(line@),
{
    let n = line.len();
    let mut seen_open = false;
    let mut j: usize = 0;
    while j < n
        invariant
            0 <= j <= n,
            n == line@.len(),
            seen_open == opens_before(line@, j as int),
            first_match_from(line@, 0) == first_match_from(line@, j as int),
            forall|j2: int| 0 <= j2 < j ==> !dest_match_at(line@, j2),
        decreases n - j,
    {
        let b = line[j];
        if seen_open && b == 93 {
            match check_tail(line, j) {
                Some(start) => {
                    let p = slice_bytes(line, start, n);
                    proof {
                        assert(line@.subrange(start as int, n as int) =~= line@.skip(start as int));
                    }
                    proof {
                        assert(dest_match_at(line@, j as int));
                        assert(first_match_from(line@, j as int) == Some(j as int));
                    }
                    return Some(p);
                },
                None => {},
            }
        }
        proof {
            assert(!dest_match_at(line@, j as int));
            assert(opens_before(line@, j as int + 1) == (seen_open || line@[j as int] == 91));
        }
        if b == 91 {
            seen_open = true;
        }
        j = j + 1;
    }
    None
}

/// A path's file name, the track identifier an acquired file is enqueued
/// under.
pub fn file_name_of(path: &Vec<u8>) -> (r: Option<Vec<u8>>)
    ensures
        r is Some <==> spec_file_name(path@) is Some,
        r matches Some(name) ==> Some(name@) == spec_file_name(path@),
{
    let n = path.len();
    // drop trailing slashes and trailing lone-dot components
    let mut e = n;
    proof {
        assert(path@.take(n as int) =~= path@);
    }
    while e > 0 && (path[e - 1] == 47 || (path[e - 1] == 46 && (e == 1 || path[e - 2] == 47)))
        invariant
            0 <= e <= n,
            n == path@.len(),
            trimmed_len(path@) == trimmed_len(path@.take(e as int)),
        decreases e,
    {
        proof {
            assert(path@.take(e as int).drop_last() =~= path@.take(e as int - 1));
        }
        e = e - 1;
    }
    let ghost trimmed = path@.take(trimmed_len(path@));
    proof {
        assert(trimmed_len(path@.take(e as int)) == e);
        assert(trimmed =~= path@.take(e as int));
    }
    // find where the last component begins
    let mut i = e;
    while i > 0 && path[i - 1] != 47
        invariant
            0 <= i <= e,
            e <= n,
            n == path@.len(),
            name_start(path@.take(e as int)) == name_start(path@.take(i as int)),
        decreases i,
    {
        proof {
            assert(path@.take(i as int).drop_last() =~= path@.take(i as int - 1));
        }
        i = i - 1;
    }
    proof {
        if i > 0 {
            assert(name_start(path@.take(i as int)) == i);
        }
        assert(trimmed.skip(name_start(trimmed)) =~= path@.subrange(i as int, e as int));
    }
    if i == e {
        return None;
    }
    if e - i == 2 && path[i] == 46 && path[i + 1] == 46 {
        proof {
            assert(path@.subrange(i as int, e as int) =~= seq![46u8, 46u8]);
        }
        return None;
    }
    Some(slice_bytes(path, i, e))
}

/// The two-phase protocol around one acquisition: drain the collaborator's
/// lines, remembering the last destination named, and only then derive the
/// identifier to enqueue.
pub struct Acquisition {
    dst: Option<Vec<u8>>,
    finished: bool,
}

impl Acquisition {
    /// The destination captured so far.
    pub closed spec fn destination(self) -> Option<Seq<u8>> {
        match self.dst {
            Some(p) => Some(p@),
            None => None,
        }
    }

    /// Whether the stream has been fully drained and the finalizer has run.
    pub closed spec fn is_finished(self) -> bool {
        self.finished
    }

    /// A fresh acquisition: nothing captured, not finished.
    pub fn new() -> (a: Acquisition)
        ensures
            a.destination() is None,
            !a.is_finished(),
    {
        Acquisition { dst: None, finished: false }
    }

    /// Consume one output line: a line naming a destination replaces the
    /// captured path, any other line leaves it.
    pub fn on_line(&mut self, line: &Vec<u8>)
        requires
            !old(self).is_finished(),
        ensures
            !final(self).is_finished(),
            parsed_dest(line@) is Some ==> final(self).destination() == parsed_dest(line@),
            parsed_dest(line@) is None ==> final(self).destination() == old(self).destination(),
    {
        match parse_destination(line) {
            Some(p) => {
                self.dst = Some(p);
            },
            None => {},
        }
    }

    /// The stream is drained: finalize, handing back the identifier — the
    /// captured destination's file name — to append to the playlist, if a
    /// destination was captured at all.
    pub fn finish(&mut self) -> (r: Option<Vec<u8>>)
        requires
            !old(self).is_finished(),
        ensures
            final(self).is_finished(),
            final(self).destination() == old(self).destination(),
            match old(self).destination() {
                Some(p) => (r is Some <==> spec_file_name(p) is Some) && (r matches Some(id)
                    ==> Some(id@) == spec_file_name(p)),
                None => r is None,
            },
    {
        self.finished = true;
        match &self.dst {
            Some(p) => file_name_of(p),
            None => None,
        }
    }
}

} // verus!
