//! The durable, ordered playlist of track identifiers.
//!
//! Entries are index-addressed from zero and looked up either directly or
//! circularly relative to a given index. Every mutation rewrites the durable
//! store through the stage-then-commit protocol of [`crate::durable`].

use vstd::prelude::*;

use crate::durable::DurableFile;
use crate::errors::PlayerError;
use crate::wrap_index;

verus! {

/// An ordered sequence of track identifiers backed by a durable line file.
///
/// The view of a queue is the committed sequence of identifiers, each a
/// sequence of characters, in playback order.
pub struct PlayerQueue {
    store: DurableFile,
}

impl View for PlayerQueue {
    type V = Seq<Seq<char>>;

    closed spec fn view(&self) -> Seq<Seq<char>> {
        self.store.committed()
    }
}

/// `step % len` computed from the magnitude trick used by the exec code for
/// negative steps: for `step < 0` and `k == -step - 1`, the Euclidean
/// remainder of `step` is `len - (k % len) - 1`.
proof fn lemma_neg_step_mod(step: int, k: int, len: int)
    requires
        len > 0,
        step < 0,
        k == -step - 1,
    ensures
        step % len == len - (k % len) - 1,
{
    let q = k / len;
    let r = k % len;
    vstd::arithmetic::div_mod::lemma_fundamental_div_mod(k, len);
    assert(k == len * q + r);
    assert(step == (-q - 1) * len + (len - r - 1)) by (nonlinear_arith)
        requires
            k == len * q + r,
            step == -k - 1,
    ;
    vstd::arithmetic::div_mod::lemma_fundamental_div_mod_converse_mod(
        step,
        len,
        -q - 1,
        len - r - 1,
    );
}

impl PlayerQueue {
    /// No staged sibling is pending: the store is at rest.
    pub closed spec fn wf(self) -> bool {
        self.store.staged() is None
    }

    /// A queue holding `lines` as its committed contents.
    ///
    /// The unverified shell creates the backing file if absent, reads its
    /// lines and hands them in.
    pub fn new(lines: Vec<String>) -> (q: PlayerQueue)
        ensures
            q.wf(),
            q@ == lines.deep_view(),
    {
        PlayerQueue { store: DurableFile::new(lines) }
    }

    /// The number of entries.
    pub fn size(&self) -> (n: usize)
        ensures
            n == self@.len(),
    {
        self.store.lines().len()
    }

    /// A full snapshot of the entries, in playback order.
    pub fn list_all(&self) -> (v: Vec<String>)
        ensures
            v.deep_view() == self@,
    {
        broadcast use vstd::std_specs::vec::vec_clone_deep_view_proof;

        self.store.lines().clone()
    }

    /// The entry at `index`, or `OutOfRange` past the end.
    pub fn get_at(&self, index: usize) -> (r: Result<String, PlayerError>)
        ensures
            index >= self@.len() ==> r == Err::<String, PlayerError>(PlayerError::OutOfRange),
            index < self@.len() ==> {
                &&& r is Ok
                &&& r->Ok_0@ == self@[index as int]
            },
    {
        proof {
            if index < self@.len() {
                vstd::arithmetic::div_mod::lemma_small_mod(index as nat, self@.len() as nat);
            }
        }
        match self.get_rel(index, 0) {
            Ok((_, id)) => Ok(id),
            Err(e) => Err(e),
        }
    }

    /// The circular successor of `index`.
    pub fn get_next(&self, index: usize) -> (r: Result<(usize, String), PlayerError>)
        ensures
            index >= self@.len() ==> r == Err::<(usize, String), PlayerError>(
                PlayerError::OutOfRange,
            ),
            index < self@.len() ==> {
                &&& r matches Ok((ni, id))
                &&& ni == wrap_index(index as int, 1, self@.len() as int)
                &&& id@ == self@[ni as int]
            },
    {
        self.get_rel(index, 1)
    }

    /// The circular predecessor of `index`.
    pub fn get_prev(&self, index: usize) -> (r: Result<(usize, String), PlayerError>)
        ensures
            index >= self@.len() ==> r == Err::<(usize, String), PlayerError>(
                PlayerError::OutOfRange,
            ),
            index < self@.len() ==> {
                &&& r matches Ok((ni, id))
                &&& ni == wrap_index(index as int, -1, self@.len() as int)
                &&& id@ == self@[ni as int]
            },
    {
        self.get_rel(index, -1)
    }

    /// The entry `step` positions away from `line_number`, wrapped circularly.
    ///
    /// Fails with `OutOfRange` when the queue is empty or `line_number` is
    /// past the end; in particular every circular lookup on an empty queue
    /// fails with `OutOfRange`.
    pub fn get_rel(&self, line_number: usize, step: isize) -> (r: Result<
        (usize, String),
        PlayerError,
    >)
        ensures
            line_number >= self@.len() ==> r == Err::<(usize, String), PlayerError>(
                PlayerError::OutOfRange,
            ),
            self@.len() == 0 ==> r == Err::<(usize, String), PlayerError>(PlayerError::OutOfRange),
            line_number < self@.len() ==> {
                &&& r matches Ok((ni, id))
                &&& ni == wrap_index(line_number as int, step as int, self@.len() as int)
                &&& id@ == self@[ni as int]
            },
    {
        let entries = self.store.lines();
        let len = entries.len();
        if line_number >= len {
            return Err(PlayerError::OutOfRange);
        }
        let ghost leni = len as int;
        // step modulo len, kept in unsigned arithmetic throughout
        let m: usize = if step >= 0 {
            (step as usize) % len
        } else {
            let k: usize = (-(step + 1)) as usize;
            let rem: usize = k % len;
            proof {
                lemma_neg_step_mod(step as int, k as int, leni);
            }
            len - rem - 1
        };
        assert(m == (step as int) % leni);
        let new_line_number: usize = if m >= len - line_number {
            m - (len - line_number)
        } else {
            line_number + m
        };
        proof {
            vstd::arithmetic::div_mod::lemma_add_mod_noop_right(
                line_number as int,
                step as int,
                leni,
            );
            if m >= len - line_number {
                vstd::arithmetic::div_mod::lemma_fundamental_div_mod_converse_mod(
                    line_number + m,
                    leni,
                    1,
                    line_number + m - leni,
                );
            } else {
                vstd::arithmetic::div_mod::lemma_fundamental_div_mod_converse_mod(
                    line_number + m,
                    leni,
                    0,
                    line_number + m,
                );
            }
        }
        let id = entries[new_line_number].clone();
        Ok((new_line_number, id))
    }

    /// Append one identifier at the tail; duplicates are not checked.
    ///
    /// The size grows by exactly one and the new identifier stands at the
    /// last index.
    pub fn append(&mut self, id: &str) -> (r: Result<(), PlayerError>)
        ensures
            final(self).wf(),
            r == Ok::<(), PlayerError>(()),
            final(self)@ == old(self)@.push(id@),
            final(self)@.len() == old(self)@.len() + 1,
            final(self)@[final(self)@.len() - 1] == id@,
    {
        broadcast use vstd::std_specs::vec::vec_clone_deep_view_proof;

        let mut entries = self.store.lines().clone();
        entries.push(id.to_owned());
        proof {
            assert(entries.deep_view() =~= old(self)@.push(id@));
        }
        self.persist(entries);
        Ok(())
    }

    /// Remove the entry at `line_number`, validated against `id`.
    ///
    /// Fails with `OutOfRange` past the end and with `Mismatch` when the
    /// entry at `line_number` is not `id` (a stale index over duplicate
    /// identifiers); otherwise the entry disappears and all other entries
    /// keep their relative order.
    pub fn remove_at(&mut self, id: &str, line_number: usize) -> (r: Result<(), PlayerError>)
        ensures
            line_number >= old(self)@.len() ==> r == Err::<(), PlayerError>(PlayerError::OutOfRange)
                && final(self)@ == old(self)@,
            line_number < old(self)@.len() && old(self)@[line_number as int] != id@ ==> r == Err::<
                (),
                PlayerError,
            >(PlayerError::Mismatch) && final(self)@ == old(self)@,
            line_number < old(self)@.len() && old(self)@[line_number as int] == id@ ==> {
                &&& r == Ok::<(), PlayerError>(())
                &&& final(self).wf()
                &&& final(self)@ == old(self)@.remove(line_number as int)
                &&& final(self)@.len() + 1 == old(self)@.len()
                &&& final(self)@ == old(self)@.subrange(0, line_number as int) + old(self)@.subrange(
                    line_number as int + 1,
                    old(self)@.len() as int,
                )
            },
    {
        broadcast use vstd::std_specs::vec::vec_clone_deep_view_proof;

        let mut entries = self.store.lines().clone();
        if line_number >= entries.len() {
            return Err(PlayerError::OutOfRange);
        }
        let wanted = id.to_owned();
        if !(entries[line_number] == wanted) {
            assert(entries.deep_view()[line_number as int] == entries@[line_number as int]@);
            return Err(PlayerError::Mismatch);
        }
        entries.remove(line_number);
        proof {
            assert(entries.deep_view() =~= old(self)@.remove(line_number as int));
            assert(old(self)@.remove(line_number as int) =~= old(self)@.subrange(
                0,
                line_number as int,
            ) + old(self)@.subrange(line_number as int + 1, old(self)@.len() as int));
        }
        self.persist(entries);
        Ok(())
    }

    /// Relocate the entry at `src_line` to stand immediately after the entry
    /// at `dst_line`, both validated against their identifiers exactly as
    /// `remove_at` validates.
    ///
    /// The destination index is adjusted for the shift caused by removing the
    /// source before reinserting it. The one input left out is relocating the
    /// last entry after itself, which addresses a position past the new end.
    pub fn move_next_to_at(
        &mut self,
        src_id: &str,
        src_line: usize,
        dst_id: &str,
        dst_line: usize,
    ) -> (r: Result<(), PlayerError>)
        requires
            !(src_line == dst_line && src_line + 1 == old(self)@.len() && old(
                self,
            )@[src_line as int] == src_id@ && old(self)@[src_line as int] == dst_id@),
        ensures
            src_line >= old(self)@.len() ==> r == Err::<(), PlayerError>(PlayerError::OutOfRange)
                && final(self)@ == old(self)@,
            src_line < old(self)@.len() && old(self)@[src_line as int] != src_id@ ==> r == Err::<
                (),
                PlayerError,
            >(PlayerError::Mismatch) && final(self)@ == old(self)@,
            src_line < old(self)@.len() && old(self)@[src_line as int] == src_id@ && dst_line >= old(
                self,
            )@.len() ==> r == Err::<(), PlayerError>(PlayerError::OutOfRange) && final(self)@ == old(
                self,
            )@,
            src_line < old(self)@.len() && old(self)@[src_line as int] == src_id@ && dst_line < old(
                self,
            )@.len() && old(self)@[dst_line as int] != dst_id@ ==> r == Err::<(), PlayerError>(
                PlayerError::Mismatch,
            ) && final(self)@ == old(self)@,
            src_line < old(self)@.len() && old(self)@[src_line as int] == src_id@ && dst_line < old(
                self,
            )@.len() && old(self)@[dst_line as int] == dst_id@ ==> {
                &&& r == Ok::<(), PlayerError>(())
                &&& final(self).wf()
                &&& final(self)@ == old(self)@.remove(src_line as int).insert(
                    (if src_line < dst_line {
                        dst_line as int - 1
                    } else {
                        dst_line as int
                    }) + 1,
                    old(self)@[src_line as int],
                )
                &&& final(self)@.len() == old(self)@.len()
            },
    {
        broadcast use vstd::std_specs::vec::vec_clone_deep_view_proof;

        let mut entries = self.store.lines().clone();
        let num_entries = entries.len();
        if src_line >= num_entries {
            return Err(PlayerError::OutOfRange);
        }
        let src_wanted = src_id.to_owned();
        if !(entries[src_line] == src_wanted) {
            assert(entries.deep_view()[src_line as int] == entries@[src_line as int]@);
            return Err(PlayerError::Mismatch);
        }
        if dst_line >= num_entries {
            return Err(PlayerError::OutOfRange);
        }
        let dst_wanted = dst_id.to_owned();
        if !(entries[dst_line] == dst_wanted) {
            assert(entries.deep_view()[dst_line as int] == entries@[dst_line as int]@);
            return Err(PlayerError::Mismatch);
        }
        assert(entries.deep_view()[src_line as int] == entries@[src_line as int]@);
        let moved_entry = entries.remove(src_line);
        let new_dst_idx: usize = if src_line < dst_line {
            dst_line - 1
        } else {
            dst_line
        };
        entries.insert(new_dst_idx + 1, moved_entry);
        proof {
            assert(entries.deep_view() =~= old(self)@.remove(src_line as int).insert(
                (if src_line < dst_line {
                    dst_line as int - 1
                } else {
                    dst_line as int
                }) + 1,
                old(self)@[src_line as int],
            ));
        }
        self.persist(entries);
        Ok(())
    }

    /// Stage the complete new contents, then commit them over the committed
    /// file: the store passes atomically from the old contents to `entries`.
    fn persist(&mut self, entries: Vec<String>)
        ensures
            final(self).wf(),
            final(self)@ == entries.deep_view(),
    {
        let ghost staged_view = entries.deep_view();
        self.store.stage(entries);
        self.store.commit();
    }
}

/// On a non-empty queue, a circular step forward followed by a circular step
/// back returns to the starting index.
pub proof fn lemma_rel_next_then_prev(i: int, len: int)
    requires
        0 <= i < len,
    ensures
        wrap_index(wrap_index(i, 1, len), -1, len) == i,
{
    if i + 1 < len {
        vstd::arithmetic::div_mod::lemma_small_mod((i + 1) as nat, len as nat);
        vstd::arithmetic::div_mod::lemma_small_mod(i as nat, len as nat);
    } else {
        vstd::arithmetic::div_mod::lemma_fundamental_div_mod_converse_mod(i + 1, len, 1, 0);
        vstd::arithmetic::div_mod::lemma_fundamental_div_mod_converse_mod(-1, len, -1, len - 1);
    }
}

} // verus!
