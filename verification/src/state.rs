//! Per-stream read progress.
//!
//! The hook tracks which open streams belong to the target file and how many
//! lines have been read from each.  A stream is identified only by the
//! numeric value of its handle — the table never owns the underlying stream.
//! The table itself is one value; the surrounding process holds it as a
//! process-wide singleton behind a mutual-exclusion lock and keeps every
//! operation O(1) under that lock.
//!
//! A `State` is viewed as a map from stream identity to the lines-read
//! counter, so every contract below speaks of plain maps.

use vstd::prelude::*;

use std::collections::HashMap;

verus! {

broadcast use vstd::std_specs::hash::group_hash_axioms;

/// The counter a stream identity maps to after one more line was read:
/// a saturating increment.
pub open spec fn sat_inc(lines: usize) -> usize {
    if lines == usize::MAX {
        lines
    } else {
        (lines + 1) as usize
    }
}

/// Read progress of one tracked stream: how many lines have been read from it
/// so far.
pub struct StreamState {
    lines: usize,
}

impl StreamState {
    /// The number of lines read so far.
    pub closed spec fn view(&self) -> usize {
        self.lines
    }

    /// A fresh stream: nothing read yet.
    pub fn new() -> (s: Self)
        ensures
            s@ == 0usize,
    {
        StreamState { lines: 0 }
    }

    /// Record one more line read; the counter saturates rather than wraps.
    /// Returns the new count.
    pub fn inc(&mut self) -> (n: usize)
        ensures
            final(self)@ == sat_inc(old(self)@),
            n == final(self)@,
    {
        self.lines = self.lines.saturating_add(1);
        self.lines
    }
}

/// The table of tracked streams, keyed by stream identity.
pub struct State {
    files: HashMap<usize, StreamState>,
}

impl View for State {
    type V = Map<usize, usize>;

    /// The table as a map from stream identity to lines read.
    closed spec fn view(&self) -> Map<usize, usize> {
        self.files@.map_values(|s: StreamState| s@)
    }
}

impl State {
    /// An empty table: no stream is tracked.
    pub fn new() -> (s: Self)
        ensures
            s@ == Map::<usize, usize>::empty(),
    {
        let files = HashMap::<usize, StreamState>::new();
        let s = State { files };
        proof {
            assert(s@ =~= Map::<usize, usize>::empty());
        }
        s
    }

    /// Track a newly opened stream, with a zeroed counter.  Returns whether
    /// an entry for the same identity was already present and has been
    /// overwritten — the signal of handle reuse that the caller reports.
    pub fn add(&mut self, stream: usize) -> (duplicate: bool)
        ensures
            final(self)@ == old(self)@.insert(stream, 0usize),
            duplicate == old(self)@.contains_key(stream),
    {
        let ghost pre = self@;
        let previous = self.files.insert(stream, StreamState::new());
        proof {
            assert(self@ =~= pre.insert(stream, 0usize));
        }
        previous.is_some()
    }

    /// Record one more line read from a stream.  Returns the new count when
    /// the stream is tracked, and `None` — with the table unchanged — when it
    /// is not, in which case the caller takes no substitution action.
    pub fn inc_lines(&mut self, stream: usize) -> (r: Option<usize>)
        ensures
            match r {
                Some(n) => old(self)@.contains_key(stream) && n == sat_inc(old(self)@[stream])
                    && final(self)@ == old(self)@.insert(stream, n),
                None => !old(self)@.contains_key(stream) && final(self)@ == old(self)@,
            },
    {
        let ghost pre = self@;
        match self.files.remove(&stream) {
            Some(mut st) => {
                let n = st.inc();
                self.files.insert(stream, st);
                proof {
                    assert(self@ =~= pre.insert(stream, n));
                }
                Some(n)
            },
            None => {
                proof {
                    assert(self@ =~= pre);
                }
                None
            },
        }
    }

    /// Stop tracking a stream; a silent no-op when it was not tracked.
    pub fn remove(&mut self, stream: usize)
        ensures
            final(self)@ == old(self)@.remove(stream),
    {
        let ghost pre = self@;
        self.files.remove(&stream);
        proof {
            assert(self@ =~= pre.remove(stream));
        }
    }
}

} // verus!
