//! Bounded coherence history.
//!
//! A coherence field keeps a FIFO record of the coherence values it has
//! taken. Plain recording appends without bound; the correction path
//! appends and then drops the oldest entries until at most
//! [`HISTORY_CAPACITY`] remain, so any run of corrections leaves the
//! record bounded.

use vstd::prelude::*;

verus! {

/// Most entries a trimmed history retains.
pub const HISTORY_CAPACITY: usize = 10;

/// The suffix of `s` holding its most recent `cap` entries (all of `s`
/// when `s` is shorter than `cap`).
pub open spec fn recent<T>(s: Seq<T>, cap: int) -> Seq<T> {
    if s.len() <= cap {
        s
    } else {
        s.skip(s.len() - cap)
    }
}

/// FIFO record of sampled values, oldest first.
#[derive(Clone, Debug)]
pub struct History<T> {
    /// Recorded values, oldest first.
    pub entries: Vec<T>,
}

impl<T> History<T> {
    /// An empty history.
    pub fn new() -> (r: History<T>)
        ensures
            r.entries@ == Seq::<T>::empty(),
    {
        History { entries: Vec::new() }
    }

    /// A history holding a single seed value.
    pub fn with_first(value: T) -> (r: History<T>)
        ensures
            r.entries@ == seq![value],
    {
        let mut entries: Vec<T> = Vec::new();
        entries.push(value);
        History { entries }
    }

    /// Number of recorded values.
    pub fn len(&self) -> (r: usize)
        ensures
            r == self.entries@.len(),
    {
        self.entries.len()
    }

    /// Append a value without trimming.
    pub fn record(&mut self, value: T)
        ensures
            final(self).entries@ == old(self).entries@.push(value),
    {
        self.entries.push(value);
    }

    /// Append a value, then drop the oldest entries until at most
    /// [`HISTORY_CAPACITY`] remain.
    pub fn record_trimmed(&mut self, value: T)
        ensures
            final(self).entries@ == recent(old(self).entries@.push(value), HISTORY_CAPACITY as int),
            final(self).entries@.len() <= HISTORY_CAPACITY,
    {
        self.entries.push(value);
        while self.entries.len() > HISTORY_CAPACITY
            invariant
                recent(self.entries@, HISTORY_CAPACITY as int) == recent(
                    old(self).entries@.push(value),
                    HISTORY_CAPACITY as int,
                ),
            decreases self.entries@.len(),
        {
            self.entries.remove(0);
        }
    }
}

} // verus!
