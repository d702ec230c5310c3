//! Bounded selection index into the candidate dropdown.
//!
//! The index is moved one row at a time and is clamped whenever the
//! candidate list is replaced: a replacement keeps the user's position
//! unless that position is no longer valid, in which case it resets to 0.

use crate::min_usize;
use vstd::prelude::*;

verus! {

/// The selection invariant: inside the visible part of the list — below
/// both the list length and the dropdown capacity — while the list is
/// non-empty, and pinned to 0 while it is empty.
pub open spec fn index_valid(index: int, list_len: int, capacity: int) -> bool {
    if list_len > 0 {
        index < list_len && index < capacity
    } else {
        index == 0
    }
}

/// Position of the highlighted row of the candidate dropdown.
pub struct SelectionState {
    pub index: usize,
}

impl SelectionState {
    /// See [`index_valid`].
    pub open spec fn valid(self, list_len: int, capacity: int) -> bool {
        index_valid(self.index as int, list_len, capacity)
    }

    pub fn new() -> (r: Self)
        ensures
            r.index == 0,
    {
        SelectionState { index: 0 }
    }

    /// Move one row up, stopping at the top.
    pub fn move_up(&mut self)
        ensures
            final(self).index == if old(self).index > 0 {
                (old(self).index - 1) as usize
            } else {
                0usize
            },
    {
        if self.index > 0 {
            self.index = self.index - 1;
        }
    }

    /// Move one row down, stopping at the last visible row.
    pub fn move_down(&mut self, list_len: usize, capacity: usize) -> (moved: bool)
        ensures
            moved == (old(self).index + 1 < min_usize(list_len, capacity)),
            final(self).index == if old(self).index + 1 < min_usize(list_len, capacity) {
                (old(self).index + 1) as usize
            } else {
                old(self).index
            },
    {
        let limit = if list_len <= capacity {
            list_len
        } else {
            capacity
        };
        if self.index < usize::MAX && self.index + 1 < limit {
            self.index = self.index + 1;
            true
        } else {
            false
        }
    }

    /// Called on every candidate-list replacement: the position is kept
    /// unless it fell out of range, in which case it resets to 0.
    pub fn clamp(&mut self, list_len: usize, capacity: usize)
        ensures
            final(self).index == if old(self).index < min_usize(list_len, capacity) {
                old(self).index
            } else {
                0usize
            },
            capacity > 0 ==> final(self).valid(list_len as int, capacity as int),
    {
        let limit = if list_len <= capacity {
            list_len
        } else {
            capacity
        };
        if self.index >= limit {
            self.index = 0;
        }
    }
}

} // verus!
