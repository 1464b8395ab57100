//! The abstract state of a step buffer and its operations, in spec code.
//!
//! A buffer is described by the tick that the next read returns and the
//! batches queued from that tick on: the batch at position `i` occupies
//! tick `read + i`, and the next write goes to tick `read + batches.len()`.

use vstd::prelude::*;

use crate::step::ParticipantSteps;

verus! {

/// The abstract state of a `Steps` buffer.
pub struct StepsModel<T> {
    /// The tick of the oldest queued batch, or of the next one pushed when
    /// nothing is queued.
    pub read: int,
    /// The queued batches, oldest first, on consecutive ticks.
    pub batches: Seq<ParticipantSteps<T>>,
}

impl<T> StepsModel<T> {
    /// An empty buffer whose first tick is `t0`.
    pub open spec fn empty(t0: int) -> Self {
        StepsModel { read: t0, batches: Seq::empty() }
    }

    /// The tick that the next push is assigned.
    pub open spec fn write(self) -> int {
        self.read + self.batches.len()
    }

    /// The tick and batch of the oldest entry, if any.
    pub open spec fn front(self) -> Option<(int, ParticipantSteps<T>)> {
        if self.batches.len() == 0 {
            None
        } else {
            Some((self.read, self.batches[0]))
        }
    }

    /// The state after queuing `b` at the write tick.
    pub open spec fn push(self, b: ParticipantSteps<T>) -> Self {
        StepsModel { read: self.read, batches: self.batches.push(b) }
    }

    /// The state after dropping the `k` oldest entries (`0 <= k <= len`).
    pub open spec fn discard(self, k: int) -> Self {
        StepsModel { read: self.read + k, batches: self.batches.skip(k) }
    }

    /// The state after taking the oldest entry; unchanged when empty.
    pub open spec fn pop(self) -> Self {
        if self.batches.len() == 0 {
            self
        } else {
            self.discard(1)
        }
    }

    /// How many entries carry a tick below `t`: the oldest ones.
    pub open spec fn count_below(self, t: int) -> int {
        if t <= self.read {
            0
        } else if t >= self.write() {
            self.batches.len() as int
        } else {
            t - self.read
        }
    }

    /// The state after dropping every entry whose tick is below `t`.
    pub open spec fn pop_up_to(self, t: int) -> Self {
        self.discard(self.count_below(t))
    }

    /// The state after dropping the `n` oldest entries, or all of them.
    pub open spec fn pop_count(self, n: int) -> Self {
        if n >= self.batches.len() {
            self.discard(self.batches.len() as int)
        } else {
            self.discard(n)
        }
    }

    /// The state after pushing each of `bs` in turn.
    pub open spec fn push_all(self, bs: Seq<ParticipantSteps<T>>) -> Self
        decreases bs.len(),
    {
        if bs.len() == 0 {
            self
        } else {
            self.push_all(bs.drop_last()).push(bs.last())
        }
    }

    /// The state after `k` pops.
    pub open spec fn pop_times(self, k: nat) -> Self
        decreases k,
    {
        if k == 0 {
            self
        } else {
            self.pop_times((k - 1) as nat).pop()
        }
    }
}

} // verus!
