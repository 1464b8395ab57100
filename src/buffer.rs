//! The step buffer: batches queued by tick, read back in tick order.

use std::collections::VecDeque;
use tick_id::TickId;
use vstd::prelude::*;

use crate::model::StepsModel;
use crate::step::ParticipantSteps;
use crate::tick::tick_value;

verus! {

/// The largest value a tick counter can hold.
pub const TICK_ID_MAX: u32 = u32::MAX;

/// A batch together with the tick it occupies.
pub struct StepInfo<T> {
    pub step: ParticipantSteps<T>,
    pub tick_id: TickId,
}

impl<T> StepInfo<T> {
    /// The tick of this entry, as a number.
    pub open spec fn tick(&self) -> int {
        tick_value(self.tick_id) as int
    }
}

/// A queue of batches, one per tick, with a read cursor and a write cursor.
///
/// Well-formedness (`wf`) says that the queued entries carry the ticks
/// `r`, `r + 1`, ... without gaps, where `r` is the read cursor's tick, and
/// that the write cursor sits just past the last of them. Every operation keeps it, so
/// the tick of the front entry always matches the read cursor: the
/// discard operations move the read cursor along with the entries they drop.
pub struct Steps<T> {
    steps: VecDeque<StepInfo<T>>,
    expected_read_id: TickId,
    expected_write_id: TickId,
}

impl<T> View for Steps<T> {
    type V = StepsModel<T>;

    /// The read cursor's tick and the queued batches, oldest first.
    closed spec fn view(&self) -> StepsModel<T> {
        StepsModel {
            read: tick_value(self.expected_read_id) as int,
            batches: self.steps@.map_values(|e: StepInfo<T>| e.step),
        }
    }
}

impl<T> Steps<T> {
    /// The tick held by the write cursor.
    pub closed spec fn write_tick(&self) -> int {
        tick_value(self.expected_write_id) as int
    }

    /// The tick that the entry at position `i` carries.
    pub closed spec fn tick_at(&self, i: int) -> int {
        self.steps@[i].tick()
    }

    /// The write cursor sits just past the queued entries, and the entries
    /// carry consecutive ticks starting at the read cursor.
    pub open spec fn wf(&self) -> bool {
        &&& self.write_tick() == self@.write()
        &&& forall|i: int| 0 <= i < self@.batches.len() ==> #[trigger] self.tick_at(i) == self@.read + i
    }

    /// An empty buffer whose first tick is 0.
    pub fn new() -> (r: Self)
        ensures
            r.wf(),
            r@ == StepsModel::<T>::empty(0),
    {
        let r = Self {
            steps: VecDeque::new(),
            expected_read_id: TickId::new(0),
            expected_write_id: TickId::new(0),
        };
        assert(r@.batches =~= Seq::<ParticipantSteps<T>>::empty());
        r
    }

    /// An empty buffer whose first tick is `initial_tick_id`.
    pub fn new_with_initial_tick(initial_tick_id: TickId) -> (r: Self)
        ensures
            r.wf(),
            r@ == StepsModel::<T>::empty(tick_value(initial_tick_id) as int),
    {
        let r = Self {
            steps: VecDeque::new(),
            expected_read_id: initial_tick_id,
            expected_write_id: initial_tick_id,
        };
        assert(r@.batches =~= Seq::<ParticipantSteps<T>>::empty());
        r
    }

    /// Queues `step` at the write cursor's tick and advances the write cursor.
    pub fn push(&mut self, step: ParticipantSteps<T>)
        requires
            old(self).wf(),
            old(self)@.write() < TICK_ID_MAX,
        ensures
            final(self).wf(),
            final(self)@ == old(self)@.push(step),
    {
        let info = StepInfo { step, tick_id: self.expected_write_id };
        self.steps.push_back(info);
        self.expected_write_id = TickId::new(self.expected_write_id.value() + 1);
        proof {
            assert(self@.batches =~= old(self)@.batches.push(step));
            assert forall|i: int| 0 <= i < self@.batches.len() implies #[trigger] self.tick_at(i)
                == self@.read + i by {
                if i < old(self)@.batches.len() {
                    assert(self.tick_at(i) == old(self).tick_at(i));
                }
            }
        }
    }

    /// Removes and returns the oldest entry, or `None` when the buffer is
    /// empty, in which case nothing changes.
    ///
    /// The entry returned carries the read cursor's tick, and the read
    /// cursor then moves to the next tick.
    pub fn pop(&mut self) -> (r: Option<StepInfo<T>>)
        requires
            old(self).wf(),
        ensures
            final(self).wf(),
            final(self)@ == old(self)@.pop(),
            r.is_none() == old(self)@.front().is_none(),
            r matches Some(info) ==> old(self)@.front() == Some((info.tick(), info.step)),
    {
        let info = self.steps.pop_front();
        if let Some(step_info) = &info {
            assert(step_info.tick() == old(self)@.read) by {
                assert(old(self).tick_at(0) == old(self)@.read);
            }
            self.expected_read_id = TickId::new(self.expected_read_id.value() + 1);
            proof {
                assert(self@.batches =~= old(self)@.batches.skip(1));
                assert forall|i: int| 0 <= i < self@.batches.len() implies #[trigger] self.tick_at(i)
                    == self@.read + i by {
                    assert(self.tick_at(i) == old(self).tick_at(i + 1));
                }
            }
        } else {
            assert(self@.batches =~= old(self)@.batches);
        }
        info
    }

    /// Drops every entry whose tick is below `tick_id`, oldest first, and
    /// stops at the first entry whose tick is `tick_id` or later.
    ///
    /// The read cursor moves past the dropped ticks, so that a following
    /// `pop` returns the new front entry.
    pub fn pop_up_to(&mut self, tick_id: TickId)
        requires
            old(self).wf(),
        ensures
            final(self).wf(),
            final(self)@ == old(self)@.pop_up_to(tick_value(tick_id) as int),
    {
        assert(old(self)@.batches.skip(0) =~= old(self)@.batches);
        while self.steps.len() > 0 && self.steps[0].tick_id.value() < tick_id.value()
            invariant
                old(self).wf(),
                self.wf(),
                old(self)@.read <= self@.read <= old(self)@.write(),
                self@.read == old(self)@.read || self@.read <= tick_value(tick_id),
                self@ == old(self)@.discard(self@.read - old(self)@.read),
            decreases self@.batches.len(),
        {
            assert(self.tick_at(0) == self@.read);
            let ghost dropped = self@.read - old(self)@.read;
            self.pop();
            assert(self@.batches =~= old(self)@.batches.skip(dropped + 1));
        }
        proof {
            if self@.batches.len() > 0 {
                assert(self.tick_at(0) == self@.read);
            }
        }
    }

    /// Drops the `count` oldest entries, or all of them when there are
    /// fewer. The read cursor moves past the dropped ticks.
    pub fn pop_count(&mut self, count: usize)
        requires
            old(self).wf(),
        ensures
            final(self).wf(),
            final(self)@ == old(self)@.pop_count(count as int),
    {
        let n: usize = if count >= self.steps.len() { self.steps.len() } else { count };
        let mut i: usize = 0;
        assert(old(self)@.batches.skip(0) =~= old(self)@.batches);
        while i < n
            invariant
                old(self).wf(),
                self.wf(),
                i <= n,
                n <= old(self)@.batches.len(),
                old(self)@.pop_count(count as int) == old(self)@.discard(n as int),
                self@ == old(self)@.discard(i as int),
            decreases n - i,
        {
            self.pop();
            assert(self@.batches =~= old(self)@.batches.skip(i + 1));
            i = i + 1;
        }
    }

    /// The tick of the oldest entry, if any.
    pub fn front_tick_id(&self) -> (r: Option<TickId>)
        requires
            self.wf(),
        ensures
            r.is_some() == (self@.batches.len() > 0),
            r matches Some(t) ==> tick_value(t) == self@.read,
    {
        if self.steps.len() > 0 {
            assert(self.tick_at(0) == self@.read);
            Some(self.steps[0].tick_id)
        } else {
            None
        }
    }

    /// The tick of the newest entry, if any.
    pub fn back_tick_id(&self) -> (r: Option<TickId>)
        requires
            self.wf(),
        ensures
            r.is_some() == (self@.batches.len() > 0),
            r matches Some(t) ==> tick_value(t) == self@.write() - 1,
    {
        let n: usize = self.steps.len();
        if n > 0 {
            assert(self.tick_at(n - 1) == self@.read + (n - 1));
            Some(self.steps[n - 1].tick_id)
        } else {
            None
        }
    }

    /// The number of queued entries.
    pub fn len(&self) -> (r: usize)
        ensures
            r == self@.batches.len(),
    {
        self.steps.len()
    }

    /// Whether nothing is queued.
    pub fn is_empty(&self) -> (r: bool)
        ensures
            r == (self@.batches.len() == 0),
    {
        self.steps.len() == 0
    }
}

impl<T> Default for Steps<T> {
    fn default() -> (r: Self)
        ensures
            r.wf(),
            r@ == StepsModel::<T>::empty(0),
    {
        Self::new()
    }
}

} // verus!
