//! Properties of the buffer's operations, proved over its abstract state.
//!
//! Each operation of `Steps` is tied to its counterpart on `StepsModel` by
//! its contract, so what is proved here holds of the buffer itself.

use vstd::prelude::*;

use crate::buffer::Steps;
use crate::model::StepsModel;
use crate::step::ParticipantSteps;

verus! {

/// Pushing a sequence of batches appends them after those already queued,
/// and leaves the read cursor where it was.
pub proof fn push_all_appends<T>(m: StepsModel<T>, bs: Seq<ParticipantSteps<T>>)
    ensures
        m.push_all(bs) == (StepsModel { read: m.read, batches: m.batches + bs }),
    decreases bs.len(),
{
    if bs.len() == 0 {
        assert(m.batches + bs =~= m.batches);
    } else {
        push_all_appends(m, bs.drop_last());
        assert(m.batches + bs =~= (m.batches + bs.drop_last()).push(bs.last()));
    }
}

/// Popping `k` times from a buffer holding at least `k` entries drops
/// exactly its `k` oldest entries.
pub proof fn pop_times_discards<T>(m: StepsModel<T>, k: nat)
    requires
        k <= m.batches.len(),
    ensures
        m.pop_times(k) == m.discard(k as int),
    decreases k,
{
    if k == 0 {
        assert(m.batches.skip(0) =~= m.batches);
    } else {
        pop_times_discards(m, (k - 1) as nat);
        assert(m.batches.skip(k - 1).skip(1) =~= m.batches.skip(k as int));
    }
}

/// Batches pushed onto an empty buffer whose first tick is `t0` come out in
/// the order they were pushed, the `k`-th of them (counting from 0) on tick
/// `t0 + k`.
pub proof fn pushed_batches_pop_in_order<T>(t0: int, bs: Seq<ParticipantSteps<T>>)
    ensures
        StepsModel::<T>::empty(t0).push_all(bs) == (StepsModel { read: t0, batches: bs }),
        forall|k: nat|
            k < bs.len() ==> #[trigger] StepsModel::<T>::empty(t0).push_all(bs).pop_times(k).front()
                == Some((t0 + k, bs[k as int])),
{
    let m = StepsModel::<T>::empty(t0);
    push_all_appends(m, bs);
    assert(m.batches + bs =~= bs);
    assert forall|k: nat| k < bs.len() implies #[trigger] m.push_all(bs).pop_times(k).front() == Some(
        (t0 + k, bs[k as int]),
    ) by {
        pop_times_discards(m.push_all(bs), k);
    }
}

/// After `n` pushes onto an empty buffer it holds `n` entries, and after
/// `j <= n` pops it holds `n - j`.
pub proof fn push_pop_lengths<T>(t0: int, bs: Seq<ParticipantSteps<T>>, j: nat)
    requires
        j <= bs.len(),
    ensures
        StepsModel::<T>::empty(t0).push_all(bs).batches.len() == bs.len(),
        StepsModel::<T>::empty(t0).push_all(bs).pop_times(j).batches.len() == bs.len() - j,
{
    pushed_batches_pop_in_order(t0, bs);
    pop_times_discards(StepsModel::<T>::empty(t0).push_all(bs), j);
}

/// Popping an empty buffer changes neither cursor.
pub proof fn pop_on_empty_keeps_cursors<T>(m: StepsModel<T>)
    requires
        m.batches.len() == 0,
    ensures
        m.front().is_none(),
        m.pop() == m,
        m.pop().read == m.read,
        m.pop().write() == m.write(),
{
}

/// Discarding up to tick `t` is a no-op when `t` is at or below the front
/// tick, empties the buffer when `t` is past the back tick, and otherwise
/// drops exactly the entries whose tick is below `t`: those that remain keep
/// their ticks, the first of them on tick `t`.
pub proof fn pop_up_to_drops_ticks_below<T>(m: StepsModel<T>, t: int)
    ensures
        t <= m.read ==> m.pop_up_to(t) == m,
        t > m.write() - 1 ==> m.pop_up_to(t).batches.len() == 0,
        m.read < t <= m.write() ==> m.pop_up_to(t) == (StepsModel {
            read: t,
            batches: m.batches.skip(t - m.read),
        }),
        m.pop_up_to(t).write() == m.write(),
{
    if t <= m.read {
        assert(m.batches.skip(0) =~= m.batches);
    }
}

/// Discarding `n` entries empties the buffer when `n` reaches its length,
/// and otherwise drops exactly the `n` oldest entries.
pub proof fn pop_count_drops_oldest<T>(m: StepsModel<T>, n: int)
    requires
        n >= 0,
    ensures
        n >= m.batches.len() ==> m.pop_count(n).batches.len() == 0,
        n < m.batches.len() ==> m.pop_count(n) == (StepsModel {
            read: m.read + n,
            batches: m.batches.skip(n),
        }),
        n < m.batches.len() ==> m.pop_count(n).batches.len() == m.batches.len() - n,
        m.pop_count(n).write() == m.write(),
{
}

/// In every well-formed buffer the front entry carries the read cursor's
/// tick, so `pop` can never find the two out of step.
pub proof fn front_entry_on_read_tick<T>(s: &Steps<T>)
    requires
        s.wf(),
        s@.batches.len() > 0,
    ensures
        s.tick_at(0) == s@.read,
{
}

} // verus!
