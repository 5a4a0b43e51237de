//! Laws of the arena: properties that tie several operations together,
//! stated over the mathematical models of `genvec` and proved once and for
//! all. Each operation's own contract says what one call does; the lemmas
//! here say what whole histories of calls can and cannot do.

use crate::genvec::{
    evolves, free_model, handle_matches, live_handles, live_values, GenVecModel, HandleModel,
    SlotModel,
};
use vstd::prelude::*;

verus! {

/// Evolution chains: whatever holds of each single step holds along any
/// sequence of operations.
pub proof fn lemma_evolves_trans<T>(m1: GenVecModel<T>, m2: GenVecModel<T>, m3: GenVecModel<T>)
    requires
        evolves(m1, m2),
        evolves(m2, m3),
    ensures
        evolves(m1, m3),
{
    assert forall|i: int|
        0 <= i < m1.slots.len() implies (#[trigger] m1.slots[i]).generation
        <= m3.slots[i].generation by {
        assert(m1.slots[i].generation <= m2.slots[i].generation);
        assert(m2.slots[i].generation <= m3.slots[i].generation);
    }
}

/// No cross-generation aliasing: once a matching handle is freed, it never
/// matches again, however the arena evolves afterwards — in particular, a
/// later allocation that reuses the same slot position carries a generation
/// the freed handle can never equal, because generations only grow.
pub proof fn lemma_no_cross_generation_aliasing<T>(
    m: GenVecModel<T>,
    h: HandleModel,
    later: GenVecModel<T>,
)
    requires
        handle_matches(m, h),
        h.generation < u64::MAX,
        evolves(free_model(m, h), later),
    ensures
        !handle_matches(later, h),
{
    let f = free_model(m, h);
    assert(f.slots[h.index as int].generation == h.generation + 1);
    assert(later.slots[h.index as int].generation >= h.generation + 1);
}

/// Double-free safety: freeing a handle twice is the same as freeing it
/// once — the second call finds the handle no longer matching and changes
/// nothing, so the free list gains at most one entry per genuine transition
/// from live to freed.
pub proof fn lemma_double_free_noop<T>(m: GenVecModel<T>, h: HandleModel)
    ensures
        free_model(free_model(m, h), h) == free_model(m, h),
{
    if handle_matches(m, h) {
        let f = free_model(m, h);
        assert(!f.slots[h.index as int].live);
        assert(!handle_matches(f, h));
    }
}

/// The shape of an iteration's output: it pairs the yielded values with the
/// yielded handles one to one, every yielded handle matches a live slot
/// whose value is the one yielded, slot positions come out strictly
/// ascending, and every live slot is represented exactly where it belongs.
pub proof fn lemma_live_characterization<T>(slots: Seq<SlotModel<T>>)
    requires
        slots.len() <= usize::MAX,
    ensures
        live_values(slots).len() == live_handles(slots).len(),
        forall|k: int|
            0 <= k < live_handles(slots).len() ==> (#[trigger] live_handles(slots)[k]).index
                < slots.len() && slots[live_handles(slots)[k].index as int].live && slots[live_handles(
                slots,
            )[k].index as int].generation == live_handles(slots)[k].generation && live_values(
                slots,
            )[k] == slots[live_handles(slots)[k].index as int].value,
        forall|k1: int, k2: int|
            0 <= k1 < k2 < live_handles(slots).len() ==> live_handles(slots)[k1].index
                < live_handles(slots)[k2].index,
        forall|i: usize|
            i < slots.len() && (#[trigger] slots[i as int]).live ==> exists|k: int|
                0 <= k < live_handles(slots).len() && live_handles(slots)[k].index == i,
    decreases slots.len(),
{
    if slots.len() > 0 {
        let pre = slots.drop_last();
        lemma_live_characterization(pre);
        let lhp = live_handles(pre);
        let lvp = live_values(pre);
        let lh = live_handles(slots);
        let lv = live_values(slots);
        assert forall|k: int|
            0 <= k < lh.len() implies (#[trigger] lh[k]).index < slots.len()
            && slots[lh[k].index as int].live && slots[lh[k].index as int].generation
            == lh[k].generation && lv[k] == slots[lh[k].index as int].value by {
            if k < lhp.len() {
                assert(lh[k] == lhp[k]);
                assert(lv[k] == lvp[k]);
                assert(lhp[k].index < pre.len());
                assert(pre[lhp[k].index as int] == slots[lhp[k].index as int]);
            } else {
                assert(slots.last().live);
                assert(lh[k].index == slots.len() - 1);
            }
        }
        assert forall|k1: int, k2: int| 0 <= k1 < k2 < lh.len() implies lh[k1].index
            < lh[k2].index by {
            if k2 < lhp.len() {
                assert(lh[k1] == lhp[k1]);
                assert(lh[k2] == lhp[k2]);
            } else {
                assert(slots.last().live);
                assert(lh[k2].index == slots.len() - 1);
                assert(lh[k1] == lhp[k1]);
                assert(lhp[k1].index < pre.len());
            }
        }
        assert forall|i: usize|
            i < slots.len() && (#[trigger] slots[i as int]).live implies exists|k: int|
            0 <= k < lh.len() && lh[k].index == i by {
            if (i as int) < pre.len() {
                assert(pre[i as int] == slots[i as int]);
                assert(pre[i as int].live);
                let k = choose|k: int| 0 <= k < lhp.len() && lhp[k].index == i;
                assert(lh[k] == lhp[k]);
                assert(lh[k].index == i);
            } else {
                assert(i as int == slots.len() - 1);
                assert(slots.last().live);
                assert(lh[lh.len() - 1].index == i);
            }
        }
    }
}

/// Iteration completeness: every handle that currently matches is
/// represented in the iteration's output, with its stored value.
pub proof fn lemma_iteration_complete<T>(m: GenVecModel<T>, h: HandleModel)
    requires
        m.slots.len() <= usize::MAX,
        handle_matches(m, h),
    ensures
        exists|k: int|
            0 <= k < live_handles(m.slots).len() && live_handles(m.slots)[k] == h && live_values(
                m.slots,
            )[k] == m.slots[h.index as int].value,
{
    lemma_live_characterization(m.slots);
    let k = choose|k: int|
        0 <= k < live_handles(m.slots).len() && live_handles(m.slots)[k].index == h.index;
    assert(live_handles(m.slots)[k] =~= h);
    assert(live_values(m.slots)[k] == m.slots[h.index as int].value);
}

/// Iteration exclusion: everything iteration yields belongs to a handle
/// that currently matches — nothing of a freed slot is ever yielded.
pub proof fn lemma_iteration_sound<T>(m: GenVecModel<T>, k: int)
    requires
        m.slots.len() <= usize::MAX,
        0 <= k < live_handles(m.slots).len(),
    ensures
        handle_matches(m, live_handles(m.slots)[k]),
        live_values(m.slots)[k] == m.slots[live_handles(m.slots)[k].index as int].value,
{
    lemma_live_characterization(m.slots);
}

} // verus!
