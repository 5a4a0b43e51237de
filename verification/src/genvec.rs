//! The arena itself: slots, handles, and the operations on them.
//!
//! Each slot carries a generation counter and a value. A handle names a slot
//! position together with the generation the slot had when the handle was
//! issued; the handle grants access exactly while the slot's generation still
//! equals the handle's. Freeing a slot increments its generation, so every
//! handle issued for the old occupant goes permanently stale. A slot reused
//! from the free list keeps its stored generation, so liveness is tracked by
//! an explicit flag rather than read off the counter.

use core::marker::PhantomData;
use vstd::prelude::*;

verus! {

/// A copyable token naming one allocation: a slot position plus the
/// generation the slot had when the value was stored. The phantom parameter
/// ties a handle to the element type of the arena that issued it, so a handle
/// cannot be presented to an arena of a different element type.
#[derive(Copy, Debug, PartialEq, Eq, PartialOrd, Ord)]
pub struct EntryHandle<T> {
    generation: u64,
    index: usize,
    enforce_typing: PhantomData<T>,
}

impl<T> Clone for EntryHandle<T> {
    /// A clone is the very same token.
    fn clone(&self) -> (r: Self)
        ensures
            r == *self,
    {
        EntryHandle { generation: self.generation, index: self.index, enforce_typing: PhantomData }
    }
}

/// Mathematical image of a handle: the pair it carries.
#[verifier::ext_equal]
pub ghost struct HandleModel {
    pub generation: u64,
    pub index: usize,
}

impl<T> View for EntryHandle<T> {
    type V = HandleModel;

    closed spec fn view(&self) -> HandleModel {
        HandleModel { generation: self.generation, index: self.index }
    }
}

/// One storage cell: the current generation, whether the cell logically
/// holds a value, and the value itself (kept, but logically absent, after a
/// free; overwritten on the next allocation of the cell).
#[derive(Debug)]
struct GenVecEntry<T> {
    generation: u64,
    live: bool,
    data: T,
}

/// Mathematical image of one slot.
#[verifier::ext_equal]
pub ghost struct SlotModel<T> {
    pub generation: u64,
    pub live: bool,
    pub value: T,
}

/// The arena: a growable sequence of slots and a stack of reusable slot
/// positions (the most recently freed position is reused first).
#[derive(Debug)]
pub struct GenVec<T> {
    vec: Vec<GenVecEntry<T>>,
    freelist: Vec<usize>,
}

/// Mathematical image of the whole arena.
#[verifier::ext_equal]
pub ghost struct GenVecModel<T> {
    pub slots: Seq<SlotModel<T>>,
    pub free_list: Seq<usize>,
}

impl<T> View for GenVec<T> {
    type V = GenVecModel<T>;

    closed spec fn view(&self) -> GenVecModel<T> {
        GenVecModel {
            slots: self.vec@.map_values(
                |e: GenVecEntry<T>| SlotModel { generation: e.generation, live: e.live, value: e.data },
            ),
            free_list: self.freelist@,
        }
    }
}

/// The arena a fresh construction yields: no slots, empty free list.
pub open spec fn empty_model<T>() -> GenVecModel<T> {
    GenVecModel { slots: Seq::empty(), free_list: Seq::empty() }
}

/// The liveness test every accessor uses: the handle names a slot within
/// bounds that is live and whose current generation equals the handle's.
/// The generation test is strict equality, never parity: a slot reused from
/// the free list holds a live value at whatever generation its last free
/// left behind. For every handle the arena issues, the equality test alone
/// already decides (a freed slot's generation sits strictly above every
/// generation that was ever handed out for that slot); the liveness flag
/// additionally settles handles no allocation ever returned, so that every
/// operation keeps the arena well formed on all inputs.
pub open spec fn handle_matches<T>(m: GenVecModel<T>, h: HandleModel) -> bool {
    &&& h.index < m.slots.len()
    &&& m.slots[h.index as int].live
    &&& m.slots[h.index as int].generation == h.generation
}

/// Well-formedness of the arena state: the free list holds, without
/// duplicates, exactly the in-bounds positions of the slots that are not
/// live.
pub open spec fn wf_model<T>(m: GenVecModel<T>) -> bool {
    &&& forall|k: int|
        0 <= k < m.free_list.len() ==> (#[trigger] m.free_list[k]) < m.slots.len()
            && !m.slots[m.free_list[k] as int].live
    &&& forall|k1: int, k2: int|
        0 <= k1 < k2 < m.free_list.len() ==> m.free_list[k1] != m.free_list[k2]
    &&& forall|i: usize|
        i < m.slots.len() && !(#[trigger] m.slots[i as int]).live ==> m.free_list.contains(i)
}

/// Exclusive access rewrites a slot's value and nothing else, so it keeps
/// the arena well formed: well-formedness never looks at the stored values.
pub proof fn lemma_wf_value_update<T>(m1: GenVecModel<T>, m2: GenVecModel<T>)
    requires
        wf_model(m1),
        m2.free_list == m1.free_list,
        m2.slots.len() == m1.slots.len(),
        forall|i: int|
            0 <= i < m1.slots.len() ==> (#[trigger] m2.slots[i]).generation
                == m1.slots[i].generation && m2.slots[i].live == m1.slots[i].live,
    ensures
        wf_model(m2),
{
    assert forall|i: usize| i < m2.slots.len() && !(#[trigger] m2.slots[i as int]).live implies m2.free_list.contains(
        i,
    ) by {
        assert(!m1.slots[i as int].live);
    }
}

/// The handle an allocation returns, as a function of the arena state it
/// starts from: the top of the free list with that slot's stored generation,
/// or a fresh position at generation 0.
pub open spec fn allocate_handle<T>(m: GenVecModel<T>) -> HandleModel {
    if m.free_list.len() > 0 {
        HandleModel {
            generation: m.slots[m.free_list.last() as int].generation,
            index: m.free_list.last(),
        }
    } else {
        HandleModel { generation: 0, index: m.slots.len() as usize }
    }
}

/// The arena state an allocation leads to: the reused slot keeps its stored
/// generation and turns live with the new value, or a fresh live slot at
/// generation 0 is appended.
pub open spec fn allocate_model<T>(m: GenVecModel<T>, value: T) -> GenVecModel<T> {
    if m.free_list.len() > 0 {
        let i = m.free_list.last() as int;
        GenVecModel {
            slots: m.slots.update(
                i,
                SlotModel { generation: m.slots[i].generation, live: true, value },
            ),
            free_list: m.free_list.drop_last(),
        }
    } else {
        GenVecModel {
            slots: m.slots.push(SlotModel { generation: 0, live: true, value }),
            free_list: m.free_list,
        }
    }
}

/// The arena state a free leads to: when the handle still matches, the
/// slot's generation goes up by one, the slot stops being live (its value
/// stays behind, logically absent), and the position lands on the free list;
/// a stale or out-of-range handle changes nothing.
pub open spec fn free_model<T>(m: GenVecModel<T>, h: HandleModel) -> GenVecModel<T> {
    if handle_matches(m, h) {
        GenVecModel {
            slots: m.slots.update(
                h.index as int,
                SlotModel {
                    generation: (h.generation + 1) as u64,
                    live: false,
                    value: m.slots[h.index as int].value,
                },
            ),
            free_list: m.free_list.push(h.index),
        }
    } else {
        m
    }
}

/// The values iteration yields: those of the live slots, in ascending slot
/// order. Freed slots are scanned but skipped, so the cost of a traversal
/// grows with the highest slot count ever reached, not with the number of
/// live entries.
pub open spec fn live_values<T>(slots: Seq<SlotModel<T>>) -> Seq<T>
    decreases slots.len(),
{
    if slots.len() == 0 {
        Seq::empty()
    } else if slots.last().live {
        live_values(slots.drop_last()).push(slots.last().value)
    } else {
        live_values(slots.drop_last())
    }
}

/// The handles exclusive iteration yields: one matching handle per live
/// slot, in ascending slot order, carrying the slot's current generation.
pub open spec fn live_handles<T>(slots: Seq<SlotModel<T>>) -> Seq<HandleModel>
    decreases slots.len(),
{
    if slots.len() == 0 {
        Seq::empty()
    } else if slots.last().live {
        live_handles(slots.drop_last()).push(
            HandleModel {
                generation: slots.last().generation,
                index: (slots.len() - 1) as usize,
            },
        )
    } else {
        live_handles(slots.drop_last())
    }
}

/// One arena state can evolve into another: slots are never removed, and no
/// slot's generation ever goes down. Every operation's ensures implies this
/// relation between the states before and after, so it holds along every
/// sequence of operations.
pub open spec fn evolves<T>(m1: GenVecModel<T>, m2: GenVecModel<T>) -> bool {
    &&& m1.slots.len() <= m2.slots.len()
    &&& forall|i: int|
        0 <= i < m1.slots.len() ==> (#[trigger] m1.slots[i]).generation <= m2.slots[i].generation
}

impl<T> GenVec<T> {
    /// The invariant every operation preserves.
    pub open spec fn wf(&self) -> bool {
        wf_model(self@)
    }

    /// An arena holds its slots in a vector, so their number always fits in
    /// `usize`; the laws about iteration take that bound as a hypothesis.
    pub proof fn lemma_slot_count_fits(&self)
        ensures
            self@.slots.len() <= usize::MAX,
    {
        assert(vstd::std_specs::vec::spec_vec_len(&self.vec) == self.vec@.len());
    }

    /// A fresh arena with a small built-in capacity hint.
    pub fn new() -> (r: Self)
        ensures
            r.wf(),
            r@ == empty_model::<T>(),
    {
        Self::with_capacity(8)
    }

    /// A fresh arena with storage reserved for `capacity` entries. The hint
    /// affects performance only: the resulting state is the same for every
    /// `capacity`.
    pub fn with_capacity(capacity: usize) -> (r: Self)
        ensures
            r.wf(),
            r@ == empty_model::<T>(),
    {
        let r = GenVec { vec: Vec::with_capacity(capacity), freelist: Vec::new() };
        proof {
            assert(r@.slots =~= empty_model::<T>().slots);
            assert(r@ =~= empty_model::<T>());
        }
        r
    }

    /// Store `data` in a slot and return a handle to it. The most recently
    /// freed slot is reused first, keeping whatever generation its last free
    /// left stored; when no freed slot is available a fresh slot is appended
    /// at generation 0. Always succeeds, and the returned handle matches its
    /// slot immediately.
    pub fn allocate(&mut self, data: T) -> (h: EntryHandle<T>)
        requires
            old(self).wf(),
        ensures
            final(self).wf(),
            final(self)@ == allocate_model(old(self)@, data),
            h@ == allocate_handle(old(self)@),
            handle_matches(final(self)@, h@),
            final(self)@.slots[h@.index as int].live,
            final(self)@.slots[h@.index as int].value == data,
            evolves(old(self)@, final(self)@),
    {
        let index: usize;
        let generation: u64;
        if let Some(index_) = self.freelist.pop() {
            index = index_;
            proof {
                assert(old(self)@.free_list[old(self)@.free_list.len() - 1] == index);
                assert(index < self.vec@.len());
            }
            let el = &mut self.vec[index];
            generation = el.generation;
            *el = GenVecEntry { generation, live: true, data };
            proof {
                let m0 = old(self)@;
                let m1 = self@;
                assert(m1.slots =~= allocate_model(m0, data).slots);
                assert(m1 =~= allocate_model(m0, data));
                assert(m0.free_list[m0.free_list.len() - 1] == index);
                assert forall|k: int| 0 <= k < m1.free_list.len() implies (
                #[trigger] m1.free_list[k]) < m1.slots.len()
                    && !m1.slots[m1.free_list[k] as int].live by {
                    assert(m1.free_list[k] == m0.free_list[k]);
                    assert(m0.free_list[k] != m0.free_list[m0.free_list.len() - 1]);
                }
                assert forall|i: usize|
                    i < m1.slots.len() && !(#[trigger] m1.slots[i as int]).live implies m1.free_list.contains(
                    i,
                ) by {
                    assert(i != index);
                    assert(!m0.slots[i as int].live);
                    assert(m0.free_list.contains(i));
                    let k = choose|k: int| 0 <= k < m0.free_list.len() && m0.free_list[k] == i;
                    assert(k != m0.free_list.len() - 1);
                    assert(m1.free_list[k] == i);
                }
            }
        } else {
            index = self.vec.len();
            generation = 0;
            self.vec.push(GenVecEntry { generation, live: true, data });
            proof {
                assert(self@.slots =~= allocate_model(old(self)@, data).slots);
                assert(self@ =~= allocate_model(old(self)@, data));
            }
        }
        EntryHandle { generation, index, enforce_typing: PhantomData }
    }

    /// Mark the slot the handle names as disused: its generation goes up by
    /// one and its position joins the free list, so the handle and every
    /// copy of it stop matching for good. A stale, doubly-freed or
    /// out-of-range handle is silently ignored; the free list gains an entry
    /// only on a genuine transition from live to freed. The stored value is
    /// not dropped here; it is overwritten when the slot is next allocated.
    pub fn free(&mut self, h: EntryHandle<T>)
        requires
            old(self).wf(),
            handle_matches(old(self)@, h@) ==> h@.generation < u64::MAX,
        ensures
            final(self).wf(),
            final(self)@ == free_model(old(self)@, h@),
            !handle_matches(final(self)@, h@),
            !handle_matches(old(self)@, h@) ==> final(self)@ == old(self)@,
            handle_matches(old(self)@, h@) ==> final(self)@.free_list == old(
                self,
            )@.free_list.push(h@.index),
            evolves(old(self)@, final(self)@),
    {
        if h.index >= self.vec.len() {
            return ;
        }
        if !self.vec[h.index].live || self.vec[h.index].generation != h.generation {
            return ;
        }
        let el = &mut self.vec[h.index];
        el.generation = el.generation + 1;
        el.live = false;
        self.freelist.push(h.index);
        proof {
            let m0 = old(self)@;
            let m1 = self@;
            assert(m1.slots =~= free_model(m0, h@).slots);
            assert(m1 =~= free_model(m0, h@));
            assert forall|k: int| 0 <= k < m0.free_list.len() implies m0.free_list[k] != h@.index by {
                assert(!m0.slots[m0.free_list[k] as int].live);
            }
            assert forall|i: usize|
                i < m1.slots.len() && !(#[trigger] m1.slots[i as int]).live implies m1.free_list.contains(
                i,
            ) by {
                if i == h@.index {
                    assert(m1.free_list[m1.free_list.len() - 1] == h@.index);
                } else {
                    assert(!m0.slots[i as int].live);
                    assert(m0.free_list.contains(i));
                    let k = choose|k: int| 0 <= k < m0.free_list.len() && m0.free_list[k] == i;
                    assert(m1.free_list[k] == i);
                }
            }
        }
    }

    /// Safely check whether the handle still names a live value: true exactly
    /// when the slot is within bounds, live, and at the handle's generation.
    /// An out-of-range position yields false rather than an error.
    pub fn contains(&self, h: EntryHandle<T>) -> (r: bool)
        ensures
            r == handle_matches(self@, h@),
    {
        if h.index < self.vec.len() {
            if self.vec[h.index].live && self.vec[h.index].generation == h.generation {
                return true;
            }
        }
        false
    }

    /// Get a shared reference to the value, or panic-free absence: `Some`
    /// exactly when the handle still matches its slot, `None` for a stale,
    /// doubly-freed or out-of-range handle.
    pub fn get_ref(&self, h: EntryHandle<T>) -> (r: Option<&T>)
        ensures
            handle_matches(self@, h@) <==> r.is_some(),
            r.is_some() ==> *r.unwrap() == self@.slots[h@.index as int].value,
    {
        if h.index >= self.vec.len() {
            return None;
        }
        if !self.vec[h.index].live || self.vec[h.index].generation != h.generation {
            return None;
        }
        Some(&self.vec[h.index].data)
    }

    /// Get an exclusive reference to the value, or `None` for a handle that
    /// no longer matches. Whatever the caller writes through the reference
    /// becomes the slot's value; generations, liveness and the free list
    /// stay as they were.
    pub fn get_mut(&mut self, h: EntryHandle<T>) -> (r: Option<&mut T>)
        ensures
            handle_matches(old(self)@, h@) <==> r.is_some(),
            r.is_none() ==> *final(self) == *old(self),
            r.is_some() ==> *r.unwrap() == old(self)@.slots[h@.index as int].value
                && final(self)@.slots.len() == old(self)@.slots.len() && final(self)@.slots[h@.index as int]
                == (SlotModel {
                generation: old(self)@.slots[h@.index as int].generation,
                live: old(self)@.slots[h@.index as int].live,
                value: *final(r.unwrap()),
            }) && (forall|i: int|
                0 <= i < old(self)@.slots.len() && i != h@.index as int
                    ==> final(self)@.slots[i] == old(self)@.slots[i]) && final(self)@.free_list
                == old(self)@.free_list,
    {
        if h.index >= self.vec.len() {
            return None;
        }
        if !self.vec[h.index].live || self.vec[h.index].generation != h.generation {
            return None;
        }
        let el = &mut self.vec[h.index];
        Some(&mut el.data)
    }

    /// Get a shared reference to the value, for call sites that have already
    /// established that the handle matches (for instance right after the
    /// allocation that issued it).
    pub fn index_ref(&self, h: EntryHandle<T>) -> (r: &T)
        requires
            handle_matches(self@, h@),
        ensures
            *r == self@.slots[h@.index as int].value,
    {
        &self.vec[h.index].data
    }

    /// Get an exclusive reference to the value, for call sites that have
    /// already established that the handle matches. Whatever the caller
    /// writes through the reference becomes the slot's value; generations,
    /// liveness and the free list stay as they were.
    pub fn index_mut(&mut self, h: EntryHandle<T>) -> (r: &mut T)
        requires
            handle_matches(old(self)@, h@),
        ensures
            *r == old(self)@.slots[h@.index as int].value,
            final(self)@.slots.len() == old(self)@.slots.len(),
            final(self)@.slots[h@.index as int] == (SlotModel {
                generation: old(self)@.slots[h@.index as int].generation,
                live: old(self)@.slots[h@.index as int].live,
                value: *final(r),
            }),
            forall|i: int|
                0 <= i < old(self)@.slots.len() && i != h@.index as int ==> final(self)@.slots[i]
                    == old(self)@.slots[i],
            final(self)@.free_list == old(self)@.free_list,
    {
        let el = &mut self.vec[h.index];
        &mut el.data
    }
}

impl<T> GenVec<T> {
    /// Shared iteration: references to every currently live value, visiting
    /// slots in ascending position order and skipping freed ones. The
    /// traversal is restartable: it reads the arena and builds a fresh
    /// sequence of references each time.
    pub fn iter(&self) -> (r: Vec<&T>)
        ensures
            r@.map_values(|p: &T| *p) == live_values(self@.slots),
    {
        let mut r: Vec<&T> = Vec::new();
        let n = self.vec.len();
        let mut i: usize = 0;
        while i < n
            invariant
                i <= n,
                n == self.vec@.len(),
                r@.map_values(|p: &T| *p) == live_values(self@.slots.take(i as int)),
            decreases n - i,
        {
            let ghost prev = r@.map_values(|p: &T| *p);
            if self.vec[i].live {
                r.push(&self.vec[i].data);
            }
            i = i + 1;
            proof {
                let t = self@.slots.take(i as int);
                assert(t.drop_last() =~= self@.slots.take(i as int - 1));
                assert(t.last() == self@.slots[i as int - 1]);
                if self@.slots[i as int - 1].live {
                    assert(r@.map_values(|p: &T| *p) =~= prev.push(self@.slots[i as int - 1].value));
                } else {
                    assert(r@.map_values(|p: &T| *p) =~= prev);
                }
            }
        }
        proof {
            assert(self@.slots.take(n as int) =~= self@.slots);
        }
        r
    }

    /// Exclusive iteration: one matching handle per live value, in ascending
    /// slot order. Updating every live entry in place is done by taking the
    /// handles and writing through `index_mut` or `get_mut`, which keeps the
    /// exclusive borrow of the arena to one entry at a time.
    pub fn iter_mut(&self) -> (r: Vec<EntryHandle<T>>)
        ensures
            r@.map_values(|h: EntryHandle<T>| h@) == live_handles(self@.slots),
            forall|k: int| 0 <= k < r@.len() ==> handle_matches(self@, (#[trigger] r@[k])@),
    {
        let mut r: Vec<EntryHandle<T>> = Vec::new();
        let n = self.vec.len();
        let mut i: usize = 0;
        while i < n
            invariant
                i <= n,
                n == self.vec@.len(),
                r@.map_values(|h: EntryHandle<T>| h@) == live_handles(self@.slots.take(i as int)),
                forall|k: int| 0 <= k < r@.len() ==> handle_matches(self@, (#[trigger] r@[k])@),
            decreases n - i,
        {
            let ghost prev = r@.map_values(|h: EntryHandle<T>| h@);
            if self.vec[i].live {
                let h = EntryHandle {
                    generation: self.vec[i].generation,
                    index: i,
                    enforce_typing: PhantomData,
                };
                r.push(h);
            }
            i = i + 1;
            proof {
                let t = self@.slots.take(i as int);
                assert(t.drop_last() =~= self@.slots.take(i as int - 1));
                assert(t.last() == self@.slots[i as int - 1]);
                if self@.slots[i as int - 1].live {
                    assert(r@.map_values(|h: EntryHandle<T>| h@) =~= prev.push(
                        live_handles(t).last(),
                    ));
                } else {
                    assert(r@.map_values(|h: EntryHandle<T>| h@) =~= prev);
                }
            }
        }
        proof {
            assert(self@.slots.take(n as int) =~= self@.slots);
        }
        r
    }
}

impl<T: Copy> GenVec<T> {
    /// Get a copy of the value, or `None` for a handle that no longer
    /// matches. The copy is free of any borrow of the arena.
    pub fn get_copy(&self, h: EntryHandle<T>) -> (r: Option<T>)
        ensures
            handle_matches(self@, h@) <==> r.is_some(),
            r.is_some() ==> r.unwrap() == self@.slots[h@.index as int].value,
    {
        if h.index >= self.vec.len() {
            return None;
        }
        if !self.vec[h.index].live || self.vec[h.index].generation != h.generation {
            return None;
        }
        Some(self.vec[h.index].data)
    }

    /// Get a copy of the value, for call sites that have already established
    /// that the handle matches.
    pub fn index_copy(&self, h: EntryHandle<T>) -> (r: T)
        requires
            handle_matches(self@, h@),
        ensures
            r == self@.slots[h@.index as int].value,
    {
        self.vec[h.index].data
    }
}

impl<T> EntryHandle<T> {
    /// The slot position this handle names. Inspection only: access always
    /// goes through the arena, which also checks the generation.
    pub fn position(&self) -> (r: usize)
        ensures
            r == self@.index,
    {
        self.index
    }

    /// The generation this handle carries: the one its slot had when the
    /// value was stored.
    pub fn generation(&self) -> (r: u64)
        ensures
            r == self@.generation,
    {
        self.generation
    }
}

impl<T> Default for GenVec<T> {
    /// The same arena `new` yields.
    fn default() -> (r: Self)
        ensures
            r.wf(),
            r@ == empty_model::<T>(),
    {
        Self::new()
    }
}

} // verus!
