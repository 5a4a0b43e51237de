use genvec::genvec::GenVec;

fn collected(a: &GenVec<u32>) -> Vec<u32> {
    a.iter().into_iter().map(|p| *p).collect()
}

#[test]
fn fresh_handle_matches_and_reads_back() {
    let mut a: GenVec<u32> = GenVec::new();
    let h = a.allocate(41);
    assert!(a.contains(h));
    assert_eq!(a.get_ref(h), Some(&41));
    assert_eq!(a.get_copy(h), Some(41));
    assert_eq!(*a.index_ref(h), 41);
    assert_eq!(a.index_copy(h), 41);
}

#[test]
fn free_invalidates_handle_and_all_copies() {
    let mut a: GenVec<u32> = GenVec::new();
    let h = a.allocate(5);
    let copy = h;
    let cloned = h.clone();
    assert!(a.contains(h));
    a.free(h);
    assert!(!a.contains(h));
    assert!(!a.contains(copy));
    assert!(!a.contains(cloned));
    assert_eq!(a.get_ref(h), None);
    assert_eq!(a.get_copy(copy), None);
}

#[test]
fn double_free_is_a_noop() {
    let mut a: GenVec<u32> = GenVec::new();
    let h = a.allocate(1);
    a.free(h);
    a.free(h);
    // Were the free list corrupted by the second free, the same slot would
    // be handed out twice in a row.
    let x = a.allocate(10);
    let y = a.allocate(20);
    assert_ne!(x.position(), y.position());
    assert_eq!(x.position(), h.position());
    assert_eq!(a.get_copy(x), Some(10));
    assert_eq!(a.get_copy(y), Some(20));
}

#[test]
fn free_of_stale_handle_after_reuse_is_a_noop() {
    let mut a: GenVec<u32> = GenVec::new();
    let old = a.allocate(1);
    a.free(old);
    let new = a.allocate(2);
    assert_eq!(new.position(), old.position());
    // The stale handle must not free the new occupant.
    a.free(old);
    assert!(a.contains(new));
    assert_eq!(a.get_copy(new), Some(2));
}

#[test]
fn reuse_never_aliases_old_handle() {
    let mut a: GenVec<u32> = GenVec::new();
    let h_x = a.allocate(111);
    a.free(h_x);
    let h_y = a.allocate(222);
    // LIFO reuse: the freed slot is taken again.
    assert_eq!(h_y.position(), h_x.position());
    assert!(!a.contains(h_x));
    assert!(a.contains(h_y));
    // Accessing through the old handle never observes the new value.
    assert_eq!(a.get_ref(h_x), None);
    assert_eq!(a.get_copy(h_x), None);
    assert_eq!(a.get_copy(h_y), Some(222));
    // The generation of the slot strictly grew across the free.
    assert!(h_y.generation() > h_x.generation());
}

#[test]
fn generations_keep_growing_across_many_reuses() {
    let mut a: GenVec<u32> = GenVec::new();
    let mut h = a.allocate(0);
    let mut last_gen = h.generation();
    for round in 1..6u32 {
        a.free(h);
        let next = a.allocate(round);
        assert_eq!(next.position(), h.position());
        assert!(next.generation() > last_gen);
        assert!(!a.contains(h));
        assert!(a.contains(next));
        last_gen = next.generation();
        h = next;
    }
    assert_eq!(a.get_copy(h), Some(5));
}

#[test]
fn iteration_yields_live_values_in_slot_order() {
    let mut a: GenVec<u32> = GenVec::new();
    let mut handles = Vec::new();
    for i in 0..10u32 {
        handles.push(a.allocate(i));
    }
    // Free every odd-indexed allocation.
    for (i, h) in handles.iter().enumerate() {
        if i % 2 == 1 {
            a.free(*h);
        }
    }
    assert_eq!(collected(&a), vec![0, 2, 4, 6, 8]);
}

#[test]
fn iteration_of_empty_arena_is_empty() {
    let a: GenVec<u32> = GenVec::new();
    assert_eq!(collected(&a), Vec::<u32>::new());
    assert_eq!(a.iter_mut().len(), 0);
}

#[test]
fn exclusive_iteration_updates_every_live_value() {
    let mut a: GenVec<u32> = GenVec::new();
    let kept = a.allocate(100);
    let dropped = a.allocate(200);
    let tail = a.allocate(300);
    a.free(dropped);
    let handles = a.iter_mut();
    assert_eq!(handles.len(), 2);
    for h in handles {
        assert!(a.contains(h));
        *a.index_mut(h) += 1;
    }
    assert_eq!(a.get_copy(kept), Some(101));
    assert_eq!(a.get_copy(tail), Some(301));
    assert_eq!(collected(&a), vec![101, 301]);
}

#[test]
fn get_mut_writes_become_the_stored_value() {
    let mut a: GenVec<u32> = GenVec::new();
    let h = a.allocate(7);
    match a.get_mut(h) {
        Some(p) => *p = 70,
        None => unreachable!(),
    }
    assert_eq!(a.get_copy(h), Some(70));
    a.free(h);
    assert!(a.get_mut(h).is_none());
}

#[test]
fn capacity_hint_does_not_change_behavior() {
    let mut small: GenVec<u32> = GenVec::with_capacity(0);
    let mut large: GenVec<u32> = GenVec::with_capacity(1000);
    let mut defaulted: GenVec<u32> = GenVec::default();
    for arena in [&mut small, &mut large, &mut defaulted] {
        let first = arena.allocate(1);
        let second = arena.allocate(2);
        arena.free(first);
        let third = arena.allocate(3);
        assert_eq!(first.position(), 0);
        assert_eq!(second.position(), 1);
        assert_eq!(third.position(), 0);
        assert!(!arena.contains(first));
        assert!(arena.contains(second));
        assert!(arena.contains(third));
        assert_eq!(collected(arena), vec![3, 2]);
    }
}

#[test]
fn scenario_ten_values_then_free_first() {
    let mut a: GenVec<u32> = GenVec::with_capacity(1000);
    let first = a.allocate(777);
    for i in 1..10u32 {
        a.allocate(i);
    }
    assert!(a.contains(first));
    a.free(first);
    assert!(!a.contains(first));
    assert_eq!(collected(&a), vec![1, 2, 3, 4, 5, 6, 7, 8, 9]);
}

#[test]
fn scenario_free_then_reallocate_same_slot() {
    let mut a: GenVec<u32> = GenVec::new();
    let a_handle = a.allocate(10);
    a.free(a_handle);
    let b_handle = a.allocate(20);
    assert_eq!(b_handle.position(), a_handle.position());
    assert!(!a.contains(a_handle));
    assert!(a.contains(b_handle));
    assert_eq!(a.get_ref(a_handle), None);
    assert_eq!(a.get_copy(a_handle), None);
    assert_eq!(*a.index_ref(b_handle), 20);
}

#[test]
fn handle_from_larger_arena_is_out_of_range_in_smaller() {
    let mut big: GenVec<u32> = GenVec::new();
    big.allocate(1);
    big.allocate(2);
    let far = big.allocate(3);
    let mut small: GenVec<u32> = GenVec::new();
    small.allocate(9);
    // Same element type, different arena: the position is past the end of
    // the smaller arena's storage, which reads as absence, not an error.
    assert!(!small.contains(far));
    assert_eq!(small.get_ref(far), None);
    assert_eq!(small.get_copy(far), None);
    assert!(small.get_mut(far).is_none());
    small.free(far);
    assert_eq!(collected(&small), vec![9]);
}

#[test]
fn non_copy_values_are_supported() {
    let mut a: GenVec<String> = GenVec::new();
    let h1 = a.allocate(String::from("alpha"));
    let h2 = a.allocate(String::from("beta"));
    a.free(h1.clone());
    assert_eq!(a.get_ref(h2.clone()), Some(&String::from("beta")));
    assert_eq!(a.get_ref(h1), None);
    let words: Vec<String> = a.iter().into_iter().cloned().collect();
    assert_eq!(words, vec![String::from("beta")]);
    match a.get_mut(h2.clone()) {
        Some(w) => w.push('!'),
        None => unreachable!(),
    }
    assert_eq!(a.get_ref(h2), Some(&String::from("beta!")));
}

#[test]
fn handles_compare_as_plain_tokens() {
    let mut a: GenVec<u32> = GenVec::new();
    let h1 = a.allocate(1);
    let h2 = a.allocate(2);
    assert_eq!(h1, h1.clone());
    assert_ne!(h1, h2);
    a.free(h1);
    let h3 = a.allocate(3);
    // Same position, later generation: a different token.
    assert_eq!(h3.position(), h1.position());
    assert_ne!(h3, h1);
}

#[test]
fn debug_dump_shows_internal_state() {
    let mut a: GenVec<u32> = GenVec::new();
    let h = a.allocate(42);
    a.free(h);
    let dump = format!("{:?}", a);
    assert!(dump.contains("freelist"));
    assert!(dump.contains("generation"));
}
