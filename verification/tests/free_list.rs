use industria::container::FreeList;

#[test]
fn a_new_list_is_empty() {
    let list: FreeList<u32> = FreeList::new();
    assert_eq!(list.len(), 0);
    assert!(list.is_empty());
    assert_eq!(list.slot_count(), 0);
    assert_eq!(list.next_index(), 0);
    assert!(!list.contains(0));
    assert_eq!(list.get(0), None);
}

#[test]
fn reserving_room_creates_no_slot() {
    let mut list: FreeList<u32> = FreeList::with_capacity(3);
    assert_eq!(list.len(), 0);
    assert_eq!(list.slot_count(), 0);
    assert_eq!(list.allocate(5), 0);
}

#[test]
fn fresh_allocations_count_up_from_zero() {
    let mut list: FreeList<&str> = FreeList::new();
    assert_eq!(list.allocate("a"), 0);
    assert_eq!(list.allocate("b"), 1);
    assert_eq!(list.allocate("c"), 2);
    assert_eq!(list.len(), 3);
    assert_eq!(list.slot_count(), 3);
    assert_eq!(list.get(0), Some(&"a"));
    assert_eq!(list.get(1), Some(&"b"));
    assert_eq!(list.get(2), Some(&"c"));
    assert_eq!(list.get(3), None);
}

#[test]
fn a_released_index_is_returned_by_the_very_next_allocation() {
    let mut list: FreeList<u32> = FreeList::new();
    for value in 0..5 {
        list.allocate(value);
    }
    for index in 0..5 {
        assert_eq!(list.release(index), Some(index as u32));
        assert_eq!(list.next_index(), index);
        assert_eq!(list.allocate(100 + index as u32), index);
        assert_eq!(list.get(index), Some(&(100 + index as u32)));
        assert_eq!(list.len(), 5);
    }
}

#[test]
fn allocate_reuses_the_slot_released_last() {
    let mut list: FreeList<u32> = FreeList::new();
    assert_eq!(list.allocate(10), 0);
    assert_eq!(list.allocate(11), 1);
    assert_eq!(list.allocate(12), 2);
    assert_eq!(list.release(0), Some(10));
    assert_eq!(list.release(2), Some(12));
    assert_eq!(list.len(), 1);
    assert_eq!(list.slot_count(), 3);
    assert_eq!(list.next_index(), 2);
    assert_eq!(list.allocate(20), 2);
    assert_eq!(list.allocate(21), 0);
    assert_eq!(list.allocate(22), 3);
    assert_eq!(list.len(), 4);
}

#[test]
fn an_allocation_never_lands_on_a_live_value() {
    let mut list: FreeList<usize> = FreeList::new();
    let mut live: Vec<usize> = Vec::new();
    for round in 0..200usize {
        if round % 3 == 2 {
            let victim = live.remove((round * 7) % live.len());
            assert_eq!(list.release(victim), Some(victim));
        } else {
            let index = list.allocate(0);
            assert!(!live.contains(&index));
            assert_eq!(list.release(index), Some(0));
            assert_eq!(list.allocate(index), index);
            live.push(index);
        }
        assert_eq!(list.len(), live.len());
        for index in live.iter() {
            assert_eq!(list.get(*index), Some(index));
        }
    }
}

#[test]
fn releasing_twice_or_out_of_range_changes_nothing() {
    let mut list: FreeList<u32> = FreeList::new();
    list.allocate(1);
    list.allocate(2);
    assert_eq!(list.release(0), Some(1));
    assert_eq!(list.release(0), None);
    assert_eq!(list.release(7), None);
    assert_eq!(list.len(), 1);
    assert_eq!(list.next_index(), 0);
    assert!(!list.contains(0));
    assert!(list.contains(1));
    assert!(!list.contains(7));
    assert_eq!(list.allocate(3), 0);
    assert_eq!(list.allocate(4), 2);
}

#[test]
fn other_indices_stay_put_across_release_and_reuse() {
    let mut list: FreeList<u32> = FreeList::new();
    for value in 0..4 {
        list.allocate(value * 10);
    }
    list.release(1);
    assert_eq!(list.get(0), Some(&0));
    assert_eq!(list.get(1), None);
    assert_eq!(list.get(2), Some(&20));
    assert_eq!(list.get(3), Some(&30));
    list.allocate(99);
    assert_eq!(list.get(0), Some(&0));
    assert_eq!(list.get(1), Some(&99));
    assert_eq!(list.get(2), Some(&20));
    assert_eq!(list.get(3), Some(&30));
}
