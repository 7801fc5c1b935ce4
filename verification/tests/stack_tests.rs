use stack_vec::stack::StackVec;

fn buffer(n: usize) -> Vec<i32> {
    let mut v = Vec::new();
    for _ in 0..n {
        v.push(0);
    }
    v
}

#[test]
fn new_is_empty_with_storage_capacity() {
    let sv = StackVec::new(buffer(4));
    assert_eq!(sv.len(), 0);
    assert!(sv.is_empty());
    assert_eq!(sv.capacity(), 4);
    assert!(!sv.is_full());
}

#[test]
fn with_len_presets_length() {
    let mut storage = Vec::new();
    storage.push(7);
    storage.push(8);
    storage.push(9);
    let sv = StackVec::with_len(storage, 2);
    assert_eq!(sv.len(), 2);
    assert_eq!(sv.capacity(), 3);
    assert_eq!(*sv.get(0), 7);
    assert_eq!(*sv.get(1), 8);
}

#[test]
fn push_monotonicity() {
    let mut sv = StackVec::new(buffer(3));
    assert_eq!(sv.len(), 0);
    assert!(sv.push(11).is_ok());
    assert_eq!(sv.len(), 1);
    assert_eq!(*sv.get(0), 11);
    assert!(sv.push(22).is_ok());
    assert_eq!(sv.len(), 2);
    assert_eq!(*sv.get(1), 22);
}

#[test]
fn push_saturation_leaves_contents() {
    let mut sv = StackVec::new(buffer(2));
    assert!(sv.push(1).is_ok());
    assert!(sv.push(2).is_ok());
    assert!(sv.is_full());
    assert!(sv.push(3).is_err());
    assert_eq!(sv.len(), 2);
    assert_eq!(*sv.get(0), 1);
    assert_eq!(*sv.get(1), 2);
}

#[test]
fn pop_push_lifo_order() {
    let mut sv = StackVec::new(buffer(4));
    assert!(sv.push(1).is_ok());
    assert!(sv.push(2).is_ok());
    assert!(sv.push(3).is_ok());
    assert!(sv.push(4).is_ok());
    assert_eq!(sv.pop(), Some(4));
    assert_eq!(sv.pop(), Some(3));
    assert_eq!(sv.pop(), Some(2));
    assert_eq!(sv.pop(), Some(1));
    assert!(sv.is_empty());
    assert_eq!(sv.pop(), None);
}

#[test]
fn pop_on_empty_is_none() {
    let mut sv = StackVec::new(buffer(1));
    assert_eq!(sv.pop(), None);
}

#[test]
fn truncate_keeps_first_elements() {
    let mut sv = StackVec::new(buffer(3));
    assert!(sv.push(10).is_ok());
    assert!(sv.push(20).is_ok());
    assert!(sv.push(30).is_ok());
    sv.truncate(1);
    assert_eq!(sv.len(), 1);
    assert_eq!(*sv.get(0), 10);
    assert_eq!(sv.capacity(), 3);
}

#[test]
fn truncate_above_len_is_noop() {
    let mut sv = StackVec::new(buffer(3));
    assert!(sv.push(10).is_ok());
    assert!(sv.push(20).is_ok());
    sv.truncate(2);
    assert_eq!(sv.len(), 2);
    sv.truncate(5);
    assert_eq!(sv.len(), 2);
    assert_eq!(*sv.get(0), 10);
    assert_eq!(*sv.get(1), 20);
}

#[test]
fn fullness_tracks_length_vs_capacity() {
    let mut sv = StackVec::new(buffer(2));
    assert_eq!(sv.is_full(), sv.len() == sv.capacity());
    assert!(sv.push(5).is_ok());
    assert_eq!(sv.is_full(), sv.len() == sv.capacity());
    assert!(sv.push(6).is_ok());
    assert!(sv.is_full());
    assert_eq!(sv.pop(), Some(6));
    assert!(!sv.is_full());
}

#[test]
fn set_overwrites_in_place() {
    let mut sv = StackVec::new(buffer(2));
    assert!(sv.push(1).is_ok());
    assert!(sv.push(2).is_ok());
    sv.set(0, 99);
    assert_eq!(*sv.get(0), 99);
    assert_eq!(*sv.get(1), 2);
    assert_eq!(sv.len(), 2);
}

#[test]
fn as_slice_is_logical_prefix() {
    let mut sv = StackVec::new(buffer(4));
    assert!(sv.push(1).is_ok());
    assert!(sv.push(2).is_ok());
    assert!(sv.push(3).is_ok());
    assert_eq!(sv.as_slice(), &[1, 2, 3]);
    sv.truncate(1);
    assert_eq!(sv.as_slice(), &[1]);
}

#[test]
fn as_mut_slice_writes_land_in_vector() {
    let mut sv = StackVec::new(buffer(4));
    assert!(sv.push(1).is_ok());
    assert!(sv.push(2).is_ok());
    assert!(sv.push(3).is_ok());
    {
        let s = sv.as_mut_slice();
        assert_eq!(s.len(), 3);
        s[0] = 100;
        s[2] = 300;
    }
    assert_eq!(sv.as_slice(), &[100, 2, 300]);
    assert_eq!(sv.len(), 3);
    assert_eq!(sv.capacity(), 4);
}

#[test]
fn into_slice_yields_logical_elements() {
    let mut sv = StackVec::new(buffer(4));
    assert!(sv.push(5).is_ok());
    assert!(sv.push(6).is_ok());
    let out = sv.into_slice();
    assert_eq!(out, vec![5, 6]);
}

#[test]
fn four_slot_scenario() {
    let mut sv = StackVec::new(buffer(4));
    assert!(sv.push(1).is_ok());
    assert!(sv.push(2).is_ok());
    assert!(sv.push(3).is_ok());
    assert_eq!(sv.len(), 3);
    assert_eq!(sv.capacity(), 4);
    assert!(!sv.is_full());
    assert!(sv.push(4).is_ok());
    assert_eq!(sv.len(), 4);
    assert!(sv.is_full());
    assert!(sv.push(5).is_err());
    assert_eq!(sv.len(), 4);
    assert_eq!(sv.pop(), Some(4));
    assert_eq!(sv.len(), 3);
    sv.truncate(1);
    assert_eq!(sv.len(), 1);
    assert_eq!(sv.as_slice(), &[1]);
}

#[test]
fn consuming_iteration_bounded_by_length() {
    let mut sv = StackVec::new(buffer(4));
    assert!(sv.push(10).is_ok());
    assert!(sv.push(20).is_ok());
    let mut it = sv.into_iter();
    assert_eq!(it.next(), Some(10));
    assert_eq!(it.next(), Some(20));
    assert_eq!(it.next(), None);
    assert_eq!(it.next(), None);
}
