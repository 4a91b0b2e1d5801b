use mnn::list::TensorList;

#[test]
fn list_entries() {
    let l = TensorList::from_ptr(vec![11, 0, 13]);
    assert_eq!(l.size(), 3);
    assert_eq!(l.get(0).unwrap().handle(), 11);
    assert!(l.get(1).is_none());
    assert_eq!(l.get(2).unwrap().handle(), 13);
    assert!(l.get(3).is_none());
    assert!(l.get(999).is_none());
}

#[test]
fn walk_stops_at_the_end_and_stays_stopped() {
    let l = TensorList::from_ptr(vec![1, 2, 3]);
    let mut it = l.iter();
    let mut seen = Vec::new();
    while let Some(t) = it.next() {
        seen.push(t.handle());
    }
    assert_eq!(seen, vec![1, 2, 3]);
    assert!(it.next().is_none());
    assert!(it.next().is_none());
}

#[test]
fn empty_list_walk() {
    let l = TensorList::from_ptr(Vec::new());
    assert_eq!(l.size(), 0);
    assert!(l.iter().next().is_none());
}
