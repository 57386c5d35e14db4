use fx::list::StatefulList;

#[test]
fn next_from_none_selects_first() {
    let mut l = StatefulList::with_items(vec![10, 20, 30]);
    assert_eq!(l.getSelected(), None);
    l.next();
    assert_eq!(l.getSelected(), Some(0));
}

#[test]
fn previous_from_none_selects_first() {
    let mut l = StatefulList::with_items(vec![10, 20, 30]);
    l.previous();
    assert_eq!(l.getSelected(), Some(0));
}

#[test]
fn previous_from_first_wraps_to_last() {
    let mut l = StatefulList::with_items(vec!['a', 'b', 'c', 'd']);
    l.next();
    l.previous();
    assert_eq!(l.getSelected(), Some(3));
}

#[test]
fn next_from_last_wraps_to_first() {
    let mut l = StatefulList::with_items(vec!['a', 'b', 'c', 'd']);
    l.previous();
    l.previous();
    assert_eq!(l.getSelected(), Some(3));
    l.next();
    assert_eq!(l.getSelected(), Some(0));
}

#[test]
fn next_len_times_returns_to_start() {
    let n = 5;
    let mut l = StatefulList::with_items(vec![0u8; n]);
    l.next();
    l.next();
    assert_eq!(l.getSelected(), Some(1));
    for _ in 0..n {
        l.next();
    }
    assert_eq!(l.getSelected(), Some(1));
}

#[test]
fn next_from_none_len_plus_one_times_is_first() {
    let n = 4;
    let mut l = StatefulList::with_items(vec![0u8; n]);
    for _ in 0..n {
        l.next();
    }
    assert_eq!(l.getSelected(), Some(n - 1));
    l.next();
    assert_eq!(l.getSelected(), Some(0));
}

#[test]
fn previous_len_times_returns_to_start() {
    let n = 6;
    let mut l = StatefulList::with_items(vec![0u8; n]);
    l.next();
    l.next();
    l.next();
    for _ in 0..n {
        l.previous();
    }
    assert_eq!(l.getSelected(), Some(2));
}

#[test]
fn moves_on_empty_list_do_nothing() {
    let mut l: StatefulList<u32> = StatefulList::with_items(vec![]);
    l.next();
    assert_eq!(l.getSelected(), None);
    l.previous();
    assert_eq!(l.getSelected(), None);
}

#[test]
fn single_item_list_stays_on_it() {
    let mut l = StatefulList::with_items(vec!["only"]);
    l.next();
    l.next();
    assert_eq!(l.getSelected(), Some(0));
    l.previous();
    assert_eq!(l.getSelected(), Some(0));
}

#[test]
fn unselect_clears() {
    let mut l = StatefulList::with_items(vec![1, 2]);
    l.next();
    l.unselect();
    assert_eq!(l.getSelected(), None);
    assert_eq!(l.items, vec![1, 2]);
}

#[test]
fn kth_next_from_none_visits_in_order() {
    let n = 3;
    let mut l = StatefulList::with_items(vec![0u8; n]);
    for k in 1..=10usize {
        l.next();
        assert_eq!(l.getSelected(), Some((k - 1) % n));
    }
}

#[test]
fn kth_previous_from_none_visits_in_reverse() {
    let n = 4;
    let mut l = StatefulList::with_items(vec![0u8; n]);
    for k in 1..=10usize {
        l.previous();
        assert_eq!(l.getSelected(), Some((n - (k - 1) % n) % n));
    }
}
