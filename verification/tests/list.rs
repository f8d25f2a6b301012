use game_menu::list::StatefulList;

#[test]
fn next_selects_first_from_none() {
    let mut l = StatefulList::with_items(vec![10u32, 20, 30]);
    assert_eq!(l.selected(), None);
    l.next();
    assert_eq!(l.selected(), Some(0));
}

#[test]
fn next_full_cycle_returns_to_start() {
    let mut l = StatefulList::with_items(vec!["a", "b", "c"]);
    l.next();
    assert_eq!(l.selected(), Some(0));
    l.next();
    l.next();
    l.next();
    assert_eq!(l.selected(), Some(0));
}

#[test]
fn next_wraps_past_last_index() {
    let mut l = StatefulList::with_items(vec![1u8, 2]);
    l.next();
    l.next();
    assert_eq!(l.selected(), Some(1));
    l.next();
    assert_eq!(l.selected(), Some(0));
}

#[test]
fn previous_selects_first_from_none() {
    let mut l = StatefulList::with_items(vec![1u8, 2, 3]);
    l.previous();
    assert_eq!(l.selected(), Some(0));
}

#[test]
fn previous_from_first_wraps_to_last() {
    let mut l = StatefulList::with_items(vec![1u8, 2, 3, 4]);
    l.next();
    assert_eq!(l.selected(), Some(0));
    l.previous();
    assert_eq!(l.selected(), Some(3));
}

#[test]
fn unselect_clears_any_state() {
    let mut l = StatefulList::with_items(vec![1u8, 2, 3]);
    l.unselect();
    assert_eq!(l.selected(), None);
    l.next();
    l.next();
    l.unselect();
    assert_eq!(l.selected(), None);
}

#[test]
fn empty_list_moves_are_noops() {
    let mut l = StatefulList::<u8>::with_items(vec![]);
    l.next();
    assert_eq!(l.selected(), None);
    l.previous();
    assert_eq!(l.selected(), None);
    assert_eq!(l.len(), 0);
}

#[test]
fn len_and_get_read_the_entries() {
    let l = StatefulList::with_items(vec![5u64, 7, 9]);
    assert_eq!(l.len(), 3);
    assert_eq!(*l.get(0), 5);
    assert_eq!(*l.get(2), 9);
}
