use backlog_tui::selection::StatefulList;

fn letters(n: usize) -> StatefulList<char> {
    StatefulList::with_items("abcdefghij".chars().take(n).collect())
}

#[test]
fn new_list_has_no_selection() {
    let list = letters(3);
    assert_eq!(list.selected_index(), None);
    assert_eq!(list.selected(), None);
    assert_eq!(list.len(), 3);
    assert_eq!(list.items(), &vec!['a', 'b', 'c']);
}

#[test]
fn next_without_cursor_selects_first() {
    for n in 1..=10 {
        let mut list = letters(n);
        list.next();
        assert_eq!(list.selected_index(), Some(0));
        assert_eq!(list.selected(), Some(&'a'));
    }
}

#[test]
fn next_advances_by_one() {
    let mut list = letters(4);
    list.next();
    list.next();
    assert_eq!(list.selected_index(), Some(1));
    assert_eq!(list.selected(), Some(&'b'));
    list.next();
    assert_eq!(list.selected_index(), Some(2));
}

#[test]
fn next_wraps_from_last_to_first() {
    let mut list = letters(3);
    list.next();
    list.next();
    list.next();
    assert_eq!(list.selected_index(), Some(2));
    list.next();
    assert_eq!(list.selected_index(), Some(0));
}

#[test]
fn n_steps_from_first_return_to_first() {
    for n in 1..=10 {
        let mut list = letters(n);
        list.next();
        assert_eq!(list.selected_index(), Some(0));
        for _ in 0..n {
            list.next();
        }
        assert_eq!(list.selected_index(), Some(0));
    }
}

#[test]
fn n_steps_from_any_item_return_to_it() {
    let n = 7;
    for start in 0..n {
        let mut list = letters(n);
        for _ in 0..=start {
            list.next();
        }
        assert_eq!(list.selected_index(), Some(start));
        for _ in 0..n {
            list.next();
        }
        assert_eq!(list.selected_index(), Some(start));
    }
}

#[test]
fn previous_from_first_selects_last() {
    for n in 1..=10 {
        let mut list = letters(n);
        list.next();
        list.previous();
        assert_eq!(list.selected_index(), Some(n - 1));
    }
}

#[test]
fn previous_without_cursor_selects_first() {
    let mut list = letters(3);
    list.previous();
    assert_eq!(list.selected_index(), Some(0));
}

#[test]
fn previous_steps_back_by_one() {
    let mut list = letters(3);
    list.next();
    list.next();
    list.next();
    list.previous();
    assert_eq!(list.selected_index(), Some(1));
    assert_eq!(list.selected(), Some(&'b'));
}

#[test]
fn previous_undoes_next() {
    let mut list = letters(5);
    list.next();
    for _ in 0..12 {
        let before = list.selected_index();
        list.next();
        list.previous();
        assert_eq!(list.selected_index(), before);
        list.next();
    }
}

#[test]
fn unselect_then_selected_is_none() {
    let mut list = letters(3);
    list.unselect();
    assert_eq!(list.selected(), None);
    list.next();
    list.next();
    list.unselect();
    assert_eq!(list.selected(), None);
    assert_eq!(list.selected_index(), None);
    assert_eq!(list.items(), &vec!['a', 'b', 'c']);
}

#[test]
fn next_after_unselect_starts_over() {
    let mut list = letters(3);
    list.next();
    list.next();
    list.unselect();
    list.next();
    assert_eq!(list.selected_index(), Some(0));
}

#[test]
fn empty_list_ignores_moves() {
    let mut list: StatefulList<char> = StatefulList::with_items(Vec::new());
    list.next();
    assert_eq!(list.selected_index(), None);
    list.previous();
    assert_eq!(list.selected_index(), None);
    list.next();
    list.next();
    list.previous();
    assert_eq!(list.selected(), None);
    list.unselect();
    assert_eq!(list.selected_index(), None);
    assert_eq!(list.len(), 0);
}

#[test]
fn single_item_stays_selected() {
    let mut list = letters(1);
    list.next();
    assert_eq!(list.selected_index(), Some(0));
    list.next();
    assert_eq!(list.selected_index(), Some(0));
    list.previous();
    assert_eq!(list.selected_index(), Some(0));
}

#[test]
fn cursor_stays_in_bounds() {
    for n in 0..6 {
        let mut list = letters(n);
        for step in 0..40 {
            if step % 3 == 0 {
                list.previous();
            } else {
                list.next();
            }
            match list.selected_index() {
                Some(i) => assert!(i < n),
                None => assert_eq!(n, 0),
            }
        }
    }
}
