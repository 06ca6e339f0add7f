use orpheus::cursor::{Navigable, TableStateExt};

#[test]
fn new_cursor_selects_first_row() {
    let c = TableStateExt::new(5);
    assert_eq!(c.selected, Some(0));
    assert_eq!(c.max_size, 5);
    assert!(!c.active);
}

#[test]
fn new_cursor_over_empty_table_selects_nothing() {
    let c = TableStateExt::new(0);
    assert_eq!(c.selected, None);
}

#[test]
fn next_wraps_past_the_end() {
    let mut c = TableStateExt::new(3);
    c.next();
    assert_eq!(c.selected, Some(1));
    c.next();
    assert_eq!(c.selected, Some(2));
    c.next();
    assert_eq!(c.selected, Some(0));
}

#[test]
fn previous_wraps_before_the_start() {
    let mut c = TableStateExt::new(3);
    c.previous();
    assert_eq!(c.selected, Some(2));
    c.previous();
    assert_eq!(c.selected, Some(1));
}

#[test]
fn next_then_previous_l_times_returns_to_start() {
    // wrap-around correctness: the down-then-up pair repeated L times is the
    // identity, from every starting row
    let l = 7usize;
    for start in 0..l {
        let mut c = TableStateExt::new(l);
        c.selected = Some(start);
        for _ in 0..l {
            c.next();
            c.previous();
        }
        assert_eq!(c.selected, Some(start));
    }
}

#[test]
fn full_cycle_of_next_returns_to_start() {
    let l = 6usize;
    let mut c = TableStateExt::new(l);
    c.selected = Some(4);
    for _ in 0..l {
        c.next();
    }
    assert_eq!(c.selected, Some(4));
}

#[test]
fn navigation_on_empty_table_stays_empty() {
    let mut c = TableStateExt::new(0);
    c.next();
    assert_eq!(c.selected, None);
    c.previous();
    assert_eq!(c.selected, None);
}

#[test]
fn set_active_only_touches_the_flag() {
    let mut c = TableStateExt::new(4);
    c.set_active(true);
    assert!(c.active);
    assert_eq!(c.selected, Some(0));
    assert_eq!(c.max_size, 4);
}
