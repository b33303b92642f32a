use pcode_cli::cursor::SelectedState;

#[test]
fn next_and_prev_stop_at_the_ends() {
    let mut c = SelectedState::new(3);
    assert_eq!(c.selected(), Some(0));
    c.prev();
    assert_eq!(c.selected(), Some(0));
    c.next();
    c.next();
    assert_eq!(c.selected(), Some(2));
    c.next();
    assert_eq!(c.selected(), Some(2));
    c.prev();
    assert_eq!(c.selected(), Some(1));
}

#[test]
fn any_move_sequence_stays_in_range() {
    let moves = [true, true, false, true, true, true, false, false, false, false, true];
    let mut c = SelectedState::new(4);
    for m in moves {
        if m {
            c.next();
        } else {
            c.prev();
        }
        let i = c.selected().unwrap();
        assert!(i < 4);
    }
}

#[test]
fn empty_cursor_never_selects() {
    let mut c = SelectedState::new(0);
    assert_eq!(c.selected(), None);
    c.next();
    assert_eq!(c.selected(), None);
    c.prev();
    assert_eq!(c.selected(), None);
    let d = SelectedState::default();
    assert_eq!(d, SelectedState { max: 0, current: None });
}

#[test]
fn moves_without_selection_do_nothing() {
    let mut c = SelectedState { max: 3, current: None };
    c.next();
    assert_eq!(c.selected(), None);
    c.prev();
    assert_eq!(c.selected(), None);
}

#[test]
fn set_max_clamps_the_selection() {
    let mut c = SelectedState::new(5);
    c.set_current(4);
    c.set_max(3);
    assert_eq!(c, SelectedState { max: 3, current: Some(2) });
    c.set_max(0);
    assert_eq!(c, SelectedState { max: 0, current: None });
    let mut d = SelectedState::new(5);
    d.set_current(1);
    d.set_max(2);
    assert_eq!(d, SelectedState { max: 2, current: Some(1) });
    d.set_max(1);
    assert_eq!(d.selected(), Some(0));
}
