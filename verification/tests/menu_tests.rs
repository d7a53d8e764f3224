use txtris::keys::{KeyCode, KeyEvent};
use txtris::menu::OptionList;
use txtris::tui::Mode;

fn labels(names: &[&str]) -> Vec<String> {
    names.iter().map(|s| s.to_string()).collect()
}

#[test]
fn new_list_has_no_selection() {
    let list = OptionList::new(labels(&["a", "b", "c"]));
    assert_eq!(list.len(), 3);
    assert_eq!(list.selected_index(), None);
    assert_eq!(list.selected(), None);
}

#[test]
fn labels_are_kept_in_order() {
    let list = OptionList::new(labels(&["40L", "Blitz", "txLadder", "Config"]));
    assert_eq!(list.label(0), "40L");
    assert_eq!(list.label(1), "Blitz");
    assert_eq!(list.label(2), "txLadder");
    assert_eq!(list.label(3), "Config");
}

#[test]
fn first_next_establishes_index_zero() {
    let mut list = OptionList::new(labels(&["a", "b", "c"]));
    list.select_next();
    assert_eq!(list.selected_index(), Some(0));
    assert_eq!(list.selected().unwrap(), "a");
}

#[test]
fn next_advances_and_wraps_circularly() {
    let mut list = OptionList::new(labels(&["a", "b", "c"]));
    // After n calls the cursor sits on index (n - 1) mod 3.
    let expected = [0, 1, 2, 0, 1, 2, 0];
    for (n, want) in expected.iter().enumerate() {
        list.select_next();
        assert_eq!(list.selected_index(), Some(*want), "after {} calls", n + 1);
    }
}

#[test]
fn previous_after_construction_selects_last() {
    let mut list = OptionList::new(labels(&["a", "b", "c", "d"]));
    list.select_previous();
    assert_eq!(list.selected_index(), Some(3));
    assert_eq!(list.selected().unwrap(), "d");
}

#[test]
fn previous_retreats_and_wraps_circularly() {
    let mut list = OptionList::new(labels(&["a", "b", "c"]));
    list.select_previous();
    assert_eq!(list.selected_index(), Some(2));
    list.select_previous();
    assert_eq!(list.selected_index(), Some(1));
    list.select_previous();
    assert_eq!(list.selected_index(), Some(0));
    list.select_previous();
    assert_eq!(list.selected_index(), Some(2));
}

#[test]
fn alternating_next_previous_returns_to_start() {
    let mut list = OptionList::new(labels(&["a", "b", "c", "d"]));
    list.select_next();
    list.select_next();
    assert_eq!(list.selected_index(), Some(1));
    for _ in 0..3 {
        list.select_next();
        list.select_previous();
    }
    assert_eq!(list.selected_index(), Some(1));
    for _ in 0..3 {
        list.select_previous();
        list.select_next();
    }
    assert_eq!(list.selected_index(), Some(1));
}

#[test]
fn empty_list_next_keeps_cursor_unset() {
    let mut list = OptionList::new(Vec::new());
    list.select_next();
    assert_eq!(list.selected_index(), None);
    assert_eq!(list.selected(), None);
}

#[test]
fn empty_list_previous_keeps_cursor_unset() {
    let mut list = OptionList::new(Vec::new());
    list.select_previous();
    assert_eq!(list.selected_index(), None);
    assert_eq!(list.selected(), None);
}

#[test]
fn unrecognized_label_fails_closed_on_enter() {
    let mut list = OptionList::new(labels(&["Zen"]));
    list.select_next();
    let next = list.handle_key(KeyEvent::press(KeyCode::Enter));
    assert!(matches!(next, Mode::Exit));
}
