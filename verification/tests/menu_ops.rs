use fifths_tui::menu::MenuState;

fn menu(items: &[&str], infos: &[&str]) -> MenuState {
    let mut m = MenuState::new();
    let ok = m.try_set_items(
        items.iter().map(|s| s.to_string()).collect(),
        infos.iter().map(|s| s.to_string()).collect(),
    );
    assert!(ok);
    m
}

#[test]
fn new_menu_is_empty_and_unselected() {
    let m = MenuState::new();
    assert_eq!(m.menu_items.len(), 0);
    assert_eq!(m.menu_infos.len(), 0);
    assert_eq!(m.info_scrolls.len(), 0);
    assert_eq!(m.selected, None);
}

#[test]
fn set_items_selects_first_and_zeroes_scrolls() {
    let m = menu(&["a", "b", "c"], &["ia", "ib", "ic"]);
    assert_eq!(m.menu_items, vec!["a", "b", "c"]);
    assert_eq!(m.menu_infos, vec!["ia", "ib", "ic"]);
    assert_eq!(m.info_scrolls, vec![0, 0, 0]);
    assert_eq!(m.selected, Some(0));
}

#[test]
fn next_cycles_back_to_start_after_len_calls() {
    let mut m = menu(&["a", "b", "c"], &["ia", "ib", "ic"]);
    m.next();
    let start = m.selected;
    for _ in 0..3 {
        m.next();
    }
    assert_eq!(m.selected, start);
}

#[test]
fn previous_cycles_back_to_start_after_len_calls() {
    let mut m = menu(&["a", "b", "c", "d"], &["ia", "ib", "ic", "id"]);
    let start = m.selected;
    for _ in 0..4 {
        m.previous();
    }
    assert_eq!(m.selected, start);
}

#[test]
fn previous_inverts_next_at_every_position() {
    let mut m = menu(&["a", "b", "c"], &["ia", "ib", "ic"]);
    for _ in 0..3 {
        let before = m.selected;
        m.next();
        m.previous();
        assert_eq!(m.selected, before);
        let before = m.selected;
        m.previous();
        m.next();
        assert_eq!(m.selected, before);
        m.next();
    }
}

#[test]
fn next_wraps_from_last_to_first() {
    let mut m = menu(&["a", "b"], &["ia", "ib"]);
    m.next();
    assert_eq!(m.selected, Some(1));
    m.next();
    assert_eq!(m.selected, Some(0));
}

#[test]
fn previous_wraps_from_first_to_last() {
    let mut m = menu(&["a", "b", "c"], &["ia", "ib", "ic"]);
    assert_eq!(m.selected, Some(0));
    m.previous();
    assert_eq!(m.selected, Some(2));
}

#[test]
fn single_item_next_and_previous_stay_put() {
    let mut m = menu(&["only"], &["info"]);
    m.next();
    assert_eq!(m.selected, Some(0));
    m.previous();
    assert_eq!(m.selected, Some(0));
}

#[test]
fn scroll_up_then_down_restores_positive_offset() {
    let mut m = menu(&["a"], &["ia"]);
    m.scroll_down(0);
    m.scroll_down(0);
    assert_eq!(m.info_scrolls[0], 2);
    m.scroll_up(0);
    m.scroll_down(0);
    assert_eq!(m.info_scrolls[0], 2);
}

#[test]
fn scroll_down_then_up_restores_offset() {
    let mut m = menu(&["a"], &["ia"]);
    m.scroll_down(0);
    m.scroll_down(0);
    m.scroll_down(0);
    m.scroll_up(0);
    assert_eq!(m.info_scrolls[0], 2);
}

#[test]
fn scroll_up_saturates_at_zero() {
    let mut m = menu(&["a", "b"], &["ia", "ib"]);
    m.scroll_up(0);
    m.scroll_up(0);
    assert_eq!(m.info_scrolls[0], 0);
}

#[test]
fn scroll_down_is_monotone_and_saturates_at_max() {
    let mut m = menu(&["a"], &["ia"]);
    let mut prev = m.info_scrolls[0];
    for _ in 0..70000u32 {
        m.scroll_down(0);
        let cur = m.info_scrolls[0];
        assert!(cur >= prev);
        prev = cur;
    }
    assert_eq!(m.info_scrolls[0], u16::MAX);
    m.scroll_down(0);
    assert_eq!(m.info_scrolls[0], u16::MAX);
}

#[test]
fn scroll_touches_only_its_own_index() {
    let mut m = menu(&["a", "b", "c"], &["ia", "ib", "ic"]);
    m.scroll_down(1);
    m.scroll_down(1);
    m.scroll_down(2);
    assert_eq!(m.info_scrolls, vec![0, 2, 1]);
    assert_eq!(m.selected, Some(0));
}

#[test]
fn try_set_items_rejects_mismatched_lengths_without_mutating() {
    let mut m = menu(&["a", "b"], &["ia", "ib"]);
    m.next();
    m.scroll_down(1);
    let ok = m.try_set_items(
        vec!["x".to_string(), "y".to_string(), "z".to_string()],
        vec!["ix".to_string()],
    );
    assert!(!ok);
    assert_eq!(m.menu_items, vec!["a", "b"]);
    assert_eq!(m.menu_infos, vec!["ia", "ib"]);
    assert_eq!(m.info_scrolls, vec![0, 1]);
    assert_eq!(m.selected, Some(1));
}

#[test]
fn try_set_items_rejects_empty_dataset() {
    let mut m = MenuState::new();
    let ok = m.try_set_items(Vec::new(), Vec::new());
    assert!(!ok);
    assert_eq!(m.selected, None);
    assert_eq!(m.menu_items.len(), 0);
}

#[test]
fn try_set_items_replaces_an_existing_dataset() {
    let mut m = menu(&["a", "b"], &["ia", "ib"]);
    m.next();
    m.scroll_down(1);
    let ok = m.try_set_items(
        vec!["x".to_string(), "y".to_string(), "z".to_string()],
        vec!["ix".to_string(), "iy".to_string(), "iz".to_string()],
    );
    assert!(ok);
    assert_eq!(m.menu_items, vec!["x", "y", "z"]);
    assert_eq!(m.info_scrolls, vec![0, 0, 0]);
    assert_eq!(m.selected, Some(0));
}
