use textedit::state::{
    CursorPos, CursorConfig, EditorState, Rgb, SelectionConfig, SelectionMode,
};

#[test]
fn fresh_state_has_nothing_committed() {
    let s = EditorState::default();
    assert!(s.cursor.is_none());
    assert_eq!(s.selection, SelectionMode::NoSelection);
    assert!(s.selection_bounds.is_none());
    assert!(s.seed_plan().is_none());
}

#[test]
fn commit_then_seed_reproduces_cursor_and_selection() {
    let mut s = EditorState::default();
    let cursor = CursorPos { line: 3, index: 14 };
    let anchor = CursorPos { line: 1, index: 2 };
    let bounds = Some((anchor, cursor));
    s.commit(cursor, SelectionMode::Normal(anchor), bounds);
    assert_eq!(s.seed_plan(), Some((cursor, SelectionMode::Normal(anchor))));
    assert_eq!(s.selection_bounds, bounds);
}

#[test]
fn committing_twice_keeps_the_last_session() {
    let mut s = EditorState::default();
    s.commit(CursorPos::new(0, 1), SelectionMode::NoSelection, None);
    let c2 = CursorPos::new(5, 0);
    s.commit(c2, SelectionMode::Words(c2), None);
    assert_eq!(s.seed_plan(), Some((c2, SelectionMode::Words(c2))));
}

#[test]
fn default_caret_is_white_and_one_pixel_wide() {
    let c = CursorConfig::default();
    assert_eq!(c.color, Rgb { red: 255, green: 255, blue: 255 });
    assert_eq!(c.width, 1);
}

#[test]
fn default_selection_highlight_is_black() {
    let c = SelectionConfig::default();
    assert_eq!(c.color, Rgb { red: 0, green: 0, blue: 0 });
}
