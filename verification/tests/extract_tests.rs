use textedit::extract::{extract_cursor, extract_selection, DrawRect};
use textedit::geometry::{Glyph, LayoutRun};
use textedit::state::{
    CursorPos, CursorConfig, EditorState, Rgb, SelectionConfig, SelectionMode,
};

fn run_ab() -> LayoutRun {
    LayoutRun {
        line_i: 0,
        text: b"AB".to_vec(),
        glyphs: vec![
            Glyph { start: 0, end: 1, x: 0, w: 10, rtl: false },
            Glyph { start: 1, end: 2, x: 10, w: 10, rtl: false },
        ],
        rtl: false,
        line_top: 0,
        line_height: 20,
    }
}

#[test]
fn committed_cursor_yields_a_caret_rectangle() {
    let mut state = EditorState::default();
    state.commit(CursorPos { line: 0, index: 1 }, SelectionMode::NoSelection, None);
    let config = CursorConfig::default();
    let rect = extract_cursor(&state, &config, &run_ab()).expect("caret");
    assert_eq!(
        rect,
        DrawRect {
            x: 10,
            y: 0,
            width: 1,
            height: 20,
            color: Rgb { red: 255, green: 255, blue: 255 },
        }
    );
}

#[test]
fn no_cursor_yields_no_caret() {
    let state = EditorState::default();
    assert!(extract_cursor(&state, &CursorConfig::default(), &run_ab()).is_none());
}

#[test]
fn active_selection_yields_a_highlight_rectangle() {
    let mut state = EditorState::default();
    let start = CursorPos { line: 0, index: 0 };
    let end = CursorPos { line: 0, index: 2 };
    state.commit(end, SelectionMode::Normal(start), Some((start, end)));
    let config = SelectionConfig::default();
    let rect = extract_selection(&state, &config, Some(100), &run_ab()).expect("highlight");
    assert_eq!(
        rect,
        DrawRect { x: 0, y: 0, width: 20, height: 20, color: Rgb { red: 0, green: 0, blue: 0 } }
    );
}

#[test]
fn no_selection_yields_no_highlight() {
    let mut state = EditorState::default();
    state.commit(CursorPos { line: 0, index: 1 }, SelectionMode::NoSelection, None);
    assert!(
        extract_selection(&state, &SelectionConfig::default(), Some(100), &run_ab()).is_none()
    );
}
