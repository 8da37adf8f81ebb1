use cosmic_text::{Attrs, Buffer, FontSystem, Metrics, Shaping};
use textedit::dispatch::{EditAction, MotionKind};
use textedit::session::{run_session, TempEditor};
use textedit::state::{CursorPos, EditorState, SelectionMode};

fn system_font_system() -> FontSystem {
    FontSystem::new()
}

fn small_buffer(fs: &mut FontSystem) -> Buffer {
    let mut buffer = Buffer::new(fs, Metrics::new(14.0, 20.0));
    buffer.set_text("hello\nworld", &Attrs::new(), Shaping::Advanced, None);
    buffer
}

#[test]
fn a_session_always_commits_a_cursor() {
    let mut fs = system_font_system();
    let mut buffer = small_buffer(&mut fs);
    let mut state = EditorState::default();
    run_session(&mut state, &mut buffer, &mut fs, &vec![]);
    assert!(state.cursor.is_some());
}

#[test]
fn motions_then_commit_then_begin_reproduces_the_cursor() {
    let mut fs = system_font_system();
    let mut buffer = small_buffer(&mut fs);
    let mut state = EditorState::default();
    run_session(
        &mut state,
        &mut buffer,
        &mut fs,
        &vec![
            EditAction::Motion(MotionKind::Right),
            EditAction::Motion(MotionKind::Right),
        ],
    );
    let committed_cursor = state.cursor;
    let committed_selection = state.selection;
    assert!(committed_cursor.is_some());

    // an empty batch: begin seeds from the committed state, commit reads
    // it back unchanged
    run_session(&mut state, &mut buffer, &mut fs, &vec![]);
    assert_eq!(state.cursor, committed_cursor);
    assert_eq!(state.selection, committed_selection);
}

#[test]
fn an_explicit_session_commits_on_its_exit_path() {
    let mut fs = system_font_system();
    let mut buffer = small_buffer(&mut fs);
    let mut state = EditorState::default();
    let mut session = TempEditor::new(&state, &mut buffer);
    session.apply(&mut fs, &EditAction::Motion(MotionKind::End));
    session.commit(&mut state);
    assert!(state.cursor.is_some());
    if let Some((a, b)) = state.selection_bounds {
        assert!(a.line < b.line || (a.line == b.line && a.index <= b.index));
    }
}

#[test]
fn a_stale_line_selection_does_not_panic_and_falls_back_to_fresh() {
    let mut fs = system_font_system();
    let mut buffer = small_buffer(&mut fs);
    let mut state = EditorState::default();
    // committed against a buffer that has since shrunk: line 99 is gone
    let stale = CursorPos { line: 99, index: 0 };
    state.commit(stale, SelectionMode::Lines(stale), None);
    run_session(
        &mut state,
        &mut buffer,
        &mut fs,
        &vec![
            EditAction::Backspace,
            EditAction::Delete,
            EditAction::Enter,
            EditAction::Insert('x' as u32),
            EditAction::Motion(MotionKind::End),
        ],
    );
    let cursor = state.cursor.expect("committed");
    assert!(cursor.line < buffer.lines.len());
}

#[test]
fn a_cursor_inside_a_code_point_falls_back_to_fresh() {
    let mut fs = system_font_system();
    let mut buffer = Buffer::new(&mut fs, Metrics::new(14.0, 20.0));
    buffer.set_text("h\u{e9}llo", &Attrs::new(), Shaping::Advanced, None);
    let mut state = EditorState::default();
    // byte 2 sits inside the two-byte code point at bytes 1..3
    state.commit(CursorPos { line: 0, index: 2 }, SelectionMode::NoSelection, None);
    run_session(
        &mut state,
        &mut buffer,
        &mut fs,
        &vec![EditAction::Insert('x' as u32), EditAction::Backspace],
    );
    assert!(state.cursor.is_some());
}

#[test]
fn paging_on_a_degenerate_line_height_is_skipped() {
    let mut fs = system_font_system();
    // a whole-pixel line height of zero; the primitive divides by it
    let mut buffer = Buffer::new(&mut fs, Metrics::new(0.5, 0.5));
    buffer.set_text("hello\nworld", &Attrs::new(), Shaping::Advanced, None);
    let mut state = EditorState::default();
    run_session(
        &mut state,
        &mut buffer,
        &mut fs,
        &vec![
            EditAction::Motion(MotionKind::PageDown),
            EditAction::Motion(MotionKind::PageUp),
            EditAction::Motion(MotionKind::Right),
        ],
    );
    assert!(state.cursor.is_some());
}

#[test]
fn a_buffer_with_no_lines_applies_nothing() {
    let mut fs = system_font_system();
    let mut buffer = Buffer::new_empty(Metrics::new(14.0, 20.0));
    let mut state = EditorState::default();
    run_session(
        &mut state,
        &mut buffer,
        &mut fs,
        &vec![EditAction::Insert('x' as u32), EditAction::Enter, EditAction::Backspace],
    );
    assert!(state.cursor.is_some());
    assert_eq!(buffer.lines.len(), 0);
}

#[test]
fn a_fitting_committed_state_is_seeded_back() {
    let mut fs = system_font_system();
    let mut buffer = small_buffer(&mut fs);
    let mut state = EditorState::default();
    let c = CursorPos { line: 1, index: 3 };
    state.commit(c, SelectionMode::Normal(CursorPos { line: 0, index: 2 }), None);
    // an empty batch reads back exactly what was seeded
    run_session(&mut state, &mut buffer, &mut fs, &vec![]);
    assert_eq!(state.cursor, Some(c));
    assert_eq!(
        state.selection,
        SelectionMode::Normal(CursorPos { line: 0, index: 2 })
    );
    // the cached bounds of a normal selection: anchor and cursor, ordered
    assert_eq!(
        state.selection_bounds,
        Some((CursorPos { line: 0, index: 2 }, c))
    );
}

#[test]
fn normal_bounds_are_ordered_when_the_anchor_follows_the_cursor() {
    let mut fs = system_font_system();
    let mut buffer = small_buffer(&mut fs);
    let mut state = EditorState::default();
    let c = CursorPos { line: 0, index: 1 };
    let anchor = CursorPos { line: 1, index: 4 };
    state.commit(c, SelectionMode::Normal(anchor), None);
    run_session(&mut state, &mut buffer, &mut fs, &vec![]);
    assert_eq!(state.selection_bounds, Some((c, anchor)));
}
