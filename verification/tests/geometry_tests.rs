use textedit::geometry::{cursor_position, highlight_selection, Glyph, LayoutRun};
use textedit::state::CursorPos;

fn glyph(start: usize, end: usize, x: i64, w: i64, rtl: bool) -> Glyph {
    Glyph { start, end, x, w, rtl }
}

/// The line "AB" shaped as two glyphs of width 10 each at x=0 and x=10.
fn run_ab() -> LayoutRun {
    LayoutRun {
        line_i: 0,
        text: b"AB".to_vec(),
        glyphs: vec![glyph(0, 1, 0, 10, false), glyph(1, 2, 10, 10, false)],
        rtl: false,
        line_top: 0,
        line_height: 20,
    }
}

#[test]
fn caret_at_glyph_boundary() {
    let run = run_ab();
    assert_eq!(
        cursor_position(&CursorPos { line: 0, index: 1 }, &run),
        Some((10, 0))
    );
}

#[test]
fn caret_at_end_of_line_sits_at_trailing_edge() {
    let run = run_ab();
    assert_eq!(
        cursor_position(&CursorPos { line: 0, index: 2 }, &run),
        Some((20, 0))
    );
}

#[test]
fn caret_at_line_start() {
    let run = run_ab();
    assert_eq!(
        cursor_position(&CursorPos { line: 0, index: 0 }, &run),
        Some((0, 0))
    );
}

#[test]
fn caret_on_another_line_yields_nothing() {
    let run = run_ab();
    assert_eq!(cursor_position(&CursorPos { line: 1, index: 0 }, &run), None);
}

#[test]
fn caret_on_empty_line_sits_at_column_zero() {
    let run = LayoutRun {
        line_i: 3,
        text: vec![],
        glyphs: vec![],
        rtl: false,
        line_top: 60,
        line_height: 20,
    };
    assert_eq!(
        cursor_position(&CursorPos { line: 3, index: 0 }, &run),
        Some((0, 60))
    );
}

#[test]
fn caret_in_rtl_glyph_sits_at_its_right_edge() {
    let run = LayoutRun {
        line_i: 0,
        text: b"ab".to_vec(),
        glyphs: vec![glyph(0, 1, 30, 10, true), glyph(1, 2, 20, 10, true)],
        rtl: true,
        line_top: 0,
        line_height: 20,
    };
    // start of the first glyph, right edge because it is right-to-left
    assert_eq!(
        cursor_position(&CursorPos { line: 0, index: 0 }, &run),
        Some((40, 0))
    );
}

#[test]
fn caret_inside_a_two_grapheme_ligature_interpolates() {
    // one glyph rendering the two-grapheme cluster "ab", 10 pixels wide
    let run = LayoutRun {
        line_i: 0,
        text: b"ab".to_vec(),
        glyphs: vec![glyph(0, 2, 0, 10, false)],
        rtl: false,
        line_top: 0,
        line_height: 20,
    };
    assert_eq!(
        cursor_position(&CursorPos { line: 0, index: 1 }, &run),
        Some((5, 0))
    );
}

#[test]
fn full_single_line_selection_highlights_both_glyphs() {
    let run = run_ab();
    let bounds = Some((CursorPos { line: 0, index: 0 }, CursorPos { line: 0, index: 2 }));
    assert_eq!(highlight_selection(bounds, Some(100), &run), Some((0, 0, 20)));
}

#[test]
fn selection_to_a_later_line_extends_to_the_trailing_edge() {
    let run = run_ab();
    let bounds = Some((CursorPos { line: 0, index: 1 }, CursorPos { line: 1, index: 0 }));
    assert_eq!(highlight_selection(bounds, Some(100), &run), Some((10, 0, 90)));
}

#[test]
fn empty_line_strictly_inside_selection_highlights_full_width() {
    let run = LayoutRun {
        line_i: 1,
        text: vec![],
        glyphs: vec![],
        rtl: false,
        line_top: 20,
        line_height: 20,
    };
    let bounds = Some((CursorPos { line: 0, index: 0 }, CursorPos { line: 2, index: 0 }));
    assert_eq!(highlight_selection(bounds, Some(40), &run), Some((0, 20, 40)));
}

#[test]
fn no_selection_highlights_nothing() {
    let run = run_ab();
    assert_eq!(highlight_selection(None, Some(100), &run), None);
}

#[test]
fn run_outside_the_selected_lines_highlights_nothing() {
    let run = run_ab();
    let bounds = Some((CursorPos { line: 2, index: 0 }, CursorPos { line: 3, index: 0 }));
    assert_eq!(highlight_selection(bounds, Some(100), &run), None);
}

#[test]
fn geometry_queries_are_idempotent() {
    let run = run_ab();
    let cursor = CursorPos { line: 0, index: 1 };
    assert_eq!(cursor_position(&cursor, &run), cursor_position(&cursor, &run));
    let bounds = Some((CursorPos { line: 0, index: 0 }, CursorPos { line: 0, index: 2 }));
    assert_eq!(
        highlight_selection(bounds, Some(100), &run),
        highlight_selection(bounds, Some(100), &run)
    );
}

#[test]
fn partial_selection_covers_only_selected_graphemes() {
    let run = run_ab();
    // select only the first glyph
    let bounds = Some((CursorPos { line: 0, index: 0 }, CursorPos { line: 0, index: 1 }));
    assert_eq!(highlight_selection(bounds, Some(100), &run), Some((0, 0, 10)));
}
