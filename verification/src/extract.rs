//! Turning committed editor state into draw rectangles: one caret
//! rectangle and one selection-highlight rectangle per visible layout
//! run, in run-local pixel space, for the external renderer.
use vstd::prelude::*;
use crate::state::{EditorState, SelectionMode, CursorConfig, SelectionConfig, Rgb};
use crate::geometry::{
    LayoutRun,
    run_wf,
    caret_spec,
    highlight_spec,
    cursor_position,
    highlight_selection,
    COORD_LIMIT,
};

verus! {

/// An axis-aligned rectangle to draw, with its color.
#[derive(Clone, Copy, Debug, PartialEq, Eq, Structural)]
pub struct DrawRect {
    pub x: i64,
    pub y: i64,
    pub width: i64,
    pub height: i64,
    pub color: Rgb,
}

/// The caret rectangle for one layout run: the caret's run-local
/// position, the configured width and color, and the run's line
/// height; nothing when no cursor is committed or the cursor is not on
/// this run's line.
pub fn extract_cursor(state: &EditorState, config: &CursorConfig, run: &LayoutRun) -> (r: Option<
    DrawRect,
>)
    requires
        run_wf(*run),
    ensures
        match state.cursor {
            None => r is None,
            Some(c) => match caret_spec(c, *run) {
                None => r is None,
                Some((cx, cy)) => match r {
                    Some(d) => d.x == cx && d.y == cy && d.width == config.width as i64
                        && d.height == run.line_height && d.color == config.color,
                    None => false,
                },
            },
        },
{
    let c = match state.cursor {
        None => {
            return None;
        },
        Some(c) => c,
    };
    match cursor_position(&c, run) {
        None => None,
        Some((x, y)) => Some(
            DrawRect {
                x,
                y,
                width: config.width as i64,
                height: run.line_height,
                color: config.color,
            },
        ),
    }
}

/// The selection-highlight rectangle for one layout run: the
/// highlighted run-local span at the configured color and the run's
/// line height; nothing without an active selection or when the run
/// highlights nothing.
pub fn extract_selection(
    state: &EditorState,
    config: &SelectionConfig,
    buffer_width: Option<i64>,
    run: &LayoutRun,
) -> (r: Option<DrawRect>)
    requires
        run_wf(*run),
        match buffer_width {
            Some(w) => 0 <= w <= COORD_LIMIT,
            None => true,
        },
    ensures
        match state.selection {
            SelectionMode::NoSelection => r is None,
            _ => match highlight_spec(state.selection_bounds, buffer_width, *run) {
                None => r is None,
                Some((hx, hy, hw)) => match r {
                    Some(d) => d.x == hx && d.y == hy && d.width == hw && d.height
                        == run.line_height && d.color == config.color,
                    None => false,
                },
            },
        },
{
    match state.selection {
        SelectionMode::NoSelection => {
            return None;
        },
        _ => (),
    }
    match highlight_selection(state.selection_bounds, buffer_width, run) {
        None => None,
        Some((x, y, w)) => Some(
            DrawRect { x, y, width: w, height: run.line_height, color: config.color },
        ),
    }
}

} // verus!
