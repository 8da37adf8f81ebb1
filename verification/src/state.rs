//! Persistent per-entity editor state: the committed cursor, selection
//! and cached selection bounds, the seeding of a transient edit session
//! from them, and the commit of a finished session back into them.
use vstd::prelude::*;

verus! {

/// A logical cursor position: a line index and a byte offset into that
/// line's text.
#[derive(Clone, Copy, Debug, PartialEq, Eq, Structural)]
pub struct CursorPos {
    pub line: usize,
    pub index: usize,
}

impl CursorPos {
    pub fn new(line: usize, index: usize) -> (c: CursorPos)
        ensures
            c.line == line,
            c.index == index,
    {
        CursorPos { line, index }
    }
}

/// `a` comes no later than `b` in (line, byte-offset) order.
pub open spec fn cursor_le(a: CursorPos, b: CursorPos) -> bool {
    a.line < b.line || (a.line == b.line && a.index <= b.index)
}

/// The selection mode of an edit session, anchored at a cursor.
#[derive(Clone, Copy, Debug, PartialEq, Eq, Structural)]
pub enum SelectionMode {
    /// No selection.
    NoSelection,
    /// Normal cursor-to-cursor selection.
    Normal(CursorPos),
    /// Selection extended to whole lines.
    Lines(CursorPos),
    /// Selection extended to whole words.
    Words(CursorPos),
}

/// The state that outlives a single edit batch, attached 1:1 to a
/// displayed text entity.
#[derive(Clone, Copy, Debug)]
pub struct EditorState {
    /// The committed cursor; unset until the entity is first edited.
    pub cursor: Option<CursorPos>,
    /// The committed selection.
    pub selection: SelectionMode,
    /// Cached normalized selection extent, start before end.
    pub selection_bounds: Option<(CursorPos, CursorPos)>,
}

/// What a new session is seeded with: the committed cursor and
/// selection when there are any, nothing for a fresh entity.
pub open spec fn seed_of(state: EditorState) -> Option<(CursorPos, SelectionMode)> {
    match state.cursor {
        Some(c) => Some((c, state.selection)),
        None => None,
    }
}

/// The persistent state a session leaves behind when it ends with the
/// given cursor, selection and selection bounds.
pub open spec fn committed(
    cursor: CursorPos,
    selection: SelectionMode,
    bounds: Option<(CursorPos, CursorPos)>,
) -> EditorState {
    EditorState { cursor: Some(cursor), selection, selection_bounds: bounds }
}

impl EditorState {
    /// How a session beginning on this state must seed the editing
    /// primitive: with the prior cursor and selection if a cursor was
    /// committed, with the primitive's defaults otherwise.
    pub fn seed_plan(&self) -> (p: Option<(CursorPos, SelectionMode)>)
        ensures
            p == seed_of(*self),
    {
        match self.cursor {
            Some(c) => Some((c, self.selection)),
            None => None,
        }
    }

    /// Commit a finished session: the resulting cursor, selection and
    /// selection bounds replace the persistent ones, and the cursor is
    /// set from then on.
    pub fn commit(
        &mut self,
        cursor: CursorPos,
        selection: SelectionMode,
        bounds: Option<(CursorPos, CursorPos)>,
    )
        ensures
            *final(self) == committed(cursor, selection, bounds),
            final(self).cursor is Some,
    {
        self.cursor = Some(cursor);
        self.selection = selection;
        self.selection_bounds = bounds;
    }
}

impl Default for EditorState {
    /// A fresh entity: no cursor, no selection, no cached bounds.
    fn default() -> (s: EditorState)
        ensures
            s.cursor is None,
            s.selection == SelectionMode::NoSelection,
            s.selection_bounds is None,
    {
        EditorState {
            cursor: None,
            selection: SelectionMode::NoSelection,
            selection_bounds: None,
        }
    }
}

/// Suspend/resume round trip: whatever cursor and selection a session
/// ends with, committing them and then beginning a new session seeds
/// that session with exactly the same cursor and selection.
pub proof fn lemma_session_round_trip(
    cursor: CursorPos,
    selection: SelectionMode,
    bounds: Option<(CursorPos, CursorPos)>,
)
    ensures
        seed_of(committed(cursor, selection, bounds)) == Some((cursor, selection)),
{
}

/// An RGB color for caret or highlight rendering.
#[derive(Clone, Copy, Debug, PartialEq, Eq, Structural)]
pub struct Rgb {
    pub red: u8,
    pub green: u8,
    pub blue: u8,
}

/// Per-entity caret appearance: color and width in pixels.
#[derive(Clone, Copy, Debug, PartialEq, Eq, Structural)]
pub struct CursorConfig {
    pub color: Rgb,
    pub width: u32,
}

impl Default for CursorConfig {
    /// The default caret: white, one pixel wide.
    fn default() -> (c: CursorConfig)
        ensures
            c.color == (Rgb { red: 255, green: 255, blue: 255 }),
            c.width == 1,
    {
        CursorConfig { color: Rgb { red: 255, green: 255, blue: 255 }, width: 1 }
    }
}

/// Per-entity selection-highlight appearance.
#[derive(Clone, Copy, Debug, PartialEq, Eq, Structural)]
pub struct SelectionConfig {
    pub color: Rgb,
}

impl Default for SelectionConfig {
    /// The default highlight: black.
    fn default() -> (c: SelectionConfig)
        ensures
            c.color == (Rgb { red: 0, green: 0, blue: 0 }),
    {
        SelectionConfig { color: Rgb { red: 0, green: 0, blue: 0 } }
    }
}

} // verus!
