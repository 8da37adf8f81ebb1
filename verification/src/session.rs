//! The transient edit session: it binds the persistent cursor and
//! selection to a `cosmic_text` editor over the entity's buffer for
//! one batch of actions, and commits the result back on exit.
//!
//! The editor's stored cursor and selection are modelled by the names
//! `cursor_of` and `selection_of`, which the store and load wrappers
//! all speak of; what an action does to the buffer (shaping- and
//! font-dependent) is not modelled, only driven.  A committed state
//! that no longer fits the buffer (a stale line index, an offset past
//! the line's end or inside a code point) is not handed to the
//! editing primitive, which indexes lines unchecked: the session
//! falls back to the primitive's fresh defaults instead.  The
//! primitive's own actions keep the positions they store within the
//! buffer, so an editor seeded through this module never reaches the
//! unchecked indexing with a stale position.
use vstd::prelude::*;
use cosmic_text::Edit;
use crate::state::{CursorPos, EditorState, SelectionMode, cursor_le, seed_of};
use crate::dispatch::{EditAction, MotionKind};

verus! {

#[verifier::external_type_specification]
#[verifier::external_body]
pub struct ExBuffer(cosmic_text::Buffer);

#[verifier::external_type_specification]
#[verifier::external_body]
pub struct ExEditor<'buffer>(cosmic_text::Editor<'buffer>);

#[verifier::external_type_specification]
#[verifier::external_body]
pub struct ExFontSystem(cosmic_text::FontSystem);

/// The text bytes of each line a buffer holds.
pub uninterp spec fn lines_of(b: cosmic_text::Buffer) -> Seq<Seq<u8>>;

/// The buffer's line height in whole pixels, rounded toward zero.
pub uninterp spec fn line_height_px_of(b: cosmic_text::Buffer) -> i64;

/// The (line, byte-offset) cursor an editor holds.
pub uninterp spec fn cursor_of(ed: cosmic_text::Editor) -> CursorPos;

/// The selection mode and anchor an editor holds.
pub uninterp spec fn selection_of(ed: cosmic_text::Editor) -> SelectionMode;

/// Relies on cosmic_text::Editor::new: the fresh editor holds the
/// default cursor (line 0, byte 0) and no selection.
#[verifier::external_body]
fn editor_new<'b>(buffer: &'b mut cosmic_text::Buffer) -> (ed: cosmic_text::Editor<'b>)
    ensures
        cursor_of(ed) == (CursorPos { line: 0, index: 0 }),
        selection_of(ed) == SelectionMode::NoSelection,
{
    cosmic_text::Editor::new(buffer)
}

/// Relies on cosmic_text::Edit::set_cursor: stores the given position
/// as the editor's cursor and leaves the selection alone.
#[verifier::external_body]
fn editor_set_cursor(ed: &mut cosmic_text::Editor, line: usize, index: usize)
    ensures
        cursor_of(*final(ed)) == (CursorPos { line, index }),
        selection_of(*final(ed)) == selection_of(*old(ed)),
{
    ed.set_cursor(cosmic_text::Cursor::new(line, index));
}

/// Relies on cosmic_text::Edit::set_selection: stores the given
/// selection mode and anchor and leaves the cursor alone.
#[verifier::external_body]
fn editor_set_selection(ed: &mut cosmic_text::Editor, sel: &SelectionMode)
    ensures
        selection_of(*final(ed)) == *sel,
        cursor_of(*final(ed)) == cursor_of(*old(ed)),
{
    ed.set_selection(
        match sel {
            SelectionMode::NoSelection => cosmic_text::Selection::None,
            SelectionMode::Normal(c) => cosmic_text::Selection::Normal(
                cosmic_text::Cursor::new(c.line, c.index),
            ),
            SelectionMode::Lines(c) => cosmic_text::Selection::Line(
                cosmic_text::Cursor::new(c.line, c.index),
            ),
            SelectionMode::Words(c) => cosmic_text::Selection::Word(
                cosmic_text::Cursor::new(c.line, c.index),
            ),
        },
    );
}

/// Relies on cosmic_text::Edit::cursor: reads the cursor the editor
/// holds.
#[verifier::external_body]
fn editor_cursor(ed: &cosmic_text::Editor) -> (c: CursorPos)
    ensures
        c == cursor_of(*ed),
{
    let c = ed.cursor();
    CursorPos { line: c.line, index: c.index }
}

/// Relies on cosmic_text::Edit::selection: reads the selection mode
/// and anchor the editor holds.
#[verifier::external_body]
fn editor_selection(ed: &cosmic_text::Editor) -> (s: SelectionMode)
    ensures
        s == selection_of(*ed),
{
    match ed.selection() {
        cosmic_text::Selection::None => SelectionMode::NoSelection,
        cosmic_text::Selection::Normal(c) => SelectionMode::Normal(
            CursorPos { line: c.line, index: c.index },
        ),
        cosmic_text::Selection::Line(c) => SelectionMode::Lines(
            CursorPos { line: c.line, index: c.index },
        ),
        cosmic_text::Selection::Word(c) => SelectionMode::Words(
            CursorPos { line: c.line, index: c.index },
        ),
    }
}

/// Relies on cosmic_text::Edit::selection_bounds: the selection's
/// extent with the earlier position first; its source orders every
/// returned pair by (line, index), and returns one exactly when a
/// selection is set.
#[verifier::external_body]
fn editor_selection_bounds(ed: &cosmic_text::Editor) -> (r: Option<(CursorPos, CursorPos)>)
    ensures
        match r {
            Some((a, b)) => cursor_le(a, b),
            None => true,
        },
        (r is None) <==> selection_of(*ed) == SelectionMode::NoSelection,
{
    ed.selection_bounds().map(
        |(a, b)|
            (
                CursorPos { line: a.line, index: a.index },
                CursorPos { line: b.line, index: b.index },
            ),
    )
}

/// Relies on the public `lines` list of cosmic_text::Buffer: how many
/// lines the buffer holds.
#[verifier::external_body]
fn buffer_line_count(buffer: &cosmic_text::Buffer) -> (n: usize)
    ensures
        n == lines_of(*buffer).len(),
{
    buffer.lines.len()
}

/// Relies on cosmic_text::BufferLine::text, reached through
/// `lines.get`: the bytes of one line, or nothing for a line index
/// past the buffer.
#[verifier::external_body]
fn buffer_line_bytes(buffer: &cosmic_text::Buffer, line: usize) -> (r: Option<Vec<u8>>)
    ensures
        match r {
            Some(bytes) => line < lines_of(*buffer).len() && bytes@ == lines_of(*buffer)[
                line as int
            ],
            None => line >= lines_of(*buffer).len(),
        },
{
    buffer.lines.get(line).map(|l| l.text().as_bytes().to_vec())
}

/// Relies on cosmic_text::Buffer::metrics: the buffer's line height
/// in whole pixels, rounded toward zero.
#[verifier::external_body]
fn buffer_line_height_px(buffer: &cosmic_text::Buffer) -> (h: i64)
    ensures
        h == line_height_px_of(*buffer),
{
    buffer.metrics().line_height as i32 as i64
}

/// Byte `i` of `bytes` begins a UTF-8 code point, or sits at the
/// line's end: it is no continuation byte (0b10xxxxxx).
pub open spec fn utf8_boundary(bytes: Seq<u8>, i: int) -> bool {
    i == bytes.len() || (0 <= i < bytes.len() && (bytes[i] & 0xC0) != 0x80)
}

/// Check at run time that a byte offset sits on a UTF-8 boundary of a
/// line's bytes.
pub fn check_utf8_boundary(bytes: &Vec<u8>, idx: usize) -> (b: bool)
    ensures
        b == utf8_boundary(bytes@, idx as int),
{
    if idx == bytes.len() {
        true
    } else if idx < bytes.len() {
        (bytes[idx] & 0xC0) != 0x80
    } else {
        false
    }
}

/// The position names an existing line, at or before that line's end,
/// on a UTF-8 boundary. Only such positions may seed the editing
/// primitive, which indexes and slices lines unchecked.
pub open spec fn spec_position_fits(lines: Seq<Seq<u8>>, p: CursorPos) -> bool {
    &&& p.line < lines.len()
    &&& p.index <= lines[p.line as int].len()
    &&& utf8_boundary(lines[p.line as int], p.index as int)
}

/// The committed cursor and the selection's anchor both fit the
/// buffer's lines.
pub open spec fn spec_seed_fits(lines: Seq<Seq<u8>>, c: CursorPos, sel: SelectionMode) -> bool {
    &&& spec_position_fits(lines, c)
    &&& match sel {
        SelectionMode::NoSelection => true,
        SelectionMode::Normal(a) => spec_position_fits(lines, a),
        SelectionMode::Lines(a) => spec_position_fits(lines, a),
        SelectionMode::Words(a) => spec_position_fits(lines, a),
    }
}

/// Check at run time whether a position still fits the buffer.
fn position_fits(buffer: &cosmic_text::Buffer, p: &CursorPos) -> (b: bool)
    ensures
        b == spec_position_fits(lines_of(*buffer), *p),
{
    match buffer_line_bytes(buffer, p.line) {
        Some(bytes) => p.index <= bytes.len() && check_utf8_boundary(&bytes, p.index),
        None => false,
    }
}

/// Check at run time whether a committed seed still fits the buffer.
fn seed_fits(buffer: &cosmic_text::Buffer, c: &CursorPos, sel: &SelectionMode) -> (b: bool)
    ensures
        b == spec_seed_fits(lines_of(*buffer), *c, *sel),
{
    if !position_fits(buffer, c) {
        return false;
    }
    match sel {
        SelectionMode::NoSelection => true,
        SelectionMode::Normal(a) => position_fits(buffer, a),
        SelectionMode::Lines(a) => position_fits(buffer, a),
        SelectionMode::Words(a) => position_fits(buffer, a),
    }
}

/// Relies on cosmic_text::Edit::action with Action::Insert; a scalar
/// value no char can hold inserts nothing.
#[verifier::external_body]
fn apply_insert(ed: &mut cosmic_text::Editor, fs: &mut cosmic_text::FontSystem, scalar: u32) {
    match char::from_u32(scalar) {
        Some(c) => ed.action(fs, cosmic_text::Action::Insert(c)),
        None => (),
    }
}

/// Relies on cosmic_text::Edit::action with Action::Enter.
#[verifier::external_body]
fn apply_enter(ed: &mut cosmic_text::Editor, fs: &mut cosmic_text::FontSystem) {
    ed.action(fs, cosmic_text::Action::Enter);
}

/// Relies on cosmic_text::Edit::action with Action::Backspace.
#[verifier::external_body]
fn apply_backspace(ed: &mut cosmic_text::Editor, fs: &mut cosmic_text::FontSystem) {
    ed.action(fs, cosmic_text::Action::Backspace);
}

/// Relies on cosmic_text::Edit::action with Action::Delete.
#[verifier::external_body]
fn apply_delete(ed: &mut cosmic_text::Editor, fs: &mut cosmic_text::FontSystem) {
    ed.action(fs, cosmic_text::Action::Delete);
}

/// Relies on cosmic_text::Edit::action with Action::Motion.
#[verifier::external_body]
fn apply_motion(ed: &mut cosmic_text::Editor, fs: &mut cosmic_text::FontSystem, m: &MotionKind) {
    let motion = match m {
        MotionKind::Left => cosmic_text::Motion::Left,
        MotionKind::Right => cosmic_text::Motion::Right,
        MotionKind::Up => cosmic_text::Motion::Up,
        MotionKind::Down => cosmic_text::Motion::Down,
        MotionKind::Home => cosmic_text::Motion::Home,
        MotionKind::End => cosmic_text::Motion::End,
        MotionKind::PageUp => cosmic_text::Motion::PageUp,
        MotionKind::PageDown => cosmic_text::Motion::PageDown,
    };
    ed.action(fs, cosmic_text::Action::Motion(motion));
}

/// Relies on cosmic_text::Edit::action with Action::Click.
#[verifier::external_body]
fn apply_click(ed: &mut cosmic_text::Editor, fs: &mut cosmic_text::FontSystem, x: i32, y: i32) {
    ed.action(fs, cosmic_text::Action::Click { x, y });
}

/// Relies on cosmic_text::Edit::action with Action::DoubleClick.
#[verifier::external_body]
fn apply_double_click(
    ed: &mut cosmic_text::Editor,
    fs: &mut cosmic_text::FontSystem,
    x: i32,
    y: i32,
) {
    ed.action(fs, cosmic_text::Action::DoubleClick { x, y });
}

/// Relies on cosmic_text::Edit::action with Action::TripleClick.
#[verifier::external_body]
fn apply_triple_click(
    ed: &mut cosmic_text::Editor,
    fs: &mut cosmic_text::FontSystem,
    x: i32,
    y: i32,
) {
    ed.action(fs, cosmic_text::Action::TripleClick { x, y });
}

/// Dispatch one editing action to the primitive that implements its
/// text semantics.
fn apply_action(
    ed: &mut cosmic_text::Editor,
    fs: &mut cosmic_text::FontSystem,
    a: &EditAction,
) {
    match a {
        EditAction::Insert(scalar) => apply_insert(ed, fs, *scalar),
        EditAction::Enter => apply_enter(ed, fs),
        EditAction::Backspace => apply_backspace(ed, fs),
        EditAction::Delete => apply_delete(ed, fs),
        EditAction::Motion(m) => apply_motion(ed, fs, m),
        EditAction::Click { x, y } => apply_click(ed, fs, *x, *y),
        EditAction::DoubleClick { x, y } => apply_double_click(ed, fs, *x, *y),
        EditAction::TripleClick { x, y } => apply_triple_click(ed, fs, *x, *y),
    }
}

/// The action is a paging motion, whose primitive divides by the
/// buffer's whole-pixel line height.
pub open spec fn paging_motion(a: EditAction) -> bool {
    match a {
        EditAction::Motion(m) => m == MotionKind::PageUp || m == MotionKind::PageDown,
        _ => false,
    }
}

/// The normalized extent of a normal selection: its anchor and the
/// cursor, ordered by (line, byte offset), the cursor first on a tie.
pub open spec fn normal_bounds(anchor: CursorPos, cursor: CursorPos) -> (CursorPos, CursorPos) {
    if anchor.line < cursor.line || (anchor.line == cursor.line && anchor.index < cursor.index) {
        (anchor, cursor)
    } else {
        (cursor, anchor)
    }
}

/// Order a normal selection's anchor and cursor into selection bounds.
fn order_normal_bounds(anchor: CursorPos, cursor: CursorPos) -> (r: (CursorPos, CursorPos))
    ensures
        r == normal_bounds(anchor, cursor),
        cursor_le(r.0, r.1),
{
    if anchor.line < cursor.line || (anchor.line == cursor.line && anchor.index < cursor.index) {
        (anchor, cursor)
    } else {
        (cursor, anchor)
    }
}

/// A transient editor over one buffer for one edit batch. Created
/// seeded from the persistent state where that state still fits the
/// buffer; committed back into it when the batch ends.
pub struct TempEditor<'buffer> {
    editor: cosmic_text::Editor<'buffer>,
    /// The buffer had at least one line when the session began; with
    /// none, no action is applied, since every edit of the primitive
    /// presumes a line under the cursor.
    active: bool,
    /// The buffer's whole-pixel line height is at least one; when it
    /// is not, paging motions are skipped, since the primitive
    /// divides by that height.
    paging_safe: bool,
}

impl<'buffer> TempEditor<'buffer> {
    /// The cursor the session's editor currently holds.
    pub closed spec fn cursor_view(&self) -> CursorPos {
        cursor_of(self.editor)
    }

    /// The selection the session's editor currently holds.
    pub closed spec fn selection_view(&self) -> SelectionMode {
        selection_of(self.editor)
    }

    /// The session applies actions at all: its buffer had a line when
    /// it began.
    pub closed spec fn session_active(&self) -> bool {
        self.active
    }

    /// Paging motions are applied: the buffer's whole-pixel line
    /// height was at least one when the session began.
    pub closed spec fn paging_enabled(&self) -> bool {
        self.paging_safe
    }

    /// Begin a session: seed the editing primitive with the committed
    /// cursor and selection exactly when the entity was edited before
    /// and they still fit the buffer; keep the primitive's fresh
    /// defaults otherwise.
    pub fn new(state: &EditorState, buffer: &'buffer mut cosmic_text::Buffer) -> (session:
        TempEditor<'buffer>)
        ensures
            match seed_of(*state) {
                Some((c, sel)) => {
                    &&& spec_seed_fits(lines_of(*old(buffer)), c, sel) ==> session.cursor_view()
                        == c && session.selection_view() == sel
                    &&& !spec_seed_fits(lines_of(*old(buffer)), c, sel) ==> session.cursor_view()
                        == (CursorPos { line: 0, index: 0 }) && session.selection_view()
                        == SelectionMode::NoSelection
                },
                None => session.cursor_view() == (CursorPos { line: 0, index: 0 })
                    && session.selection_view() == SelectionMode::NoSelection,
            },
            session.session_active() == (lines_of(*old(buffer)).len() >= 1),
            session.paging_enabled() == (line_height_px_of(*old(buffer)) >= 1),
    {
        let active = buffer_line_count(buffer) >= 1;
        let paging_safe = buffer_line_height_px(buffer) >= 1;
        let seed = state.seed_plan();
        let seed_ok = match &seed {
            Some((c, sel)) => seed_fits(buffer, c, sel),
            None => false,
        };
        let mut editor = editor_new(buffer);
        if seed_ok {
            match seed {
                Some((c, sel)) => {
                    editor_set_cursor(&mut editor, c.line, c.index);
                    editor_set_selection(&mut editor, &sel);
                },
                None => (),
            }
        }
        TempEditor { editor, active, paging_safe }
    }

    /// Apply one action within the session. On a buffer with no lines
    /// nothing is applied; paging motions are skipped when the
    /// buffer's line height is degenerate; either skip leaves the
    /// editor's cursor and selection untouched.
    pub fn apply(&mut self, fs: &mut cosmic_text::FontSystem, a: &EditAction)
        ensures
            final(self).session_active() == old(self).session_active(),
            final(self).paging_enabled() == old(self).paging_enabled(),
            !old(self).session_active() ==> final(self).cursor_view() == old(self).cursor_view()
                && final(self).selection_view() == old(self).selection_view(),
            paging_motion(*a) && !old(self).paging_enabled() ==> final(self).cursor_view() == old(
                self,
            ).cursor_view() && final(self).selection_view() == old(self).selection_view(),
    {
        if !self.active {
            return;
        }
        match a {
            EditAction::Motion(m) => {
                let is_paging = match m {
                    MotionKind::PageUp => true,
                    MotionKind::PageDown => true,
                    _ => false,
                };
                if !is_paging || self.paging_safe {
                    apply_motion(&mut self.editor, fs, m);
                }
            },
            _ => apply_action(&mut self.editor, fs, a),
        }
    }

    /// End the session: the cursor and selection the editor holds
    /// become the persistent ones, exactly; the cached bounds of a
    /// normal selection are its anchor and the cursor, normalized;
    /// line and word selections take the extent the editing primitive
    /// reports.
    pub fn commit(&self, state: &mut EditorState)
        ensures
            final(state).cursor == Some(self.cursor_view()),
            final(state).selection == self.selection_view(),
            match final(state).selection_bounds {
                Some((a, b)) => cursor_le(a, b),
                None => true,
            },
            (final(state).selection_bounds is None) <==> self.selection_view()
                == SelectionMode::NoSelection,
            match self.selection_view() {
                SelectionMode::Normal(a) => final(state).selection_bounds == Some(
                    normal_bounds(a, self.cursor_view()),
                ),
                _ => true,
            },
    {
        let c = editor_cursor(&self.editor);
        let sel = editor_selection(&self.editor);
        let bounds = match sel {
            SelectionMode::NoSelection => None,
            SelectionMode::Normal(a) => Some(order_normal_bounds(a, c)),
            SelectionMode::Lines(_) => editor_selection_bounds(&self.editor),
            SelectionMode::Words(_) => editor_selection_bounds(&self.editor),
        };
        state.commit(c, sel, bounds);
    }
}

/// Run one whole edit batch: begin a session on the state, apply every
/// action in order, and commit the result back. The state always comes
/// out with a set cursor, ordered cached bounds, and bounds present
/// exactly when a selection is; a batch with no actions, begun on a
/// committed state that still fits the buffer, leaves the cursor and
/// selection exactly as committed.
pub fn run_session(
    state: &mut EditorState,
    buffer: &mut cosmic_text::Buffer,
    fs: &mut cosmic_text::FontSystem,
    actions: &Vec<EditAction>,
)
    ensures
        final(state).cursor is Some,
        match final(state).selection_bounds {
            Some((a, b)) => cursor_le(a, b),
            None => true,
        },
        (final(state).selection_bounds is None) <==> final(state).selection
            == SelectionMode::NoSelection,
        actions@.len() == 0 && (match seed_of(*old(state)) {
            Some((c, sel)) => spec_seed_fits(lines_of(*old(buffer)), c, sel),
            None => false,
        }) ==> final(state).cursor == old(state).cursor && final(state).selection == old(
            state,
        ).selection,
{
    let mut session = TempEditor::new(state, buffer);
    let ghost c0 = session.cursor_view();
    let ghost s0 = session.selection_view();
    let mut i: usize = 0;
    while i < actions.len()
        invariant
            actions@.len() == 0 ==> session.cursor_view() == c0 && session.selection_view() == s0,
        decreases actions@.len() - i,
    {
        session.apply(fs, &actions[i]);
        i = i + 1;
    }
    session.commit(state);
}

} // verus!
