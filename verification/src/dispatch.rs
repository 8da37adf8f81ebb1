//! Input dispatch: the editing-action taxonomy, the mapping from logical
//! key presses to actions, and the mapping from a classified click to a
//! click action.
use vstd::prelude::*;
use crate::click::{ClickHistory, is_n_click, recorded, ClickHistoryEntry, MAX_ENTRIES};

verus! {

/// A cursor motion, applied with standard text-editor semantics by the
/// external editing primitive.
#[derive(Clone, Copy, Debug, PartialEq, Eq, Structural)]
pub enum MotionKind {
    Left,
    Right,
    Up,
    Down,
    Home,
    End,
    PageUp,
    PageDown,
}

/// One editing action against the buffer or the cursor/selection.
/// `Insert` carries the inserted character as its Unicode scalar value.
#[derive(Clone, Copy, Debug, PartialEq, Eq, Structural)]
pub enum EditAction {
    Insert(u32),
    Enter,
    Backspace,
    Delete,
    Motion(MotionKind),
    Click { x: i32, y: i32 },
    DoubleClick { x: i32, y: i32 },
    TripleClick { x: i32, y: i32 },
}

/// A logical key identity, as the host delivers it for one key press.
#[derive(Clone, Debug)]
pub enum KeyInput {
    /// A character-producing key; a single press may carry several chars.
    Character(Vec<char>),
    Enter,
    Space,
    Backspace,
    Delete,
    Control,
    Shift,
    Tab,
    ArrowDown,
    ArrowLeft,
    ArrowRight,
    ArrowUp,
    End,
    Home,
    PageDown,
    PageUp,
    /// Any key this engine does not handle.
    Other,
}

/// The actions a key press maps to: one `Insert` per character of a
/// character key, one action for each editing or motion key, and none
/// for keys the engine leaves alone.
pub open spec fn key_actions(key: KeyInput) -> Seq<EditAction> {
    match key {
        KeyInput::Character(cs) => Seq::new(cs@.len(), |i: int| EditAction::Insert(cs@[i] as u32)),
        KeyInput::Enter => seq![EditAction::Enter],
        KeyInput::Space => seq![EditAction::Insert(' ' as u32)],
        KeyInput::Backspace => seq![EditAction::Backspace],
        KeyInput::Delete => seq![EditAction::Delete],
        KeyInput::Control => Seq::empty(),
        KeyInput::Shift => Seq::empty(),
        KeyInput::Tab => Seq::empty(),
        KeyInput::ArrowDown => seq![EditAction::Motion(MotionKind::Down)],
        KeyInput::ArrowLeft => seq![EditAction::Motion(MotionKind::Left)],
        KeyInput::ArrowRight => seq![EditAction::Motion(MotionKind::Right)],
        KeyInput::ArrowUp => seq![EditAction::Motion(MotionKind::Up)],
        KeyInput::End => seq![EditAction::Motion(MotionKind::End)],
        KeyInput::Home => seq![EditAction::Motion(MotionKind::Home)],
        KeyInput::PageDown => seq![EditAction::Motion(MotionKind::PageDown)],
        KeyInput::PageUp => seq![EditAction::Motion(MotionKind::PageUp)],
        KeyInput::Other => Seq::empty(),
    }
}

/// One `Insert` action for each character, in order.
fn insert_actions(cs: &Vec<char>) -> (acts: Vec<EditAction>)
    ensures
        acts@ =~= Seq::new(cs@.len(), |i: int| EditAction::Insert(cs@[i] as u32)),
{
    let mut acts: Vec<EditAction> = Vec::new();
    let mut i: usize = 0;
    while i < cs.len()
        invariant
            i <= cs@.len(),
            acts@.len() == i,
            forall|j: int| 0 <= j < i ==> acts@[j] == EditAction::Insert(cs@[j] as u32),
        decreases cs@.len() - i,
    {
        let c: char = cs[i];
        acts.push(EditAction::Insert(c as u32));
        i = i + 1;
    }
    acts
}

/// Translate one pressed key into the sequence of editing actions it
/// stands for.
pub fn actions_for_key(key: &KeyInput) -> (acts: Vec<EditAction>)
    ensures
        acts@ == key_actions(*key),
{
    let mut acts: Vec<EditAction> = Vec::new();
    match key {
        KeyInput::Character(cs) => {
            acts = insert_actions(cs);
        },
        KeyInput::Enter => acts.push(EditAction::Enter),
        KeyInput::Space => acts.push(EditAction::Insert(' ' as u32)),
        KeyInput::Backspace => acts.push(EditAction::Backspace),
        KeyInput::Delete => acts.push(EditAction::Delete),
        KeyInput::Control => (),
        KeyInput::Shift => (),
        KeyInput::Tab => (),
        KeyInput::ArrowDown => acts.push(EditAction::Motion(MotionKind::Down)),
        KeyInput::ArrowLeft => acts.push(EditAction::Motion(MotionKind::Left)),
        KeyInput::ArrowRight => acts.push(EditAction::Motion(MotionKind::Right)),
        KeyInput::ArrowUp => acts.push(EditAction::Motion(MotionKind::Up)),
        KeyInput::End => acts.push(EditAction::Motion(MotionKind::End)),
        KeyInput::Home => acts.push(EditAction::Motion(MotionKind::Home)),
        KeyInput::PageDown => acts.push(EditAction::Motion(MotionKind::PageDown)),
        KeyInput::PageUp => acts.push(EditAction::Motion(MotionKind::PageUp)),
        KeyInput::Other => (),
    }
    proof {
        assert(acts@ =~= key_actions(*key));
    }
    acts
}

/// The click action a freshly recorded history stands for: triple-click
/// preferred over double over single when several hold at once.
pub open spec fn click_action_for(h: Seq<ClickHistoryEntry>, x: i32, y: i32) -> EditAction {
    if is_n_click(h, 3) {
        EditAction::TripleClick { x, y }
    } else if is_n_click(h, 2) {
        EditAction::DoubleClick { x, y }
    } else {
        EditAction::Click { x, y }
    }
}

/// Record a left click at `(x, y)` and classify it. A just-recorded
/// history always holds at least one entry, so classification never
/// falls through.
pub fn handle_click(history: &mut ClickHistory, x: i32, y: i32, time_ms: u64) -> (a: EditAction)
    ensures
        final(history).history@ == recorded(
            old(history).history@,
            ClickHistoryEntry { x, y, time_ms },
        ),
        final(history).history@.len() <= MAX_ENTRIES,
        a == click_action_for(final(history).history@, x, y),
{
    history.add_entry(x, y, time_ms);
    if history.clicked(3) {
        EditAction::TripleClick { x, y }
    } else if history.clicked(2) {
        EditAction::DoubleClick { x, y }
    } else if history.clicked(1) {
        EditAction::Click { x, y }
    } else {
        // a recorded click always classifies at least as a single click
        proof {
            crate::click::lemma_single_click(history.history@);
        }
        assert(false);
        EditAction::Click { x, y }
    }
}

} // verus!
