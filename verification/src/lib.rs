//! Core logic of an in-place rich-text editing engine: click-gesture
//! classification, keyboard-to-action dispatch, editor-session state,
//! styled-span reconciliation, glyph-level caret and selection
//! geometry, and pointer hit testing.
pub mod click;
pub mod dispatch;
pub mod extract;
pub mod geometry;
pub mod hit;
pub mod reconcile;
pub mod session;
pub mod state;
