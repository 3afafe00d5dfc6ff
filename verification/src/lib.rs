//! An in-memory edit history for one text buffer.
//!
//! The host widget describes each edit it has made as a [`HistoryChange`] and
//! pushes it onto a [`History`]. Adjacent small edits coalesce on push, so
//! that a run of keystrokes is undone in one step. `undo` and `redo` hand
//! back the edit that the host is to carry out on its own buffer; the history
//! never sees the buffer.
//!
//! Offsets and lengths count bytes of UTF-8, as `str::len` does.
//!
//! - [`change`]: the edits, their inverses and the merge policy;
//! - [`history`]: the two bounded stacks;
//! - [`model`]: what both mean, over sequences and natural numbers;
//! - [`laws`]: what is proved of the model for all inputs;
//! - [`text`]: how text is measured.

pub mod change;
pub mod history;
pub mod laws;
pub mod model;
pub mod text;

pub use crate::change::{ChangeType, HistoryChange, INSERT_MERGE_GAP};
pub use crate::history::{History, DEFAULT_MAX_SIZE};
