//! Bounded-concurrency batch fetching: admission control, per-item retry with
//! exponential backoff, temp-then-rename persistence and cleanup of partial files.
//!
//! The library holds the decisions and leaves the waiting to its caller. A
//! [`batch::Batch`] says which item may start and keeps the outcomes; a
//! [`download::Download`] says what to do next for one item, given what
//! happened last; a [`registry::TempFileRegistry`] knows which temporary files
//! are to be removed when the batch ends or is cancelled. What holds of whole
//! runs is proved in [`trace`] and, for the batch, in [`batch`].

pub mod backoff;
pub mod batch;
pub mod download;
pub mod gate;
pub mod headers;
pub mod input;
pub mod json;
pub mod naming;
pub mod outcome;
pub mod registry;
pub mod resolver;
pub mod text;
pub mod trace;
