//! Edit provenance for text buffers that an automated tool and a person change
//! at the same time.
//!
//! The [`action_log::ActionLog`] records which edits of a buffer the tool made,
//! folds overlapping edits of the user into them, and keeps, for every buffer,
//! the instructions from which the diff of the changes that still await review
//! is recomputed.

pub mod action_log;
pub mod breakpoint;
pub mod buffer;
pub mod clock;
pub mod diff;
pub mod feature_flags;
pub mod key_order;
pub mod laws;
pub mod point;
pub mod position;
pub mod ranges;
pub mod tracked_buffer;
