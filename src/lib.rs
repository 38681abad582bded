//! Typed errors that carry a trail of context frames.
//!
//! An [`Error`] holds a caller-chosen kind and an ordered list of frames,
//! each a `(message, location)` pair. Frames are inserted at the head, so the
//! most recently attached context (the one closest to the final handler)
//! comes first.
//!
//! Reclassifying an error to another kind type keeps every frame and folds
//! the printed form of the replaced kind into the head frame's message
//! (`"{old_kind:?}: {message}"`), so each kind that ever applied can still be
//! read off the trail.
mod error;
mod laws;

pub use error::{fold_kind, kind_separator, switch_kind, unshift_msg_stack, Error, FrameView};
pub use laws::{attach_all, lemma_frame_order, lemma_reclassify_keeps_history};
