//! A fluent builder for vector-graphics path data: each method appends one
//! path command (move, line, curve, arc, close) to a text buffer, and the
//! buffer can be rendered as a string at any point in the chain.
//!
//! Coordinates enter as already-formatted decimal text; the builder itself
//! only assembles command letters, separators and flags, and its contracts
//! state the exact character sequence that each call appends.

pub mod cmds;
pub mod counting;
pub mod path;

pub use path::Path;
