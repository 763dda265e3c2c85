//! The geometry and composition core of a typesetting layout engine:
//! direction-agnostic axes and alignment, padded layout spaces, the
//! spacing-merge state machine, finished layouts with their text encoding,
//! a flex layouter for inline boxes and a stack layouter for blocks that
//! moves on through candidate spaces.

pub mod size;
pub mod geometry;
pub mod spacing;
pub mod layout;
pub mod spaces;
pub mod stack;
pub mod flex;
