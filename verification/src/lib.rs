//! Arranging two display outputs next to each other.
//!
//! The crate computes where two outputs of a compositor go so that one sits
//! above, below, left or right of the other: centered against each other on the
//! cross axis and touching, without gap or overlap, on the main axis. It also
//! picks the two outputs from the list a compositor reports and renders the
//! commands that move them.

pub mod arrange;
pub mod decimal;
pub mod display;
pub mod error;
pub mod orientation;
pub mod output;
pub mod placement;

pub use display::Display;
pub use error::{ArrangeError, Role};
pub use orientation::Orientation;
pub use output::{Mode, Output, Rect};
