//! What a compositor reports about an output.

use vstd::prelude::*;

verus! {

/// A rectangle in the compositor's global coordinate space.
#[derive(Copy, Clone, PartialEq, Eq, Structural, Debug)]
pub struct Rect {
    pub x: i32,
    pub y: i32,
    pub width: i32,
    pub height: i32,
}

/// A resolution and refresh rate at which an output can be driven.
#[derive(Copy, Clone, PartialEq, Eq, Structural, Debug)]
pub struct Mode {
    pub width: i32,
    pub height: i32,
    pub refresh: i32,
}

/// One output as the compositor reports it.
#[derive(Clone, Debug)]
pub struct Output {
    /// The name of the output, such as the connector it hangs on.
    pub name: String,
    /// Whether the output is enabled.
    pub active: bool,
    /// The area the output covers at present.
    pub rect: Rect,
    /// The mode the output is driven at, if it has one.
    pub current_mode: Option<Mode>,
}

} // verus!
