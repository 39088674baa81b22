//! User input, as the renderer's caller sees it.

use vstd::prelude::*;

verus! {

/// An input event of the window.
#[derive(Clone, Copy, Debug)]
pub enum UserInput {
    /// No input that the renderer cares about.
    Nothing,
    TerminationRequested,
    /// The window's new size in physical pixels.
    Resized((u32, u32)),
    /// The cursor's new position in physical pixels.
    CursorMoved((i32, i32)),
}

} // verus!
