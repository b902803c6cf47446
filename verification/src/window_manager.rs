//! The size of the main window.

use vstd::prelude::*;

verus! {

/// Width of the content area, in logical pixels.
pub const CONTENT_WIDTH: u32 = 400;

/// Height of the content area, in logical pixels.
pub const CONTENT_HEIGHT: u32 = 600;

/// Whether the window's content is protected from screen capture.
pub const ENABLE_CONTENT_PROTECTION: bool = false;

/// The size of the window: exactly the content area, on every platform.
pub fn calculate_exact_window_size() -> (size: (u32, u32))
    ensures
        size == (CONTENT_WIDTH, CONTENT_HEIGHT),
{
    (CONTENT_WIDTH, CONTENT_HEIGHT)
}

} // verus!
