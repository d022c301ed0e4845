//! Interface for headless rendering back-ends.

use vstd::prelude::*;

verus! {

use crate::rendering::screenshot::Screenshot;

/// A rendering back-end that can hand back the pixels of its most recently
/// drawn frame.
pub trait VirtualCompositor {
    /// Reads the framebuffer pixels into a screenshot, or `None` if there
    /// is no framebuffer to read.
    fn read(&self) -> Option<Screenshot>;
}

} // verus!
