//! One synchronous frame capture.
//!
//! The capture pipeline builds a fresh compositor for a hidden render
//! target, configures it at the requested size, presents the one frame the
//! renderer drew, and reads the pixels back. The drawing itself happens on
//! the GPU outside this crate; what arrives here is the padded byte buffer
//! the device copied out, and everything that decides what those bytes
//! become is verified.

use vstd::prelude::*;

verus! {

use crate::rendering::alignment::ROW_COPY_ALIGNMENT;
use crate::rendering::compositor::{spec_padded_row, Compositor, PresentError};
use crate::rendering::screenshot::{ByteSource, ColorType, Screenshot, ScreenshotView};
use vstd::pervasive::unreached;

/// Turns one drawn frame into a screenshot: a fresh compositor is
/// configured at `width x height`, the frame is presented, and the pixels
/// are read back tagged as a GPU read-back. Each call stands alone and
/// leaves no state behind. The one failure is a frame that does not fill
/// the configured read-back buffer.
pub fn render_once(width: u32, height: u32, frame: Vec<u8>) -> (r: Result<Screenshot, PresentError>)
    requires
        width as nat * 4 + ROW_COPY_ALIGNMENT <= usize::MAX,
        height as nat * spec_padded_row(width as nat) <= usize::MAX,
    ensures
        frame@.len() == height as nat * spec_padded_row(width as nat) ==> (r matches Ok(s) && s@
            == (ScreenshotView {
            payload: frame@,
            width: width as nat,
            height: height as nat,
            color: ColorType::Rgba,
            source: ByteSource::WGPU,
        }) && s@.wf()),
        frame@.len() != height as nat * spec_padded_row(width as nat) ==> r == Err::<
            Screenshot,
            PresentError,
        >(PresentError::FrameMismatch),
{
    let mut compositor = Compositor::new();
    compositor.configure_surface(width, height);
    match compositor.present(frame) {
        Err(e) => Err(e),
        Ok(_) => {
            match compositor.read() {
                Some(screenshot) => Ok(screenshot),
                None => unreached(),
            }
        },
    }
}

} // verus!
