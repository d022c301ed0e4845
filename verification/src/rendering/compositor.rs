//! The headless compositor's state machine.
//!
//! The GPU device, the off-screen target texture and the queue live outside
//! this crate; what is modeled here is the bookkeeping that decides every
//! read-back: the configured size, the padded read-back buffer that belongs
//! to it, and the frame bytes of the last present. A caller drives the
//! machine `Uninitialized -> Configured(size) -> Configured(size')...`,
//! hands in the bytes that the device copied out after each draw, and reads
//! them back as a [`Screenshot`].

use vstd::prelude::*;

verus! {

use crate::rendering::alignment::{compute_row_layout, spec_padded_stride, ROW_COPY_ALIGNMENT};
use crate::rendering::headless::VirtualCompositor;
use crate::rendering::screenshot::{ByteSource, ColorType, Screenshot, ScreenshotView};

/// The sizes that one configured read-back epoch works with.
#[derive(Clone, Copy, Debug, PartialEq, Eq, Structural)]
pub struct BufferDimensions {
    /// Width of the render target in pixels.
    pub width: usize,
    /// Height of the render target in pixels.
    pub height: usize,
    /// Bytes per read-back buffer row, padded to the GPU copy alignment.
    pub padded_bytes_per_row: usize,
}

impl BufferDimensions {
    /// Computes the read-back buffer dimensions for a target of
    /// `width x height` pixels at four bytes per pixel.
    pub fn new(width: usize, height: usize) -> (r: Self)
        requires
            width * 4 + ROW_COPY_ALIGNMENT <= usize::MAX,
        ensures
            r.width == width,
            r.height == height,
            r.padded_bytes_per_row == spec_padded_stride(
                width as nat,
                4,
                ROW_COPY_ALIGNMENT as nat,
            ),
    {
        let layout = compute_row_layout(width, 4, ROW_COPY_ALIGNMENT);
        BufferDimensions { width, height, padded_bytes_per_row: layout.padded_stride }
    }
}

/// A present was rejected.
#[derive(Clone, Copy, Debug, PartialEq, Eq, Structural)]
pub enum PresentError {
    /// `configure_surface` was never called: there is no framebuffer.
    NotConfigured,
    /// The frame's byte count does not fill the configured read-back
    /// buffer.
    FrameMismatch,
}

/// The mathematical state of a [`Compositor`].
#[verifier::ext_equal]
pub ghost struct CompositorView {
    /// Whether `configure_surface` has been called.
    pub configured: bool,
    /// Width of the current render target in pixels.
    pub width: nat,
    /// Height of the current render target in pixels.
    pub height: nat,
    /// The read-back buffer contents: `height` rows, each padded to the
    /// GPU copy alignment.
    pub frame: Seq<u8>,
}

/// The padded byte count of one read-back row at the given width.
pub open spec fn spec_padded_row(width: nat) -> nat {
    spec_padded_stride(width, 4, ROW_COPY_ALIGNMENT as nat)
}

/// Configuring allocates a cleared read-back buffer of the new size,
/// releasing whatever the compositor held before.
pub open spec fn spec_configure(v: CompositorView, width: nat, height: nat) -> CompositorView {
    CompositorView {
        configured: true,
        width,
        height,
        frame: Seq::new(height * spec_padded_row(width), |i: int| 0u8),
    }
}

/// Reading back yields the current frame as a GPU-sourced screenshot of the
/// configured size, and nothing before the first configuration.
pub open spec fn spec_read(v: CompositorView) -> Option<ScreenshotView> {
    if v.configured {
        Some(
            ScreenshotView {
                payload: v.frame,
                width: v.width,
                height: v.height,
                color: ColorType::Rgba,
                source: ByteSource::WGPU,
            },
        )
    } else {
        None
    }
}

/// The bookkeeping of a headless, read-back-only compositor.
pub struct Compositor {
    /// The dimensions of the current configuration epoch.
    size: BufferDimensions,
    /// The read-back buffer of the current epoch, absent before the first
    /// `configure_surface`.
    frame_buffer: Option<Vec<u8>>,
}

impl View for Compositor {
    type V = CompositorView;

    closed spec fn view(&self) -> CompositorView {
        CompositorView {
            configured: self.frame_buffer is Some,
            width: self.size.width as nat,
            height: self.size.height as nat,
            frame: match self.frame_buffer {
                Some(b) => b@,
                None => Seq::empty(),
            },
        }
    }
}

/// A vector of `n` zero bytes.
fn zero_vec(n: usize) -> (r: Vec<u8>)
    ensures
        r@ == Seq::new(n as nat, |i: int| 0u8),
{
    let mut r: Vec<u8> = Vec::new();
    let mut k: usize = 0;
    while k < n
        invariant
            k <= n,
            r@.len() == k,
            forall|i: int| 0 <= i < k ==> r@[i] == 0u8,
        decreases n - k,
    {
        r.push(0u8);
        k += 1;
    }
    proof {
        assert(r@ =~= Seq::new(n as nat, |i: int| 0u8));
    }
    r
}

/// Byte-for-byte copy of a vector.
fn copy_bytes(src: &Vec<u8>) -> (r: Vec<u8>)
    ensures
        r@ == src@,
{
    let mut r: Vec<u8> = Vec::new();
    let mut k: usize = 0;
    while k < src.len()
        invariant
            k <= src@.len(),
            r@.len() == k,
            forall|i: int| 0 <= i < k ==> r@[i] == src@[i],
        decreases src@.len() - k,
    {
        let b = src[k];
        r.push(b);
        k += 1;
    }
    proof {
        assert(r@ =~= src@);
    }
    r
}

impl Compositor {
    /// The compositor's bookkeeping invariant: the padded row stride always
    /// belongs to the configured width, and the read-back buffer, once
    /// allocated, holds exactly `height` padded rows.
    #[verifier::type_invariant]
    spec fn inv(self) -> bool {
        &&& self.size.padded_bytes_per_row == spec_padded_row(self.size.width as nat)
        &&& (self.frame_buffer matches Some(b) ==> b@.len() == self.size.height
            * self.size.padded_bytes_per_row)
    }

    /// A fresh, unconfigured compositor: no target, no read-back buffer.
    pub fn new() -> (r: Self)
        ensures
            !r@.configured,
            r@.width == 0,
            r@.height == 0,
    {
        let size = BufferDimensions::new(0, 0);
        Compositor { size, frame_buffer: None }
    }

    /// (Re)allocates the off-screen target and the read-back buffer for a
    /// `width x height` target, releasing any previous epoch's buffer. The
    /// fresh buffer is cleared.
    pub fn configure_surface(&mut self, width: u32, height: u32)
        requires
            width as nat * 4 + ROW_COPY_ALIGNMENT <= usize::MAX,
            height as nat * spec_padded_row(width as nat) <= usize::MAX,
        ensures
            final(self)@ == spec_configure(old(self)@, width as nat, height as nat),
    {
        proof {
            use_type_invariant(&*self);
        }
        let size = BufferDimensions::new(width as usize, height as usize);
        proof {
            assert(size.height * size.padded_bytes_per_row <= usize::MAX);
        }
        let buffer = zero_vec(size.height * size.padded_bytes_per_row);
        *self = Compositor { size, frame_buffer: Some(buffer) };
        proof {
            assert(final(self)@ =~= spec_configure(old(self)@, width as nat, height as nat));
        }
    }

    /// Accepts the bytes that the device copied out of the target after one
    /// clear-and-draw pass: exactly one padded read-back buffer's worth.
    /// Fails before the first configuration, and on a frame that does not
    /// fill the buffer; a failed present leaves the state unchanged.
    pub fn present(&mut self, frame: Vec<u8>) -> (r: Result<(), PresentError>)
        ensures
            !old(self)@.configured ==> r == Err::<(), PresentError>(PresentError::NotConfigured)
                && final(self)@ == old(self)@,
            old(self)@.configured && frame@.len() == old(self)@.height * spec_padded_row(
                old(self)@.width,
            ) ==> r == Ok::<(), PresentError>(()) && final(self)@ == (CompositorView {
                frame: frame@,
                ..old(self)@
            }),
            old(self)@.configured && frame@.len() != old(self)@.height * spec_padded_row(
                old(self)@.width,
            ) ==> r == Err::<(), PresentError>(PresentError::FrameMismatch) && final(self)@ == old(
                self,
            )@,
    {
        proof {
            use_type_invariant(&*self);
        }
        match &self.frame_buffer {
            None => Err(PresentError::NotConfigured),
            Some(b) => {
                if frame.len() != b.len() {
                    proof {
                        assert(final(self)@ =~= old(self)@);
                    }
                    return Err(PresentError::FrameMismatch);
                }
                self.frame_buffer = Some(frame);
                proof {
                    assert(final(self)@ =~= (CompositorView { frame: frame@, ..old(self)@ }));
                }
                Ok(())
            },
        }
    }

    /// Copies the read-back buffer into a GPU-sourced screenshot of the
    /// configured size; `None` before the first configuration.
    pub fn read(&self) -> (r: Option<Screenshot>)
        ensures
            r is Some <==> self@.configured,
            r matches Some(s) ==> Some(s@) == spec_read(self@) && s@.wf(),
    {
        proof {
            use_type_invariant(&*self);
        }
        match &self.frame_buffer {
            None => None,
            Some(b) => {
                let bytes = copy_bytes(b);
                let s = Screenshot::new(bytes, self.size.width, self.size.height);
                proof {
                    assert(s@ =~= spec_read(self@).unwrap());
                }
                Some(s)
            },
        }
    }
}

impl VirtualCompositor for Compositor {
    fn read(&self) -> Option<Screenshot> {
        Compositor::read(self)
    }
}

/// Reconfiguring at a new size and then reading back yields a screenshot
/// of the new size, whatever the compositor held before.
pub proof fn lemma_reconfigure_read_dimensions(v: CompositorView, width: nat, height: nat)
    ensures
        spec_read(spec_configure(v, width, height)) matches Some(s) && s.width == width
            && s.height == height,
{
}

} // verus!
