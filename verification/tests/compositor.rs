//! The headless compositor's configure/present/read state machine.

use iced_harness::rendering::capture::render_once;
use iced_harness::rendering::compositor::{BufferDimensions, Compositor, PresentError};
use iced_harness::rendering::headless::VirtualCompositor;
use iced_harness::rendering::screenshot::ByteSource;

#[test]
fn buffer_dimensions_pad_each_row() {
    let d = BufferDimensions::new(600, 600);
    assert_eq!(d.width, 600);
    assert_eq!(d.height, 600);
    assert_eq!(d.padded_bytes_per_row, 2560);
    // A width whose row already sits on the alignment keeps its stride.
    assert_eq!(BufferDimensions::new(64, 1).padded_bytes_per_row, 256);
}

#[test]
fn read_before_configure_is_none() {
    let c = Compositor::new();
    assert!(c.read().is_none());
    assert!(VirtualCompositor::read(&c).is_none());
}

#[test]
fn present_before_configure_is_refused() {
    let mut c = Compositor::new();
    assert_eq!(c.present(vec![0; 16]), Err(PresentError::NotConfigured));
}

#[test]
fn present_of_a_short_frame_is_refused() {
    let mut c = Compositor::new();
    c.configure_surface(4, 4);
    // Width 4 pads to one 256-byte row; four rows make 1024 bytes.
    assert_eq!(c.present(vec![0; 16]), Err(PresentError::FrameMismatch));
    assert_eq!(c.present(vec![0; 1024]), Ok(()));
}

#[test]
fn read_returns_the_presented_frame() {
    let mut c = Compositor::new();
    c.configure_surface(4, 4);
    let frame = vec![0x3c; 1024];
    c.present(frame.clone()).expect("present failed");
    let shot = c.read().expect("read failed");
    assert_eq!(shot.width(), 4);
    assert_eq!(shot.height(), 4);
    assert_eq!(shot.byte_source(), ByteSource::WGPU);
    assert_eq!(shot.payload_bytes(), &frame);
}

#[test]
fn reconfiguring_changes_the_read_back_size() {
    let mut c = Compositor::new();
    c.configure_surface(4, 4);
    c.present(vec![0x11; 1024]).expect("present failed");
    // Reconfigure at a different size: the next read-back must carry the
    // new dimensions, not the previous ones.
    c.configure_surface(8, 2);
    let shot = c.read().expect("read failed");
    assert_eq!(shot.width(), 8);
    assert_eq!(shot.height(), 2);
    // The fresh epoch's buffer is cleared: two padded rows of zeros.
    assert_eq!(shot.payload_bytes(), &vec![0u8; 512]);
    let frame = vec![0x22; 512];
    c.present(frame.clone()).expect("present failed");
    let shot2 = c.read().expect("read failed");
    assert_eq!(shot2.width(), 8);
    assert_eq!(shot2.height(), 2);
    assert_eq!(shot2.payload_bytes(), &frame);
}

#[test]
fn a_gpu_read_back_is_well_formed_for_the_codec() {
    let mut c = Compositor::new();
    c.configure_surface(10, 3);
    c.present(vec![0x7f; 256 * 3]).expect("present failed");
    let shot = c.read().expect("read failed");
    let decoded = shot.encode_png_frame();
    assert_eq!(decoded.payload_bytes().len(), 10 * 3 * 4);
}

#[test]
fn render_once_yields_a_screenshot_of_the_requested_size() {
    let frame = vec![0x5a; 2560 * 600];
    let shot = render_once(600, 600, frame.clone()).expect("capture failed");
    assert_eq!(shot.width(), 600);
    assert_eq!(shot.height(), 600);
    assert_eq!(shot.payload_bytes(), &frame);
    assert_eq!(shot.byte_source(), ByteSource::WGPU);
}

#[test]
fn render_once_refuses_a_frame_that_does_not_fill_the_buffer() {
    assert_eq!(
        render_once(600, 600, vec![0; 10]),
        Err(PresentError::FrameMismatch)
    );
}
