use awos::kernel_core::{
    enter, FramebufferHandoff, HandoffError, HandoffPixelFormat, KernelHandoff,
};

const VALID_FRAMEBUFFER: FramebufferHandoff = FramebufferHandoff {
    physical_address: 0x8000_0000,
    byte_len: 1280 * 800 * 4,
    width: 1280,
    height: 800,
    stride_pixels: 1280,
    pixel_format: HandoffPixelFormat::Bgr,
};

#[test]
fn accepts_valid_handoff() {
    let handoff = KernelHandoff::new(0xf000_0000, 127, Some(VALID_FRAMEBUFFER));
    assert_eq!(enter(&handoff), Ok(()));
}

#[test]
fn accepts_handoff_without_framebuffer() {
    let handoff = KernelHandoff::new(0xf000_0000, 127, None);
    assert_eq!(enter(&handoff), Ok(()));
}

#[test]
fn rejects_wrong_magic() {
    let mut handoff = KernelHandoff::new(0xf000_0000, 127, None);
    handoff.magic ^= 1;
    assert_eq!(enter(&handoff), Err(HandoffError::InvalidMagic));
}

#[test]
fn rejects_empty_memory_map() {
    let handoff = KernelHandoff::new(0xf000_0000, 0, None);
    assert_eq!(enter(&handoff), Err(HandoffError::EmptyMemoryMap));
}

#[test]
fn rejects_invalid_framebuffer() {
    let mut framebuffer = VALID_FRAMEBUFFER;
    framebuffer.stride_pixels = framebuffer.width - 1;
    let handoff = KernelHandoff::new(0xf000_0000, 127, Some(framebuffer));
    assert_eq!(enter(&handoff), Err(HandoffError::InvalidFramebuffer));
}

#[test]
fn handoff_without_framebuffer_carries_the_empty_framebuffer() {
    let handoff = KernelHandoff::new(0xf000_0000, 127, None);
    assert_eq!(handoff.framebuffer, FramebufferHandoff::none());
    assert_eq!(handoff.validate(), Ok(()));
    assert!(VALID_FRAMEBUFFER.dimensions_are_valid());
}
