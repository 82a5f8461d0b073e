//! Viewport configuration, status snapshots and the error taxonomy.

use vstd::prelude::*;

verus! {

/// Largest width or height a presentation surface accepts. Keeping both
/// dimensions under this bound also keeps `width * height * 4` well inside
/// the range of `u32`, so a frame buffer length always fits in memory.
pub const MAX_DIMENSION: u32 = 16384;

/// A full-replacement description of the viewport: offset, pixel
/// dimensions and device pixel ratio. The ratio is carried in thousandths
/// so that the whole value is integral (1000 stands for a ratio of 1.0).
#[derive(Clone, Copy, Debug, PartialEq, Eq, Structural)]
pub struct ViewportConfig {
    pub x: i32,
    pub y: i32,
    pub width: u32,
    pub height: u32,
    pub device_pixel_ratio_milli: u32,
}

/// Every failure the viewport reports. Construction errors are fatal to
/// initialization; configuration errors are rejected before they reach the
/// render loop; channel errors mean the render side is full or gone.
#[derive(Clone, Copy, Debug, PartialEq, Eq, Structural)]
pub enum ViewportError {
    InvalidDimensions,
    UnsupportedWindowSystem,
    DeviceUnavailable,
    SurfaceCreationFailed,
    SwapchainCreationFailed,
    ChannelFull,
    ChannelClosed,
}

/// A consistent snapshot of the viewport as the render loop last applied
/// it. `fps_milli` is thousandths of a frame per second;
/// `average_frame_time_micros` is the rolling mean frame duration in
/// microseconds (thousandths of a millisecond).
#[derive(Clone, Copy, Debug, PartialEq, Eq, Structural)]
pub struct ViewportStatus {
    pub width: u32,
    pub height: u32,
    pub buffer_size: u64,
    pub device_pixel_ratio_milli: u32,
    pub fps_milli: u64,
    pub average_frame_time_micros: u64,
    pub rendering: bool,
}

/// Number of bytes a frame of the given dimensions occupies: four bytes
/// (RGBA8) per pixel.
pub open spec fn frame_bytes(width: u32, height: u32) -> int {
    width * height * 4
}

impl ViewportConfig {
    /// A configuration the render loop may act on: both dimensions are
    /// positive (and within what a surface accepts) and the device pixel
    /// ratio is positive.
    pub open spec fn valid(self) -> bool {
        &&& 1 <= self.width <= MAX_DIMENSION
        &&& 1 <= self.height <= MAX_DIMENSION
        &&& self.device_pixel_ratio_milli >= 1
    }

    /// Accepts exactly the configurations `valid` describes; a zero or
    /// oversized dimension and a zero ratio are rejected before they can
    /// reach the render loop.
    pub fn validate(&self) -> (r: Result<(), ViewportError>)
        ensures
            r is Ok <==> self.valid(),
            !self.valid() ==> r == Err::<(), ViewportError>(ViewportError::InvalidDimensions),
    {
        if self.width >= 1 && self.width <= MAX_DIMENSION && self.height >= 1
            && self.height <= MAX_DIMENSION && self.device_pixel_ratio_milli >= 1 {
            Ok(())
        } else {
            Err(ViewportError::InvalidDimensions)
        }
    }
}

impl ViewportError {
    /// A short description, for the host shell's error reporting.
    pub fn message(&self) -> (r: &'static str) {
        match self {
            ViewportError::InvalidDimensions => "viewport dimensions must be positive",
            ViewportError::UnsupportedWindowSystem => "unsupported window system",
            ViewportError::DeviceUnavailable => "no device exposes a graphics queue",
            ViewportError::SurfaceCreationFailed => "failed to create presentation surface",
            ViewportError::SwapchainCreationFailed => "no compatible format or present mode",
            ViewportError::ChannelFull => "command channel is full",
            ViewportError::ChannelClosed => "render thread is gone",
        }
    }
}

} // verus!
