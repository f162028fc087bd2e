//! Sizes, surface configurations and presentation errors.

use vstd::prelude::*;

verus! {

/// How many frames the presentation engine may queue ahead of the display.
pub const FRAME_LATENCY: u32 = 2;

/// The size of a window's drawable area in physical pixels.
#[derive(Clone, Copy, Debug, PartialEq, Eq, Structural)]
pub struct PhysicalSize {
    pub width: u32,
    pub height: u32,
}

impl PhysicalSize {
    /// A size has an area when neither dimension is zero. Only such a size
    /// is a valid extent for a drawable surface; a minimised window reports
    /// a size without area.
    pub open spec fn has_area(self) -> bool {
        self.width > 0 && self.height > 0
    }

    pub fn new(width: u32, height: u32) -> (size: PhysicalSize)
        ensures
            size == (PhysicalSize { width, height }),
    {
        PhysicalSize { width, height }
    }

    /// Tells whether the size can back a surface.
    pub fn is_drawable(&self) -> (drawable: bool)
        ensures
            drawable == self.has_area(),
    {
        self.width > 0 && self.height > 0
    }
}

/// The part of a surface's configuration that changes while the renderer
/// runs, together with the frame latency it was created with.
#[derive(Clone, Copy, Debug, PartialEq, Eq, Structural)]
pub struct SurfaceConfig {
    pub width: u32,
    pub height: u32,
    pub desired_maximum_frame_latency: u32,
}

impl SurfaceConfig {
    /// The configuration a surface starts with for a drawable area of `size`.
    pub open spec fn initial(size: PhysicalSize) -> SurfaceConfig {
        SurfaceConfig {
            width: size.width,
            height: size.height,
            desired_maximum_frame_latency: FRAME_LATENCY,
        }
    }

    /// This configuration with its extent replaced by `size`.
    pub open spec fn with_extent(self, size: PhysicalSize) -> SurfaceConfig {
        SurfaceConfig { width: size.width, height: size.height, ..self }
    }

    /// The extent the surface is configured with.
    pub open spec fn extent(self) -> PhysicalSize {
        PhysicalSize { width: self.width, height: self.height }
    }

    pub fn for_size(size: PhysicalSize) -> (config: SurfaceConfig)
        ensures
            config == SurfaceConfig::initial(size),
    {
        SurfaceConfig {
            width: size.width,
            height: size.height,
            desired_maximum_frame_latency: FRAME_LATENCY,
        }
    }
}

/// Why the next presentable image could not be acquired.
#[derive(Clone, Copy, Debug, PartialEq, Eq, Structural)]
pub enum AcquireError {
    /// Acquiring the image took too long.
    Timeout,
    /// The surface changed underneath the swap chain.
    Outdated,
    /// The swap chain was lost.
    Lost,
    /// No memory is left for a new frame.
    OutOfMemory,
}

impl AcquireError {
    /// Lost and outdated surfaces come back once they are configured anew.
    pub open spec fn is_recoverable(self) -> bool {
        self is Lost || self is Outdated
    }

    /// Only memory exhaustion ends the frame loop.
    pub open spec fn is_fatal(self) -> bool {
        self is OutOfMemory
    }
}

} // verus!
