//! The GPU context: the device/queue/presentation-surface triple and the
//! surface's configured size.
//!
//! The surface format and presentation policy are fixed (see
//! `gpu::configure_surface`); only the size changes over the context's
//! lifetime, and never to a zero-area configuration.

use vstd::prelude::*;
use crate::gpu;

verus! {

/// The dimensions the presentation surface is currently configured with.
#[derive(Clone, Copy, PartialEq, Eq, Structural, Debug)]
pub struct SurfaceConfig {
    pub width: u32,
    pub height: u32,
}

/// Owns the presentation surface, device and queue.
pub struct WGPUContext {
    pub surface: wgpu::Surface<'static>,
    pub device: wgpu::Device,
    pub queue: wgpu::Queue,
    pub config: SurfaceConfig,
}

impl SurfaceConfig {
    /// Applies a resize request: a zero-area size is rejected and the
    /// previous configuration kept; any other size is adopted.
    pub fn apply_resize(&mut self, new_width: u32, new_height: u32) -> (accepted: bool)
        ensures
            accepted == (new_width >= 1 && new_height >= 1),
            accepted ==> *final(self) == (SurfaceConfig { width: new_width, height: new_height }),
            !accepted ==> *final(self) == *old(self),
    {
        if new_width > 0 && new_height > 0 {
            self.width = new_width;
            self.height = new_height;
            true
        } else {
            false
        }
    }
}

impl WGPUContext {
    /// The configured size is never zero in either dimension.
    pub open spec fn wf(self) -> bool {
        &&& self.config.width >= 1
        &&& self.config.height >= 1
    }

    /// Wraps an already-negotiated surface/device/queue triple and configures
    /// the surface at the window's size, clamped to at least one pixel per
    /// dimension: a zero-area surface configuration is illegal.
    pub fn new(
        surface: wgpu::Surface<'static>,
        device: wgpu::Device,
        queue: wgpu::Queue,
        width: u32,
        height: u32,
    ) -> (r: Self)
        ensures
            r.wf(),
            r.config.width == if width >= 1 { width } else { 1u32 },
            r.config.height == if height >= 1 { height } else { 1u32 },
    {
        let w = if width >= 1 { width } else { 1 };
        let h = if height >= 1 { height } else { 1 };
        gpu::configure_surface(&surface, &device, w, h);
        WGPUContext { surface, device, queue, config: SurfaceConfig { width: w, height: h } }
    }

    /// Reconfigures the surface at a new size.  A request with a zero-area
    /// size is ignored: the previous configuration is left unchanged.
    pub fn resize(&mut self, new_width: u32, new_height: u32)
        requires
            old(self).wf(),
        ensures
            final(self).wf(),
            new_width >= 1 && new_height >= 1 ==> final(self).config == (SurfaceConfig {
                width: new_width,
                height: new_height,
            }),
            !(new_width >= 1 && new_height >= 1) ==> final(self).config == old(self).config,
    {
        let accepted = self.config.apply_resize(new_width, new_height);
        if accepted {
            gpu::configure_surface(&self.surface, &self.device, new_width, new_height);
        }
    }
}

} // verus!
