use vstd::prelude::*;

verus! {

/// The part of a surface configuration that changes over a session's life:
/// its size in physical pixels. The rest (render-target usage, the pixel
/// format chosen at session creation, automatic vsync, automatic alpha) is
/// fixed for the session and kept with its GPU resources.
#[derive(Clone, Copy, Debug, PartialEq, Eq, Structural)]
pub struct SurfaceConfig {
    pub width: u32,
    pub height: u32,
}

impl SurfaceConfig {
    /// Both dimensions are positive: the only configurations ever stored.
    pub open spec fn wf(self) -> bool {
        self.width > 0 && self.height > 0
    }

    /// A configuration for a surface of the given size; `None` when either
    /// dimension is zero.
    pub fn new(width: u32, height: u32) -> (r: Option<SurfaceConfig>)
        ensures
            r is Some <==> width > 0 && height > 0,
            r matches Some(c) ==> c.width == width && c.height == height && c.wf(),
    {
        if width == 0 || height == 0 {
            None
        } else {
            Some(SurfaceConfig { width, height })
        }
    }
}

} // verus!
