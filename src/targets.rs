use vstd::prelude::*;

verus! {

/// Side length, in surface pixels, of one pixel of the low-resolution target.
pub const PIXEL_SCALE: u32 = 4;

/// Size of the low-resolution target that belongs to a surface of the given size.
pub open spec fn low_res_of(width: u32, height: u32) -> (u32, u32) {
    ((width / PIXEL_SCALE) as u32, (height / PIXEL_SCALE) as u32)
}

/// Size of the offscreen target for a surface of `width` x `height`: each
/// dimension divided by four, rounded down.
pub fn low_res_extent(width: u32, height: u32) -> (r: (u32, u32))
    ensures
        r == low_res_of(width, height),
{
    (width / PIXEL_SCALE, height / PIXEL_SCALE)
}

/// Camera projection parameters that depend on the surface. The aspect ratio
/// is kept exactly, as the fraction `aspect_width / aspect_height`.
#[derive(Clone, Copy, Debug, PartialEq, Eq, Structural)]
pub struct Projection {
    pub aspect_width: u32,
    pub aspect_height: u32,
}

impl Projection {
    pub fn new(width: u32, height: u32) -> (r: Projection)
        ensures
            r.aspect_width == width,
            r.aspect_height == height,
    {
        Projection { aspect_width: width, aspect_height: height }
    }

    /// Sets the aspect ratio to `width / height`.
    pub fn resize(&mut self, width: u32, height: u32)
        ensures
            final(self).aspect_width == width,
            final(self).aspect_height == height,
    {
        self.aspect_width = width;
        self.aspect_height = height;
    }
}

/// The sizes of everything that follows the display surface: the surface
/// configuration, the low-resolution color target with its depth attachment,
/// and the camera projection.
#[derive(Clone, Copy, Debug, PartialEq, Eq, Structural)]
pub struct RenderTargets {
    pub surface_width: u32,
    pub surface_height: u32,
    pub low_res_width: u32,
    pub low_res_height: u32,
    pub depth_width: u32,
    pub depth_height: u32,
    pub projection: Projection,
}

impl RenderTargets {
    /// Every size is derived from the current surface size.
    pub open spec fn wf(&self) -> bool {
        &&& (self.low_res_width, self.low_res_height) == low_res_of(
            self.surface_width,
            self.surface_height,
        )
        &&& self.depth_width == self.low_res_width
        &&& self.depth_height == self.low_res_height
        &&& self.projection.aspect_width == self.surface_width
        &&& self.projection.aspect_height == self.surface_height
    }

    /// Sizes for a surface of `width` x `height`.
    pub fn new(width: u32, height: u32) -> (r: RenderTargets)
        ensures
            r.wf(),
            r.surface_width == width,
            r.surface_height == height,
    {
        let (lw, lh) = low_res_extent(width, height);
        RenderTargets {
            surface_width: width,
            surface_height: height,
            low_res_width: lw,
            low_res_height: lh,
            depth_width: lw,
            depth_height: lh,
            projection: Projection::new(width, height),
        }
    }

    /// Follows a resize of the window. A zero dimension (a minimized window)
    /// changes nothing and returns false; otherwise the surface, the
    /// low-resolution target, its depth attachment and the projection are all
    /// recomputed for the new size and the result is true, meaning that the
    /// GPU resources must be recreated.
    pub fn resize(&mut self, width: u32, height: u32) -> (rebuilt: bool)
        requires
            old(self).wf(),
        ensures
            final(self).wf(),
            rebuilt == (width > 0 && height > 0),
            rebuilt ==> final(self).surface_width == width && final(self).surface_height == height,
            !rebuilt ==> *final(self) == *old(self),
    {
        if width > 0 && height > 0 {
            let (lw, lh) = low_res_extent(width, height);
            self.surface_width = width;
            self.surface_height = height;
            self.low_res_width = lw;
            self.low_res_height = lh;
            self.depth_width = lw;
            self.depth_height = lh;
            self.projection.resize(width, height);
            true
        } else {
            false
        }
    }
}

} // verus!
