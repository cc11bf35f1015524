//! Size of the presentation surface and whether it may be drawn to.
use vstd::prelude::*;

verus! {

/// Largest edge, in pixels, that a resize asks for, whatever the device
/// could offer: WebGL only guarantees this much.
pub const MAX_SURFACE_DIMENSION: u32 = 2048;

/// The smaller of two edges.
pub open spec fn min_u32(a: u32, b: u32) -> u32 {
    if a <= b { a } else { b }
}

/// The mathematical state of a [`SurfaceState`].
pub struct SurfaceModel {
    /// Configured width in pixels.
    pub width: u32,
    /// Configured height in pixels.
    pub height: u32,
    /// Largest width that the device can present.
    pub max_view_width: u32,
    /// Largest height that the device can present.
    pub max_view_height: u32,
    /// Whether the surface has been configured since it was created.
    pub configured: bool,
}

impl SurfaceModel {
    /// The edge that a resize to `requested` settles on, given the device's
    /// largest edge `max_view`.
    pub open spec fn clamp_edge(requested: u32, max_view: u32) -> u32 {
        min_u32(min_u32(requested, MAX_SURFACE_DIMENSION), max_view)
    }

    /// The state after the window reported the size `width` x `height`. A
    /// size with a zero edge (a minimised window) changes nothing.
    pub open spec fn after_resize(self, width: u32, height: u32) -> SurfaceModel {
        if width > 0 && height > 0 {
            SurfaceModel {
                width: Self::clamp_edge(width, self.max_view_width),
                height: Self::clamp_edge(height, self.max_view_height),
                configured: true,
                ..self
            }
        } else {
            self
        }
    }
}

/// The configured size of the presentation surface, the largest size the
/// device can present, and whether drawing may start.
pub struct SurfaceState {
    width: u32,
    height: u32,
    max_view_width: u32,
    max_view_height: u32,
    configured: bool,
}

impl View for SurfaceState {
    type V = SurfaceModel;

    closed spec fn view(&self) -> SurfaceModel {
        SurfaceModel {
            width: self.width,
            height: self.height,
            max_view_width: self.max_view_width,
            max_view_height: self.max_view_height,
            configured: self.configured,
        }
    }
}

impl SurfaceState {
    /// The surface of a freshly created window of `width` x `height`. An edge
    /// of zero is raised to one so that the first configuration is valid;
    /// the window size is not yet clamped to the device.
    pub fn new(width: u32, height: u32, max_view_width: u32, max_view_height: u32, configured: bool) -> (s: Self)
        ensures
            s@ == (SurfaceModel {
                width: if width == 0 { 1 } else { width },
                height: if height == 0 { 1 } else { height },
                max_view_width,
                max_view_height,
                configured,
            }),
    {
        SurfaceState {
            width: if width == 0 { 1 } else { width },
            height: if height == 0 { 1 } else { height },
            max_view_width,
            max_view_height,
            configured,
        }
    }

    /// Adopts a new window size. Returns whether the surface has to be
    /// configured again (and its depth and multisample targets recreated):
    /// exactly when both edges are positive.
    pub fn resize(&mut self, width: u32, height: u32) -> (reconfigure: bool)
        ensures
            reconfigure == (width > 0 && height > 0),
            final(self)@ == old(self)@.after_resize(width, height),
    {
        if width > 0 && height > 0 {
            let w = if width <= MAX_SURFACE_DIMENSION { width } else { MAX_SURFACE_DIMENSION };
            let h = if height <= MAX_SURFACE_DIMENSION { height } else { MAX_SURFACE_DIMENSION };
            self.width = if w <= self.max_view_width { w } else { self.max_view_width };
            self.height = if h <= self.max_view_height { h } else { self.max_view_height };
            self.configured = true;
            true
        } else {
            false
        }
    }

    /// Whether a frame may be drawn: only once the surface is configured.
    pub fn can_render(&self) -> (b: bool)
        ensures
            b == self@.configured,
    {
        self.configured
    }

    /// The configured width.
    pub fn width(&self) -> (w: u32)
        ensures
            w == self@.width,
    {
        self.width
    }

    /// The configured height.
    pub fn height(&self) -> (h: u32)
        ensures
            h == self@.height,
    {
        self.height
    }
}

/// A resize never asks for more than the fixed limit or than the device can
/// present, and, on a device that can present anything at all, never for an
/// empty surface.
pub proof fn lemma_resize_stays_within_limits(s: SurfaceModel, width: u32, height: u32)
    requires
        width > 0 && height > 0,
    ensures
        s.after_resize(width, height).width <= MAX_SURFACE_DIMENSION,
        s.after_resize(width, height).height <= MAX_SURFACE_DIMENSION,
        s.after_resize(width, height).width <= s.max_view_width,
        s.after_resize(width, height).height <= s.max_view_height,
        s.max_view_width > 0 ==> s.after_resize(width, height).width > 0,
        s.max_view_height > 0 ==> s.after_resize(width, height).height > 0,
        s.after_resize(width, height).configured,
{
}

/// Reporting the same size twice is the same as reporting it once, and the
/// last size reported decides: the surface keeps no memory of earlier sizes.
pub proof fn lemma_resize_is_idempotent(s: SurfaceModel, w1: u32, h1: u32, w2: u32, h2: u32)
    ensures
        s.after_resize(w1, h1).after_resize(w1, h1) == s.after_resize(w1, h1),
        (w2 > 0 && h2 > 0) ==> s.after_resize(w1, h1).after_resize(w2, h2) == s.after_resize(
            w2,
            h2,
        ).after_resize(w2, h2),
        s.after_resize(w1, h1).max_view_width == s.max_view_width,
        s.after_resize(w1, h1).max_view_height == s.max_view_height,
{
}

/// A size that already fits is taken as it is.
pub proof fn lemma_fitting_size_is_kept(s: SurfaceModel, width: u32, height: u32)
    requires
        0 < width <= MAX_SURFACE_DIMENSION,
        0 < height <= MAX_SURFACE_DIMENSION,
        width <= s.max_view_width,
        height <= s.max_view_height,
    ensures
        s.after_resize(width, height).width == width,
        s.after_resize(width, height).height == height,
{
}

/// A size with a zero edge changes nothing, so a minimised window keeps its
/// last configuration.
pub proof fn lemma_empty_size_changes_nothing(s: SurfaceModel, width: u32, height: u32)
    requires
        width == 0 || height == 0,
    ensures
        s.after_resize(width, height) == s,
{
}

} // verus!
