use vstd::prelude::*;
use crate::error::RenderError;

verus! {

/// Lowest accepted quality.
pub const MIN_QUALITY: u8 = 1;

/// Highest accepted quality.
pub const MAX_QUALITY: u8 = 100;

/// Largest accepted bound on a rendered image's longer edge, in pixels.
pub const MAX_EDGE_SIZE_LIMIT: u32 = 10000;

pub open spec fn quality_ok(quality: u8) -> bool {
    MIN_QUALITY <= quality <= MAX_QUALITY
}

pub open spec fn max_edge_size_ok(max_edge_size: u32) -> bool {
    1 <= max_edge_size <= MAX_EDGE_SIZE_LIMIT
}

/// Accepts a quality in `1..=100`.
pub fn validate_quality(quality: u8) -> (r: Result<(), RenderError>)
    ensures
        r is Ok <==> quality_ok(quality),
        r is Err ==> r == Err::<(), RenderError>(RenderError::InvalidQuality { quality }),
{
    if quality < MIN_QUALITY || quality > MAX_QUALITY {
        Err(RenderError::InvalidQuality { quality })
    } else {
        Ok(())
    }
}

/// Accepts a maximum edge size in `1..=10000`.
pub fn validate_max_edge_size(max_edge_size: u32) -> (r: Result<(), RenderError>)
    ensures
        r is Ok <==> max_edge_size_ok(max_edge_size),
        r is Err ==> r == Err::<(), RenderError>(
            RenderError::InvalidMaxEdgeSize { max_edge_size },
        ),
{
    if max_edge_size == 0 || max_edge_size > MAX_EDGE_SIZE_LIMIT {
        Err(RenderError::InvalidMaxEdgeSize { max_edge_size })
    } else {
        Ok(())
    }
}

/// A turn of the page, clockwise.
#[derive(Debug, Clone, Copy, PartialEq, Eq, Structural)]
pub enum PageRotation {
    Degrees0,
    Degrees90,
    Degrees180,
    Degrees270,
}

/// How one page is to be rasterized. Built once per call and shared by every
/// page: the bounds are the same for all pages of a document.
#[derive(Debug, Clone, Copy, PartialEq, Eq, Structural)]
pub struct RenderConfig {
    /// Largest width of a rendered page, in pixels.
    pub max_width: u32,
    /// Largest height of a rendered page, in pixels.
    pub max_height: u32,
    /// The turn given to a landscape page; a quarter turn makes every page
    /// come out portrait.
    pub landscape_rotation: PageRotation,
    /// Whether, on a landscape page turned by a quarter, the width bound
    /// applies to the turned height and the other way round.
    pub rotate_bounds_with_page: bool,
    /// Render the contents of form fields.
    pub render_form_data: bool,
    /// Render in shades of grey instead of full colour.
    pub grayscale: bool,
}

impl RenderConfig {
    /// A configuration is well formed when both bounds lie in `1..=10000`,
    /// landscape pages are turned by a quarter, forms are rendered and colour
    /// is kept.
    pub open spec fn wf(self) -> bool {
        &&& max_edge_size_ok(self.max_width)
        &&& max_edge_size_ok(self.max_height)
        &&& self.landscape_rotation == PageRotation::Degrees90
        &&& self.render_form_data
        &&& !self.grayscale
    }

    /// The configuration for a call that bounds both edges by `max_edge_size`.
    pub fn for_max_edge(max_edge_size: u32) -> (r: RenderConfig)
        requires
            max_edge_size_ok(max_edge_size),
        ensures
            r.wf(),
            r.max_width == max_edge_size,
            r.max_height == max_edge_size,
            r.rotate_bounds_with_page,
    {
        RenderConfig {
            max_width: max_edge_size,
            max_height: max_edge_size,
            landscape_rotation: PageRotation::Degrees90,
            rotate_bounds_with_page: true,
            render_form_data: true,
            grayscale: false,
        }
    }

    /// Whether a raster of `width` by `height` pixels keeps within the bounds.
    pub open spec fn admits(self, width: u32, height: u32) -> bool {
        width <= self.max_width && height <= self.max_height
    }

    /// Tests `admits`.
    pub fn admits_size(&self, width: u32, height: u32) -> (r: bool)
        ensures
            r == self.admits(width, height),
    {
        width <= self.max_width && height <= self.max_height
    }
}

} // verus!
