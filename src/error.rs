use vstd::prelude::*;

verus! {

/// Every way a rendering call can fail. Each variant names the stage that
/// failed and, where one page is to blame, that page's 0-based index.
#[derive(Debug, Clone, Copy, PartialEq, Eq, Structural)]
pub enum RenderError {
    /// The quality is outside `1..=100`.
    InvalidQuality { quality: u8 },
    /// The maximum edge size is outside `1..=10000`.
    InvalidMaxEdgeSize { max_edge_size: u32 },
    /// The requested output format is not one of JPEG, PNG or WEBP.
    UnsupportedFormat,
    /// The payload could not be opened as a PDF document.
    DocumentLoad,
    /// The engine could not rasterize this page.
    PageRender { page_index: usize },
    /// No encoder could be set up for this page's pixels (an empty raster).
    EncoderInit { page_index: usize },
    /// The encoder ran on this page's pixels and gave no image.
    Encode { page_index: usize },
}

impl RenderError {
    /// True for the errors that reject the caller's parameters.
    pub open spec fn is_validation(self) -> bool {
        ||| self is InvalidQuality
        ||| self is InvalidMaxEdgeSize
        ||| self is UnsupportedFormat
    }

    /// True for the errors that blame one page, and that page's index is below `n`.
    pub open spec fn blames_page_below(self, n: int) -> bool {
        match self {
            RenderError::PageRender { page_index } => page_index < n,
            RenderError::EncoderInit { page_index } => page_index < n,
            RenderError::Encode { page_index } => page_index < n,
            _ => false,
        }
    }

    /// Whether this error rejects the caller's parameters rather than the
    /// document or one of its pages.
    pub fn is_validation_error(&self) -> (r: bool)
        ensures
            r == self.is_validation(),
    {
        match self {
            RenderError::InvalidQuality { .. } => true,
            RenderError::InvalidMaxEdgeSize { .. } => true,
            RenderError::UnsupportedFormat => true,
            _ => false,
        }
    }
}

} // verus!
