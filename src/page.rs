use vstd::prelude::*;

verus! {

/// A rasterized page: dense 8-bit RGB pixels, row by row.
#[derive(Debug, Clone)]
pub struct RgbRaster {
    pub width: u32,
    pub height: u32,
    pub pixels: Vec<u8>,
}

impl RgbRaster {
    /// Three bytes per pixel, nothing more and nothing less.
    pub open spec fn wf(&self) -> bool {
        self.pixels@.len() == 3 * self.width * self.height
    }
}

/// The encoded image of one page, as handed to the caller. Its position in
/// the result sequence is the page's index in the document.
#[derive(Debug, Clone)]
pub struct PageData {
    /// The encoded image file.
    pub image_buffer: Vec<u8>,
    /// Width of the encoded image, in pixels.
    pub width: u32,
    /// Height of the encoded image, in pixels.
    pub height: u32,
}

/// The mathematical content of a [`PageData`].
pub ghost struct PageImage {
    pub bytes: Seq<u8>,
    pub width: u32,
    pub height: u32,
}

impl View for PageData {
    type V = PageImage;

    open spec fn view(&self) -> PageImage {
        PageImage { bytes: self.image_buffer@, width: self.width, height: self.height }
    }
}

impl PageData {
    /// The longer of the two edges, in pixels.
    pub fn longest_edge(&self) -> (r: u32)
        ensures
            r == if self.width >= self.height { self.width } else { self.height },
    {
        if self.width >= self.height {
            self.width
        } else {
            self.height
        }
    }
}

} // verus!
