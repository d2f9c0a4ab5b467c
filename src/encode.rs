use vstd::prelude::*;
use crate::error::RenderError;
use crate::format::OutputFormat;
use crate::page::{PageData, PageImage, RgbRaster};

verus! {

/// The JPEG file that image's encoder makes of RGB pixels at a quality, or
/// `None` where it refuses them.
pub uninterp spec fn jpeg_encoding(pixels: Seq<u8>, width: u32, height: u32, quality: u8) -> Option<Seq<u8>>;

/// The PNG file that image's encoder makes of RGB pixels, or `None` where it
/// refuses them.
pub uninterp spec fn png_encoding(pixels: Seq<u8>, width: u32, height: u32) -> Option<Seq<u8>>;

/// The lossy WebP file that libwebp makes of RGB pixels at a quality, or
/// `None` where it refuses them.
pub uninterp spec fn webp_encoding(pixels: Seq<u8>, width: u32, height: u32, quality: u8) -> Option<Seq<u8>>;

/// libwebp's largest width or height, in pixels.
pub const WEBP_MAX_DIMENSION: u32 = 16383;

#[verifier::external_type_specification]
#[verifier::external_body]
pub struct ExImageError(image::ImageError);

#[verifier::external_type_specification]
#[verifier::external_body]
pub struct ExWebPEncodingError(webp::WebPEncodingError);

/// Relies on image's `JpegEncoder::new_with_quality` and `JpegEncoder::encode`
/// (RGB8): a JPEG file that depends on the pixels, the size and the quality
/// alone. `encode` panics unless the buffer holds exactly three bytes a pixel.
#[verifier::external_body]
fn encode_jpeg(pixels: &[u8], width: u32, height: u32, quality: u8) -> (r: Result<Vec<u8>, image::ImageError>)
    requires
        pixels@.len() == 3 * width * height,
    ensures
        match jpeg_encoding(pixels@, width, height, quality) {
            Some(b) => r is Ok && r->Ok_0@ == b,
            None => r is Err,
        },
{
    let mut out = Vec::new();
    image::codecs::jpeg::JpegEncoder::new_with_quality(&mut out, quality)
        .encode(pixels, width, height, image::ExtendedColorType::Rgb8)
        .map(|_| out)
}

/// Relies on image's `PngEncoder::new` and `ImageEncoder::write_image` (RGB8):
/// a PNG file that depends on the pixels and the size alone. `write_image`
/// panics unless the buffer holds exactly three bytes a pixel.
#[verifier::external_body]
fn encode_png(pixels: &[u8], width: u32, height: u32) -> (r: Result<Vec<u8>, image::ImageError>)
    requires
        pixels@.len() == 3 * width * height,
    ensures
        match png_encoding(pixels@, width, height) {
            Some(b) => r is Ok && r->Ok_0@ == b,
            None => r is Err,
        },
{
    let mut out = Vec::new();
    let encoder = image::codecs::png::PngEncoder::new(&mut out);
    image::ImageEncoder::write_image(encoder, pixels, width, height, image::ExtendedColorType::Rgb8)
        .map(|_| out)
}

/// Relies on webp's `Encoder::from_rgb` and `Encoder::encode_simple` (lossy):
/// a WebP file that depends on the pixels, the size and the quality alone,
/// the quality widened to libwebp's 0-100 scale. `from_rgb` panics on a
/// buffer shorter than three bytes a pixel, and the row stride is an `i32`
/// product that a width beyond libwebp's largest dimension can overflow.
#[verifier::external_body]
fn encode_webp(pixels: &[u8], width: u32, height: u32, quality: u8) -> (r: Result<Vec<u8>, webp::WebPEncodingError>)
    requires
        pixels@.len() == 3 * width * height,
        0 < width <= WEBP_MAX_DIMENSION,
        0 < height <= WEBP_MAX_DIMENSION,
    ensures
        match webp_encoding(pixels@, width, height, quality) {
            Some(b) => r is Ok && r->Ok_0@ == b,
            None => r is Err,
        },
{
    webp::Encoder::from_rgb(pixels, width, height)
        .encode_simple(false, quality.into())
        .map(|memory| memory.to_vec())
}

/// What the encoder chosen for `format` makes of the pixels. PNG is lossless:
/// the quality plays no part in it.
pub open spec fn encoding_of(format: OutputFormat, pixels: Seq<u8>, width: u32, height: u32, quality: u8) -> Option<Seq<u8>> {
    match format {
        OutputFormat::Jpeg => jpeg_encoding(pixels, width, height, quality),
        OutputFormat::Png => png_encoding(pixels, width, height),
        OutputFormat::Webp => webp_encoding(pixels, width, height, quality),
    }
}

/// Whether the encoder for `format` takes a raster of this size at all:
/// WebP has a largest dimension, the others leave it to the encoder.
pub open spec fn size_encodable(format: OutputFormat, width: u32, height: u32) -> bool {
    format == OutputFormat::Webp ==> width <= WEBP_MAX_DIMENSION && height <= WEBP_MAX_DIMENSION
}

/// The outcome of encoding page `index` from its raster: an empty raster has
/// no encoder, a raster too large for the format or refused by the encoder is
/// an encoding failure, and otherwise the page is the encoder's file at the
/// raster's size.
pub open spec fn page_outcome(raster: RgbRaster, format: OutputFormat, quality: u8, index: int) -> Result<PageImage, RenderError> {
    if raster.width == 0 || raster.height == 0 {
        Err(RenderError::EncoderInit { page_index: index as usize })
    } else if !size_encodable(format, raster.width, raster.height) {
        Err(RenderError::Encode { page_index: index as usize })
    } else {
        match encoding_of(format, raster.pixels@, raster.width, raster.height, quality) {
            Some(b) => Ok(PageImage { bytes: b, width: raster.width, height: raster.height }),
            None => Err(RenderError::Encode { page_index: index as usize }),
        }
    }
}

/// The mathematical content of an encoding result.
pub open spec fn outcome_view(r: Result<PageData, RenderError>) -> Result<PageImage, RenderError> {
    match r {
        Ok(p) => Ok(p@),
        Err(e) => Err(e),
    }
}

/// Whether every page of `rasters` encodes.
pub open spec fn all_pages_encode(rasters: Seq<RgbRaster>, format: OutputFormat, quality: u8) -> bool {
    forall|i: int| 0 <= i < rasters.len() ==> (#[trigger] page_outcome(rasters[i], format, quality, i)) is Ok
}

/// Whether `e` is the error of the first page of `rasters` that does not encode.
pub open spec fn first_page_error(rasters: Seq<RgbRaster>, format: OutputFormat, quality: u8, e: RenderError) -> bool {
    exists|i: int| 0 <= i < rasters.len() && {
        &&& page_outcome(rasters[i], format, quality, i) == Err::<PageImage, RenderError>(e)
        &&& forall|j: int| 0 <= j < i ==> (#[trigger] page_outcome(rasters[j], format, quality, j)) is Ok
    }
}

/// Encodes one page's raster in `format`; `index` is the page's place in the
/// document, reported with any failure.
pub fn encode_page(raster: &RgbRaster, format: OutputFormat, quality: u8, index: usize) -> (r: Result<PageData, RenderError>)
    requires
        raster.wf(),
    ensures
        outcome_view(r) == page_outcome(*raster, format, quality, index as int),
{
    if raster.width == 0 || raster.height == 0 {
        return Err(RenderError::EncoderInit { page_index: index });
    }
    if format == OutputFormat::Webp && (raster.width > WEBP_MAX_DIMENSION || raster.height > WEBP_MAX_DIMENSION) {
        return Err(RenderError::Encode { page_index: index });
    }
    let pixels = raster.pixels.as_slice();
    let encoded = match format {
        OutputFormat::Jpeg => match encode_jpeg(pixels, raster.width, raster.height, quality) {
            Ok(b) => Some(b),
            Err(_) => None,
        },
        OutputFormat::Png => match encode_png(pixels, raster.width, raster.height) {
            Ok(b) => Some(b),
            Err(_) => None,
        },
        OutputFormat::Webp => match encode_webp(pixels, raster.width, raster.height, quality) {
            Ok(b) => Some(b),
            Err(_) => None,
        },
    };
    match encoded {
        Some(image_buffer) => Ok(PageData { image_buffer, width: raster.width, height: raster.height }),
        None => Err(RenderError::Encode { page_index: index }),
    }
}

/// Encodes every page in document order. Fails fast: the first page that does
/// not encode ends the call with its error, and no page is returned.
pub fn encode_pages(rasters: &Vec<RgbRaster>, format: OutputFormat, quality: u8) -> (r: Result<Vec<PageData>, RenderError>)
    requires
        forall|i: int| 0 <= i < rasters@.len() ==> (#[trigger] rasters@[i]).wf(),
    ensures
        r is Ok <==> all_pages_encode(rasters@, format, quality),
        r matches Ok(pages) ==> {
            &&& pages@.len() == rasters@.len()
            &&& forall|i: int| 0 <= i < pages@.len() ==>
                Ok::<PageImage, RenderError>((#[trigger] pages@[i])@) == page_outcome(rasters@[i], format, quality, i)
        },
        r matches Err(e) ==> first_page_error(rasters@, format, quality, e),
{
    let mut pages: Vec<PageData> = Vec::new();
    let mut i: usize = 0;
    while i < rasters.len()
        invariant
            i <= rasters@.len(),
            pages@.len() == i,
            forall|k: int| 0 <= k < rasters@.len() ==> (#[trigger] rasters@[k]).wf(),
            forall|j: int| 0 <= j < i ==>
                Ok::<PageImage, RenderError>((#[trigger] pages@[j])@) == page_outcome(rasters@[j], format, quality, j),
        decreases rasters@.len() - i,
    {
        match encode_page(&rasters[i], format, quality, i) {
            Ok(page) => {
                pages.push(page);
            },
            Err(e) => {
                assert(forall|j: int| 0 <= j < i ==> (#[trigger] page_outcome(rasters@[j], format, quality, j)) is Ok) by {
                    assert forall|j: int| 0 <= j < i implies (#[trigger] page_outcome(rasters@[j], format, quality, j)) is Ok by {
                        assert(Ok::<PageImage, RenderError>(pages@[j]@) == page_outcome(rasters@[j], format, quality, j));
                    }
                }
                assert(!all_pages_encode(rasters@, format, quality));
                return Err(e);
            },
        }
        i = i + 1;
    }
    assert(all_pages_encode(rasters@, format, quality)) by {
        assert forall|j: int| 0 <= j < rasters@.len() implies (#[trigger] page_outcome(rasters@[j], format, quality, j)) is Ok by {
            assert(Ok::<PageImage, RenderError>(pages@[j]@) == page_outcome(rasters@[j], format, quality, j));
        }
    }
    Ok(pages)
}

} // verus!

verus! {

/// PNG is lossless: a page encoded as PNG at two different qualities comes
/// out the same, byte for byte, or fails the same way.
pub proof fn lemma_png_ignores_quality(raster: RgbRaster, first: u8, second: u8, index: int)
    ensures
        page_outcome(raster, OutputFormat::Png, first, index) == page_outcome(
            raster,
            OutputFormat::Png,
            second,
            index,
        ),
{
}

/// Encoding is deterministic: two successful encodings of the same rasters in
/// the same format and quality give the same pages, in the same order, byte
/// for byte.
pub proof fn lemma_encoding_is_deterministic(
    rasters: Seq<RgbRaster>,
    format: OutputFormat,
    quality: u8,
    first: Seq<PageImage>,
    second: Seq<PageImage>,
)
    requires
        first.len() == rasters.len(),
        second.len() == rasters.len(),
        forall|i: int| 0 <= i < rasters.len() ==>
            Ok::<PageImage, RenderError>(#[trigger] first[i]) == page_outcome(rasters[i], format, quality, i),
        forall|i: int| 0 <= i < rasters.len() ==>
            Ok::<PageImage, RenderError>(#[trigger] second[i]) == page_outcome(rasters[i], format, quality, i),
    ensures
        first == second,
{
    assert forall|i: int| 0 <= i < first.len() implies first[i] == second[i] by {
        assert(Ok::<PageImage, RenderError>(first[i]) == page_outcome(rasters[i], format, quality, i));
        assert(Ok::<PageImage, RenderError>(second[i]) == page_outcome(rasters[i], format, quality, i));
    }
    assert(first =~= second);
}

} // verus!
