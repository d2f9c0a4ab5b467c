use vstd::prelude::*;
use pdfium_render::prelude::{PdfDocument, PdfPageRenderRotation, PdfRenderConfig, Pdfium, PdfiumError};
use crate::error::RenderError;
use crate::page::RgbRaster;
use crate::params::{PageRotation, RenderConfig};

verus! {

#[verifier::external_type_specification]
#[verifier::external_body]
pub struct ExPdfium(Pdfium);

#[verifier::external_type_specification]
#[verifier::external_body]
pub struct ExPdfDocument<'a>(PdfDocument<'a>);

#[verifier::external_type_specification]
#[verifier::external_body]
pub struct ExPdfRenderConfig(PdfRenderConfig);

#[verifier::external_type_specification]
#[verifier::external_body]
pub struct ExPdfiumError(PdfiumError);

/// Relies on pdfium-render's `Pdfium::load_pdf_from_byte_slice` (no password):
/// whether the bytes open depends on the engine, so nothing is promised.
#[verifier::external_body]
pub(crate) fn load_document<'a>(pdfium: &'a Pdfium, bytes: &'a [u8]) -> (r: Result<PdfDocument<'a>, PdfiumError>) {
    pdfium.load_pdf_from_byte_slice(bytes, None)
}

/// Relies on pdfium-render's `PdfDocument::pages` and `PdfPages::len`: the
/// number of pages the engine reports.
#[verifier::external_body]
pub(crate) fn page_count(document: &PdfDocument) -> (r: i32) {
    document.pages().len()
}

/// Relies on pdfium-render's `PdfRenderConfig` builder (`set_maximum_width`,
/// `set_maximum_height`, `rotate_if_landscape`, `render_form_data`,
/// `use_grayscale_rendering`): the engine's form of `config`, field for field.
#[verifier::external_body]
pub(crate) fn engine_config(config: &RenderConfig) -> (r: PdfRenderConfig)
    requires
        config.wf(),
{
    let rotation = match config.landscape_rotation {
        PageRotation::Degrees0 => PdfPageRenderRotation::None,
        PageRotation::Degrees90 => PdfPageRenderRotation::Degrees90,
        PageRotation::Degrees180 => PdfPageRenderRotation::Degrees180,
        PageRotation::Degrees270 => PdfPageRenderRotation::Degrees270,
    };
    PdfRenderConfig::new()
        .set_maximum_width(config.max_width as i32)
        .set_maximum_height(config.max_height as i32)
        .rotate_if_landscape(rotation, config.rotate_bounds_with_page)
        .render_form_data(config.render_form_data)
        .use_grayscale_rendering(config.grayscale)
}

/// Relies on pdfium-render's `PdfPages::get`, `PdfPage::render_with_config`
/// and `PdfBitmap::as_image`, then image's `DynamicImage::into_rgb8`: an RGB
/// buffer of exactly three bytes a pixel, or the engine's error.
#[verifier::external_body]
fn rasterize_page(document: &PdfDocument, index: i32, settings: &PdfRenderConfig) -> (r: Result<RgbRaster, PdfiumError>)
    ensures
        r matches Ok(raster) ==> raster.wf(),
{
    let image = document.pages().get(index)?.render_with_config(settings)?.as_image()?.into_rgb8();
    Ok(RgbRaster { width: image.width(), height: image.height(), pixels: image.into_raw() })
}

/// Decides on the engine's outcome for page `index`: a page that the engine
/// could not render, or rendered larger than `config` allows, fails with that
/// page's index; any other raster is kept as it came.
pub fn accept_rendered_page(
    index: usize,
    outcome: Result<RgbRaster, PdfiumError>,
    config: &RenderConfig,
) -> (r: Result<RgbRaster, RenderError>)
    ensures
        match outcome {
            Ok(raster) => if config.admits(raster.width, raster.height) {
                r == Ok::<RgbRaster, RenderError>(raster)
            } else {
                r == Err::<RgbRaster, RenderError>(RenderError::PageRender { page_index: index })
            },
            Err(_) => r == Err::<RgbRaster, RenderError>(RenderError::PageRender { page_index: index }),
        },
{
    match outcome {
        Ok(raster) => if config.admits_size(raster.width, raster.height) {
            Ok(raster)
        } else {
            Err(RenderError::PageRender { page_index: index })
        },
        Err(_) => Err(RenderError::PageRender { page_index: index }),
    }
}

/// The number of pages that a reported page count stands for: a negative
/// count is no page.
pub open spec fn page_total(count: i32) -> int {
    if count < 0 {
        0
    } else {
        count as int
    }
}

/// Rasterizes pages `0..count` of `document` in order under `settings`, the
/// engine's form of `config`. Fails fast: the first page that does not
/// rasterize, or comes out larger than `config` allows, ends the call with
/// that page's index, and no raster is returned.
pub fn rasterize_pages(
    document: &PdfDocument,
    count: i32,
    settings: &PdfRenderConfig,
    config: &RenderConfig,
) -> (r: Result<Vec<RgbRaster>, RenderError>)
    ensures
        r matches Ok(rasters) ==> {
            &&& rasters@.len() == page_total(count)
            &&& forall|i: int| 0 <= i < rasters@.len() ==> {
                &&& (#[trigger] rasters@[i]).wf()
                &&& config.admits(rasters@[i].width, rasters@[i].height)
            }
        },
        r matches Err(e) ==> (e matches RenderError::PageRender { page_index } && page_index < count),
{
    let mut rasters: Vec<RgbRaster> = Vec::new();
    let mut index: i32 = 0;
    while index < count
        invariant
            0 <= index,
            count >= 0 ==> index <= count,
            count < 0 ==> index == 0,
            rasters@.len() == index,
            forall|i: int| 0 <= i < rasters@.len() ==> {
                &&& (#[trigger] rasters@[i]).wf()
                &&& config.admits(rasters@[i].width, rasters@[i].height)
            },
        decreases count - index,
    {
        match accept_rendered_page(index as usize, rasterize_page(document, index, settings), config) {
            Ok(raster) => rasters.push(raster),
            Err(e) => return Err(e),
        }
        index = index + 1;
    }
    Ok(rasters)
}

} // verus!
