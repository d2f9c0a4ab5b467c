use vstd::prelude::*;
use vstd::string::StringSliceAdditionalSpecFns;
use pdfium_render::prelude::{PdfDocument, Pdfium};
use crate::encode::{encode_pages, page_outcome};
use crate::error::RenderError;
use crate::format::{format_named, parse_format, OutputFormat};
use crate::page::{PageData, PageImage, RgbRaster};
use crate::params::{
    max_edge_size_ok, quality_ok, validate_max_edge_size, validate_quality, RenderConfig,
    MAX_EDGE_SIZE_LIMIT,
};
use crate::render::{engine_config, load_document, page_count, page_total, rasterize_pages};

verus! {

/// What every page of a successful call satisfies: it is the encoding, in
/// `format` at `quality`, of some well-formed raster whose edges are both
/// within `max_edge_size`.
pub open spec fn rendered_page(page: PageImage, format: OutputFormat, quality: u8, max_edge_size: u32, index: int) -> bool {
    &&& 0 < page.width <= max_edge_size
    &&& 0 < page.height <= max_edge_size
    &&& exists|raster: RgbRaster| raster.wf() && Ok::<PageImage, RenderError>(page) == page_outcome(raster, format, quality, index)
}

/// The errors that can follow once the parameters have been accepted.
pub open spec fn pipeline_error(e: RenderError) -> bool {
    ||| e == RenderError::DocumentLoad
    ||| e is PageRender
    ||| e is EncoderInit
    ||| e is Encode
}

/// Rasterizes pages `0..count` of an open document and encodes them in
/// `format` at `quality`, each edge at most `max_edge_size` pixels and
/// landscape pages turned to portrait. All or nothing: either one page comes
/// back for each of the `count` pages, page `i` at position `i`, or the call
/// fails with the first failure, which names a page below `count`.
pub fn render_document_pages(
    document: &PdfDocument,
    count: i32,
    format: OutputFormat,
    quality: u8,
    max_edge_size: u32,
) -> (r: Result<Vec<PageData>, RenderError>)
    requires
        max_edge_size_ok(max_edge_size),
    ensures
        r matches Ok(pages) ==> {
            &&& pages@.len() == page_total(count)
            &&& forall|i: int| 0 <= i < pages@.len() ==>
                rendered_page((#[trigger] pages@[i])@, format, quality, max_edge_size, i)
        },
        r matches Err(e) ==> e.blames_page_below(page_total(count)),
{
    let config = RenderConfig::for_max_edge(max_edge_size);
    let settings = engine_config(&config);
    let rasters = match rasterize_pages(document, count, &settings, &config) {
        Ok(rasters) => rasters,
        Err(e) => return Err(e),
    };
    match encode_pages(&rasters, format, quality) {
        Ok(pages) => {
            assert forall|i: int| 0 <= i < pages@.len() implies
                rendered_page((#[trigger] pages@[i])@, format, quality, max_edge_size, i) by {
                assert(Ok::<PageImage, RenderError>(pages@[i]@) == page_outcome(rasters@[i], format, quality, i));
                assert(rasters@[i].wf());
            }
            Ok(pages)
        },
        Err(e) => {
            assert(e.blames_page_below(page_total(count))) by {
                let i = choose|i: int| 0 <= i < rasters@.len() && {
                    &&& page_outcome(rasters@[i], format, quality, i) == Err::<PageImage, RenderError>(e)
                    &&& forall|j: int| 0 <= j < i ==> (#[trigger] page_outcome(rasters@[j], format, quality, j)) is Ok
                };
            }
            Err(e)
        },
    }
}

/// Opens `pdf_bytes` and renders all the pages that the engine reports.
fn render_document(
    pdfium: &Pdfium,
    pdf_bytes: &[u8],
    format: OutputFormat,
    quality: u8,
    max_edge_size: u32,
) -> (r: Result<Vec<PageData>, RenderError>)
    requires
        max_edge_size_ok(max_edge_size),
    ensures
        r matches Ok(pages) ==> forall|i: int| 0 <= i < pages@.len() ==>
            rendered_page((#[trigger] pages@[i])@, format, quality, max_edge_size, i),
        r matches Err(e) ==> pipeline_error(e),
{
    let document = match load_document(pdfium, pdf_bytes) {
        Ok(d) => d,
        Err(_) => return Err(RenderError::DocumentLoad),
    };
    let count = page_count(&document);
    render_document_pages(&document, count, format, quality, max_edge_size)
}

/// Renders every page of the PDF in `pdf_bytes` as an image in `format`
/// (`JPEG`, `PNG` or `WEBP`, in any ASCII case), at `quality` in `1..=100`,
/// each edge at most `max_edge_size` pixels (`1..=10000`) and landscape pages
/// turned to portrait. The parameters are checked, in that order, before the
/// document is opened. All or nothing: either every page comes back, in
/// document order, or the first failure does.
pub fn render_pages(
    pdfium: &Pdfium,
    pdf_bytes: &[u8],
    format: &str,
    quality: u8,
    max_edge_size: u32,
) -> (r: Result<Vec<PageData>, RenderError>)
    ensures
        !quality_ok(quality) ==> r == Err::<Vec<PageData>, RenderError>(
            RenderError::InvalidQuality { quality },
        ),
        quality_ok(quality) && !max_edge_size_ok(max_edge_size) ==> r == Err::<Vec<PageData>, RenderError>(
            RenderError::InvalidMaxEdgeSize { max_edge_size },
        ),
        quality_ok(quality) && max_edge_size_ok(max_edge_size) && format_named(format.spec_bytes()) is None
            ==> r == Err::<Vec<PageData>, RenderError>(RenderError::UnsupportedFormat),
        r matches Ok(pages) ==> {
            &&& format_named(format.spec_bytes()) is Some
            &&& forall|i: int| 0 <= i < pages@.len() ==> rendered_page(
                (#[trigger] pages@[i])@,
                format_named(format.spec_bytes())->Some_0,
                quality,
                max_edge_size,
                i,
            )
        },
        quality_ok(quality) && max_edge_size_ok(max_edge_size) && format_named(format.spec_bytes()) is Some
            ==> (r matches Err(e) ==> pipeline_error(e)),
{
    if let Err(e) = validate_quality(quality) {
        return Err(e);
    }
    if let Err(e) = validate_max_edge_size(max_edge_size) {
        return Err(e);
    }
    let format = match parse_format(format) {
        Ok(f) => f,
        Err(e) => return Err(e),
    };
    render_document(pdfium, pdf_bytes, format, quality, max_edge_size)
}

/// Renders every page of the PDF in `pdf_bytes` as a lossy WebP image at
/// `quality` in `1..=100`, each edge at most 10000 pixels; otherwise as
/// [`render_pages`].
pub fn render_base64_pdf(pdfium: &Pdfium, pdf_bytes: &Vec<u8>, quality: u8) -> (r: Result<Vec<PageData>, RenderError>)
    ensures
        !quality_ok(quality) ==> r == Err::<Vec<PageData>, RenderError>(
            RenderError::InvalidQuality { quality },
        ),
        r matches Ok(pages) ==> forall|i: int| 0 <= i < pages@.len() ==> rendered_page(
            (#[trigger] pages@[i])@,
            OutputFormat::Webp,
            quality,
            MAX_EDGE_SIZE_LIMIT,
            i,
        ),
        quality_ok(quality) ==> (r matches Err(e) ==> pipeline_error(e)),
{
    if let Err(e) = validate_quality(quality) {
        return Err(e);
    }
    render_document(pdfium, pdf_bytes.as_slice(), OutputFormat::Webp, quality, MAX_EDGE_SIZE_LIMIT)
}

/// Checks `quality` (`1..=100`) and hands the base64 text of the PDF back
/// unchanged: the document's embedded images are not re-encoded.
pub fn compress_pdf(base64_pdf: &str, quality: u8) -> (r: Result<String, RenderError>)
    ensures
        r is Ok <==> quality_ok(quality),
        r matches Ok(s) ==> s@ == base64_pdf@,
        r matches Err(e) ==> e == (RenderError::InvalidQuality { quality }),
{
    match validate_quality(quality) {
        Ok(()) => Ok(base64_pdf.to_owned()),
        Err(e) => Err(e),
    }
}

} // verus!
