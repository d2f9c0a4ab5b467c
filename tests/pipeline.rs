use ztron_pdf::encode::{encode_page, encode_pages};
use ztron_pdf::error::RenderError;
use ztron_pdf::format::{parse_format, OutputFormat};
use ztron_pdf::page::RgbRaster;
use ztron_pdf::params::{validate_max_edge_size, validate_quality, PageRotation, RenderConfig};
use ztron_pdf::pipeline::compress_pdf;
use ztron_pdf::render::accept_rendered_page;
use pdfium_render::prelude::PdfiumError;

fn gradient(width: u32, height: u32) -> RgbRaster {
    let mut pixels = Vec::new();
    for y in 0..height {
        for x in 0..width {
            pixels.push((x * 255 / width.max(1)) as u8);
            pixels.push((y * 255 / height.max(1)) as u8);
            pixels.push(((x + y) % 256) as u8);
        }
    }
    RgbRaster { width, height, pixels }
}

fn noisy(width: u32, height: u32) -> RgbRaster {
    let mut pixels = Vec::new();
    let mut state: u32 = 12345;
    for _ in 0..(width * height * 3) {
        state = state.wrapping_mul(1103515245).wrapping_add(12345);
        pixels.push((state >> 16) as u8);
    }
    RgbRaster { width, height, pixels }
}

fn empty() -> RgbRaster {
    RgbRaster { width: 0, height: 0, pixels: Vec::new() }
}

#[test]
fn quality_outside_range_is_rejected() {
    assert_eq!(validate_quality(0), Err(RenderError::InvalidQuality { quality: 0 }));
    assert_eq!(validate_quality(101), Err(RenderError::InvalidQuality { quality: 101 }));
    assert_eq!(validate_quality(255), Err(RenderError::InvalidQuality { quality: 255 }));
    assert_eq!(validate_quality(1), Ok(()));
    assert_eq!(validate_quality(100), Ok(()));
}

#[test]
fn max_edge_size_outside_range_is_rejected() {
    assert_eq!(
        validate_max_edge_size(0),
        Err(RenderError::InvalidMaxEdgeSize { max_edge_size: 0 })
    );
    assert_eq!(
        validate_max_edge_size(10001),
        Err(RenderError::InvalidMaxEdgeSize { max_edge_size: 10001 })
    );
    assert_eq!(validate_max_edge_size(1), Ok(()));
    assert_eq!(validate_max_edge_size(10000), Ok(()));
}

#[test]
fn validation_errors_are_told_apart() {
    assert!(RenderError::InvalidQuality { quality: 0 }.is_validation_error());
    assert!(RenderError::UnsupportedFormat.is_validation_error());
    assert!(!RenderError::PageRender { page_index: 2 }.is_validation_error());
    assert!(!RenderError::DocumentLoad.is_validation_error());
}

#[test]
fn format_names_parse_in_any_case() {
    assert_eq!(parse_format("JPEG"), Ok(OutputFormat::Jpeg));
    assert_eq!(parse_format("jpeg"), Ok(OutputFormat::Jpeg));
    assert_eq!(parse_format("Png"), Ok(OutputFormat::Png));
    assert_eq!(parse_format("webP"), Ok(OutputFormat::Webp));
    assert_eq!(parse_format("WEBP"), Ok(OutputFormat::Webp));
}

#[test]
fn unknown_format_names_are_rejected() {
    assert_eq!(parse_format("gif"), Err(RenderError::UnsupportedFormat));
    assert_eq!(parse_format(""), Err(RenderError::UnsupportedFormat));
    assert_eq!(parse_format("JPEG "), Err(RenderError::UnsupportedFormat));
    assert_eq!(parse_format("JPG"), Err(RenderError::UnsupportedFormat));
    assert_eq!(parse_format("pngg"), Err(RenderError::UnsupportedFormat));
}

#[test]
fn render_config_bounds_both_edges() {
    let config = RenderConfig::for_max_edge(100);
    assert_eq!(config.max_width, 100);
    assert_eq!(config.max_height, 100);
    assert_eq!(config.landscape_rotation, PageRotation::Degrees90);
    assert!(config.rotate_bounds_with_page);
    assert!(config.render_form_data);
    assert!(!config.grayscale);
    assert!(config.admits_size(100, 80));
    assert!(!config.admits_size(101, 80));
    assert!(!config.admits_size(80, 101));
}

#[test]
fn png_page_is_a_png_file_of_the_raster_size() {
    let page = encode_page(&gradient(7, 5), OutputFormat::Png, 75, 0).unwrap();
    assert_eq!(&page.image_buffer[..8], &[0x89, b'P', b'N', b'G', 0x0D, 0x0A, 0x1A, 0x0A]);
    assert_eq!(page.width, 7);
    assert_eq!(page.height, 5);
    assert_eq!(page.longest_edge(), 7);
}

#[test]
fn png_round_trip_keeps_dimensions_within_bound() {
    let max_edge: u32 = 40;
    let raster = gradient(40, 25);
    let page = encode_page(&raster, OutputFormat::Png, 75, 0).unwrap();
    let decoded = image::load_from_memory(&page.image_buffer).unwrap();
    assert_eq!(decoded.width(), 40);
    assert_eq!(decoded.height(), 25);
    assert!(decoded.width().max(decoded.height()) <= max_edge);
    assert_eq!(decoded.to_rgb8().into_raw(), raster.pixels);
}

#[test]
fn png_quality_has_no_effect() {
    let raster = gradient(16, 9);
    let low = encode_page(&raster, OutputFormat::Png, 10, 0).unwrap();
    let high = encode_page(&raster, OutputFormat::Png, 90, 0).unwrap();
    assert_eq!(low.image_buffer, high.image_buffer);
}

#[test]
fn jpeg_page_is_a_jpeg_file() {
    let page = encode_page(&gradient(9, 4), OutputFormat::Jpeg, 75, 0).unwrap();
    assert_eq!(&page.image_buffer[..2], &[0xFF, 0xD8]);
    assert_eq!((page.width, page.height), (9, 4));
}

#[test]
fn jpeg_size_does_not_grow_as_quality_falls() {
    let raster = noisy(64, 64);
    let mut previous = usize::MAX;
    for quality in [95u8, 75, 50, 20, 5] {
        let page = encode_page(&raster, OutputFormat::Jpeg, quality, 0).unwrap();
        assert!(page.image_buffer.len() <= previous);
        previous = page.image_buffer.len();
    }
}

#[test]
fn webp_page_is_a_webp_file() {
    let page = encode_page(&gradient(12, 10), OutputFormat::Webp, 75, 0).unwrap();
    assert_eq!(&page.image_buffer[..4], b"RIFF");
    assert_eq!(&page.image_buffer[8..12], b"WEBP");
    assert_eq!((page.width, page.height), (12, 10));
}

#[test]
fn encoding_twice_gives_the_same_bytes() {
    let rasters = vec![gradient(10, 20), noisy(8, 8)];
    for format in [OutputFormat::Jpeg, OutputFormat::Png, OutputFormat::Webp] {
        let first = encode_pages(&rasters, format, 60).unwrap();
        let second = encode_pages(&rasters, format, 60).unwrap();
        assert_eq!(first.len(), second.len());
        for (a, b) in first.iter().zip(second.iter()) {
            assert_eq!(a.image_buffer, b.image_buffer);
        }
    }
}

#[test]
fn empty_raster_has_no_encoder() {
    for format in [OutputFormat::Jpeg, OutputFormat::Png, OutputFormat::Webp] {
        let r = encode_page(&empty(), format, 75, 4);
        assert!(matches!(r, Err(RenderError::EncoderInit { page_index: 4 })));
    }
}

#[test]
fn pages_keep_document_order() {
    let rasters: Vec<RgbRaster> = (1..=5).map(|n| gradient(10 * n, 3 * n)).collect();
    let pages = encode_pages(&rasters, OutputFormat::Png, 75).unwrap();
    assert_eq!(pages.len(), 5);
    for (i, page) in pages.iter().enumerate() {
        let n = (i + 1) as u32;
        assert_eq!((page.width, page.height), (10 * n, 3 * n));
        let decoded = image::load_from_memory(&page.image_buffer).unwrap();
        assert_eq!(decoded.to_rgb8().into_raw(), rasters[i].pixels);
    }
}

#[test]
fn failing_third_page_fails_the_whole_call() {
    let rasters = vec![gradient(5, 5), gradient(6, 6), empty(), gradient(8, 8), gradient(9, 9)];
    let r = encode_pages(&rasters, OutputFormat::Webp, 75);
    assert!(matches!(r, Err(RenderError::EncoderInit { page_index: 2 })));
}

#[test]
fn five_webp_pages_within_edge_bound() {
    let rasters: Vec<RgbRaster> = vec![
        gradient(77, 100),
        gradient(100, 77),
        gradient(100, 100),
        gradient(1, 1),
        gradient(64, 99),
    ];
    let pages = encode_pages(&rasters, OutputFormat::Webp, 75).unwrap();
    assert_eq!(pages.len(), 5);
    for page in &pages {
        assert!(page.longest_edge() <= 100);
        assert_eq!(&page.image_buffer[..4], b"RIFF");
    }
}

#[test]
fn no_pages_give_no_results() {
    let pages = encode_pages(&Vec::new(), OutputFormat::Jpeg, 75).unwrap();
    assert!(pages.is_empty());
}

#[test]
fn compress_pdf_hands_the_payload_back() {
    let payload = "JVBERi0xLjQKJcfsj6IKNSAwIG9iago8PC9MZW5ndGggNiAwIFI+PgpzdHJlYW0K";
    assert_eq!(compress_pdf(payload, 75), Ok(payload.to_string()));
    assert_eq!(compress_pdf(payload, 100), Ok(payload.to_string()));
    assert_eq!(compress_pdf("", 1), Ok(String::new()));
}

#[test]
fn compress_pdf_rejects_bad_quality() {
    assert_eq!(compress_pdf("abc", 0), Err(RenderError::InvalidQuality { quality: 0 }));
    assert_eq!(compress_pdf("abc", 101), Err(RenderError::InvalidQuality { quality: 101 }));
}

#[test]
fn engine_failure_on_third_page_names_that_page() {
    let config = RenderConfig::for_max_edge(100);
    let r = accept_rendered_page(2, Err(PdfiumError::PageIndexOutOfBounds), &config);
    assert!(matches!(r, Err(RenderError::PageRender { page_index: 2 })));
}

#[test]
fn oversized_page_is_refused() {
    let config = RenderConfig::for_max_edge(100);
    let r = accept_rendered_page(0, Ok(gradient(101, 50)), &config);
    assert!(matches!(r, Err(RenderError::PageRender { page_index: 0 })));
    let r = accept_rendered_page(3, Ok(gradient(50, 101)), &config);
    assert!(matches!(r, Err(RenderError::PageRender { page_index: 3 })));
}

#[test]
fn page_within_bounds_is_kept() {
    let config = RenderConfig::for_max_edge(100);
    let raster = gradient(100, 77);
    let kept = accept_rendered_page(1, Ok(raster.clone()), &config).unwrap();
    assert_eq!((kept.width, kept.height), (100, 77));
    assert_eq!(kept.pixels, raster.pixels);
}

#[test]
fn webp_refuses_rasters_beyond_its_largest_dimension() {
    let wide = gradient(16384, 1);
    let r = encode_page(&wide, OutputFormat::Webp, 75, 6);
    assert!(matches!(r, Err(RenderError::Encode { page_index: 6 })));
    let tall = gradient(1, 16384);
    let r = encode_page(&tall, OutputFormat::Webp, 75, 1);
    assert!(matches!(r, Err(RenderError::Encode { page_index: 1 })));
    let widest = gradient(16383, 1);
    assert!(encode_page(&widest, OutputFormat::Webp, 75, 0).is_ok());
    assert!(encode_page(&wide, OutputFormat::Png, 75, 0).is_ok());
}
