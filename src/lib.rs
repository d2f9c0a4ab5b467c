//! Renders the pages of a PDF document into encoded raster images (JPEG, PNG or
//! WebP), one per page and in page order, with checked parameters and
//! all-or-nothing failure semantics.

pub mod error;
pub mod params;
pub mod format;
pub mod page;
pub mod encode;
pub mod render;
pub mod pipeline;
