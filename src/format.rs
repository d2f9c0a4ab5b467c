use vstd::prelude::*;
use crate::error::RenderError;
use vstd::string::StringSliceAdditionalSpecFns;

verus! {

/// The image formats a page can be encoded in.
#[derive(Debug, Clone, Copy, PartialEq, Eq, Structural)]
pub enum OutputFormat {
    /// Lossy; the quality sets the compression.
    Jpeg,
    /// Lossless; the quality has no effect.
    Png,
    /// Lossy WebP; the quality sets the compression.
    Webp,
}

/// The ASCII upper-case form of a byte; other bytes are kept.
pub open spec fn ascii_upper(b: u8) -> u8 {
    if 97 <= b <= 122 {
        (b - 32) as u8
    } else {
        b
    }
}

/// The canonical (upper-case ASCII) name of a format.
pub open spec fn format_name(f: OutputFormat) -> Seq<u8> {
    match f {
        OutputFormat::Jpeg => seq![74u8, 80u8, 69u8, 71u8],
        OutputFormat::Png => seq![80u8, 78u8, 71u8],
        OutputFormat::Webp => seq![87u8, 69u8, 66u8, 80u8],
    }
}

/// Whether `text` spells `name` with ASCII letters in either case.
pub open spec fn spells(text: Seq<u8>, name: Seq<u8>) -> bool {
    &&& text.len() == name.len()
    &&& forall|i: int| 0 <= i < text.len() ==> ascii_upper(#[trigger] text[i]) == name[i]
}

/// The format that the UTF-8 bytes `text` name, if any.
pub open spec fn format_named(text: Seq<u8>) -> Option<OutputFormat> {
    if spells(text, format_name(OutputFormat::Jpeg)) {
        Some(OutputFormat::Jpeg)
    } else if spells(text, format_name(OutputFormat::Png)) {
        Some(OutputFormat::Png)
    } else if spells(text, format_name(OutputFormat::Webp)) {
        Some(OutputFormat::Webp)
    } else {
        None
    }
}

fn to_ascii_upper(b: u8) -> (r: u8)
    ensures
        r == ascii_upper(b),
{
    if 97 <= b && b <= 122 {
        b - 32
    } else {
        b
    }
}

fn spells_name(text: &[u8], name: &[u8]) -> (r: bool)
    ensures
        r == spells(text@, name@),
{
    if text.len() != name.len() {
        return false;
    }
    let mut i: usize = 0;
    while i < text.len()
        invariant
            text@.len() == name@.len(),
            i <= text@.len(),
            forall|j: int| 0 <= j < i ==> ascii_upper(#[trigger] text@[j]) == name@[j],
        decreases text@.len() - i,
    {
        if to_ascii_upper(text[i]) != name[i] {
            return false;
        }
        i = i + 1;
    }
    true
}

fn name_bytes(f: OutputFormat) -> (r: Vec<u8>)
    ensures
        r@ == format_name(f),
{
    let r = match f {
        OutputFormat::Jpeg => vec![74u8, 80u8, 69u8, 71u8],
        OutputFormat::Png => vec![80u8, 78u8, 71u8],
        OutputFormat::Webp => vec![87u8, 69u8, 66u8, 80u8],
    };
    assert(r@ =~= format_name(f));
    r
}

/// Reads a format name (`JPEG`, `PNG` or `WEBP`) in any mix of ASCII case.
pub fn parse_format(text: &str) -> (r: Result<OutputFormat, RenderError>)
    ensures
        match format_named(text.spec_bytes()) {
            Some(f) => r == Ok::<OutputFormat, RenderError>(f),
            None => r == Err::<OutputFormat, RenderError>(RenderError::UnsupportedFormat),
        },
{
    let bytes = text.as_bytes();
    if spells_name(bytes, name_bytes(OutputFormat::Jpeg).as_slice()) {
        Ok(OutputFormat::Jpeg)
    } else if spells_name(bytes, name_bytes(OutputFormat::Png).as_slice()) {
        Ok(OutputFormat::Png)
    } else if spells_name(bytes, name_bytes(OutputFormat::Webp).as_slice()) {
        Ok(OutputFormat::Webp)
    } else {
        Err(RenderError::UnsupportedFormat)
    }
}

} // verus!
