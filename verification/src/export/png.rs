//! PNG export: the square sizes offered and the pixel buffer a frame must
//! have.

use vstd::prelude::*;

verus! {

#[derive(Debug, Clone, Copy, PartialEq, Eq, Structural)]
pub enum ExportView {
    FullBody,
    Portrait,
}

pub open spec fn export_view_name(v: ExportView) -> Seq<char> {
    match v {
        ExportView::FullBody => "full_body"@,
        ExportView::Portrait => "portrait"@,
    }
}

impl ExportView {
    pub fn as_str(self) -> (s: &'static str)
        ensures
            s@ == export_view_name(self),
    {
        match self {
            ExportView::FullBody => "full_body",
            ExportView::Portrait => "portrait",
        }
    }
}

#[derive(Debug, Clone, Copy, PartialEq, Eq)]
pub struct PngExportOptions {
    pub size: u32,
    pub transparent_background: bool,
    pub view: ExportView,
}

impl Default for PngExportOptions {
    fn default() -> (o: PngExportOptions)
        ensures
            o.size == 1024,
            o.transparent_background,
            o.view == ExportView::FullBody,
    {
        PngExportOptions { size: 1024, transparent_background: true, view: ExportView::FullBody }
    }
}

/// Why a PNG frame was refused.
#[derive(Debug, Clone, PartialEq, Eq)]
pub enum PngExportError {
    /// Not one of 512, 1024 or 2048 pixels square.
    UnsupportedSize(u32),
    PixelLength { actual: usize, expected: usize },
}

pub open spec fn is_png_size(size: u32) -> bool {
    size == 512 || size == 1024 || size == 2048
}

/// PNG exports are 512, 1024 or 2048 pixels square.
pub fn validate_size(size: u32) -> (r: Result<(), PngExportError>)
    ensures
        is_png_size(size) ==> r is Ok,
        !is_png_size(size) ==> r == Err::<(), PngExportError>(PngExportError::UnsupportedSize(size)),
{
    if size == 512 || size == 1024 || size == 2048 {
        Ok(())
    } else {
        Err(PngExportError::UnsupportedSize(size))
    }
}

/// What a `width` x `height` RGBA frame of `pixel_len` bytes meets before
/// it is encoded: a supported square size and four bytes per pixel.
pub open spec fn png_frame_check(width: u32, height: u32, pixel_len: usize) -> Result<(), PngExportError> {
    if !is_png_size(width) {
        Err(PngExportError::UnsupportedSize(width))
    } else if width != height {
        Err(PngExportError::UnsupportedSize(if width > height { width } else { height }))
    } else if pixel_len != width * height * 4 {
        Err(PngExportError::PixelLength { actual: pixel_len, expected: (width * height * 4) as usize })
    } else {
        Ok(())
    }
}

/// Check an RGBA frame before it is written as a PNG.
pub fn check_rgba_frame(width: u32, height: u32, pixel_len: usize) -> (r: Result<(), PngExportError>)
    ensures
        r == png_frame_check(width, height, pixel_len),
{
    match validate_size(width) {
        Err(e) => {
            return Err(e);
        },
        Ok(()) => {},
    }
    if width != height {
        let m = if width > height { width } else { height };
        return Err(PngExportError::UnsupportedSize(m));
    }
    let expected = (width as usize) * (height as usize) * 4;
    if pixel_len != expected {
        return Err(PngExportError::PixelLength { actual: pixel_len, expected });
    }
    Ok(())
}

} // verus!
