//! Animated GIF export: the options accepted and the frames a GIF must
//! have.

use vstd::prelude::*;

verus! {

#[derive(Debug, Clone, Copy, PartialEq, Eq)]
pub struct GifExportOptions {
    pub size: u32,
    pub frames: u32,
    pub duration_ms: u32,
}

impl Default for GifExportOptions {
    fn default() -> (o: GifExportOptions)
        ensures
            o.size == 512,
            o.frames == 48,
            o.duration_ms == 2000,
    {
        GifExportOptions { size: 512, frames: 48, duration_ms: 2_000 }
    }
}

/// Why a GIF export was refused.
#[derive(Debug, Clone, PartialEq, Eq)]
pub enum GifExportError {
    /// Not 512 or 1024 pixels square.
    UnsupportedSize(u32),
    /// Not between 2 and 240 frames.
    UnsupportedFrameCount(u32),
    /// The animation must last at least one millisecond.
    InvalidDuration,
    PixelLength { actual: usize, expected: usize },
}

/// The first refusal `options` meet: size, then frame count, then duration.
pub open spec fn gif_options_check(options: GifExportOptions) -> Result<(), GifExportError> {
    if !(options.size == 512 || options.size == 1024) {
        Err(GifExportError::UnsupportedSize(options.size))
    } else if !(2 <= options.frames && options.frames <= 240) {
        Err(GifExportError::UnsupportedFrameCount(options.frames))
    } else if options.duration_ms == 0 {
        Err(GifExportError::InvalidDuration)
    } else {
        Ok(())
    }
}

pub fn validate_options(options: GifExportOptions) -> (r: Result<(), GifExportError>)
    ensures
        r == gif_options_check(options),
{
    if !(options.size == 512 || options.size == 1024) {
        return Err(GifExportError::UnsupportedSize(options.size));
    }
    if !(2 <= options.frames && options.frames <= 240) {
        return Err(GifExportError::UnsupportedFrameCount(options.frames));
    }
    if options.duration_ms == 0 {
        return Err(GifExportError::InvalidDuration);
    }
    Ok(())
}

/// Index of the first of `lens` that is not `expected`.
pub open spec fn first_wrong_len(lens: Seq<usize>, expected: int) -> Option<int>
    decreases lens.len(),
{
    if lens.len() == 0 {
        None
    } else {
        match first_wrong_len(lens.drop_last(), expected) {
            Some(i) => Some(i),
            None => if lens.last() != expected {
                Some(lens.len() - 1)
            } else {
                None
            },
        }
    }
}

/// `a * b`, or `u32::MAX` when that overflows.
pub open spec fn saturating_mul(a: u32, b: u32) -> u32 {
    if a * b > u32::MAX {
        u32::MAX
    } else {
        (a * b) as u32
    }
}

/// What a GIF of `frame_lens.len()` RGBA frames of `width` x `height`
/// pixels, shown `delay_ms` each, meets before it is encoded: a square
/// size, the options check (the frame count taken as a `u32`), and four
/// bytes per pixel in every frame.
pub open spec fn gif_frames_check(width: u32, height: u32, frame_lens: Seq<usize>, delay_ms: u32) -> Result<(), GifExportError> {
    let count = frame_lens.len() as u32;
    let options = GifExportOptions {
        size: width,
        frames: count,
        duration_ms: saturating_mul(delay_ms, count),
    };
    if width != height {
        Err(GifExportError::UnsupportedSize(if width > height { width } else { height }))
    } else if gif_options_check(options) is Err {
        gif_options_check(options)
    } else {
        match first_wrong_len(frame_lens, width * height * 4) {
            Some(i) => Err(
                GifExportError::PixelLength { actual: frame_lens[i], expected: (width * height * 4) as usize },
            ),
            None => Ok(()),
        }
    }
}

/// Check the frames of a GIF before it is encoded; `frame_lens` holds the
/// byte length of each frame's pixel buffer.
pub fn check_rgba_frames(width: u32, height: u32, frame_lens: &Vec<usize>, delay_ms: u32) -> (r: Result<(), GifExportError>)
    ensures
        r == gif_frames_check(width, height, frame_lens@, delay_ms),
{
    if width != height {
        let m = if width > height { width } else { height };
        return Err(GifExportError::UnsupportedSize(m));
    }
    #[verifier::truncate]
    let count = frame_lens.len() as u32;
    assert((delay_ms as u64) * (count as u64) <= 0xffff_fffe_0000_0001u64) by (nonlinear_arith)
        requires
            delay_ms <= 0xffff_ffffu32,
            count <= 0xffff_ffffu32,
    ;
    let product = (delay_ms as u64) * (count as u64);
    let duration = if product > 0xffff_ffff { u32::MAX } else { product as u32 };
    let options = GifExportOptions { size: width, frames: count, duration_ms: duration };
    match validate_options(options) {
        Err(e) => {
            return Err(e);
        },
        Ok(()) => {},
    }
    assert((width as usize) * (height as usize) * 4 <= 4_194_304) by (nonlinear_arith)
        requires
            width <= 1024,
            height == width,
    ;
    let expected = (width as usize) * (height as usize) * 4;
    let mut i: usize = 0;
    assert(options == GifExportOptions {
        size: width,
        frames: frame_lens@.len() as u32,
        duration_ms: saturating_mul(delay_ms, frame_lens@.len() as u32),
    });
    while i < frame_lens.len()
        invariant
            width == height,
            gif_options_check(
                GifExportOptions {
                    size: width,
                    frames: frame_lens@.len() as u32,
                    duration_ms: saturating_mul(delay_ms, frame_lens@.len() as u32),
                },
            ) is Ok,
            i <= frame_lens.len(),
            expected == width * height * 4,
            first_wrong_len(frame_lens@.subrange(0, i as int), expected as int) is None,
        decreases frame_lens.len() - i,
    {
        assert(frame_lens@.subrange(0, i + 1).drop_last() =~= frame_lens@.subrange(0, i as int));
        if frame_lens[i] != expected {
            proof {
                lemma_first_wrong_prefix(frame_lens@, i as int + 1, expected as int);
            }
            return Err(GifExportError::PixelLength { actual: frame_lens[i], expected });
        }
        i = i + 1;
    }
    assert(frame_lens@.subrange(0, frame_lens@.len() as int) =~= frame_lens@);
    Ok(())
}

proof fn lemma_first_wrong_prefix(lens: Seq<usize>, k: int, expected: int)
    requires
        0 < k <= lens.len(),
        first_wrong_len(lens.subrange(0, k), expected) is Some,
    ensures
        first_wrong_len(lens, expected) == first_wrong_len(lens.subrange(0, k), expected),
    decreases lens.len() - k,
{
    if k < lens.len() {
        assert(lens.subrange(0, k + 1).drop_last() =~= lens.subrange(0, k));
        lemma_first_wrong_prefix(lens, k + 1, expected);
    } else {
        assert(lens.subrange(0, k) =~= lens);
    }
}

/// The delay each GIF frame is shown for: at least one millisecond.
pub fn frame_delay_ms(delay_ms: u32) -> (d: u32)
    ensures
        d == (if delay_ms < 1 { 1 } else { delay_ms }),
{
    if delay_ms < 1 { 1 } else { delay_ms }
}

} // verus!
