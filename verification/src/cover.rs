//! The cover art: decoding the downloaded image, resizing it, and laying out
//! one character cell per pixel with the pixel's colours. The brightness
//! curve that picks each cell's character is single-precision arithmetic and
//! is left to the caller, which hands in the chosen glyph for every pixel.

use vstd::prelude::*;
use image::imageops::FilterType;
use crate::app::ArtCell;
use crate::colors::{boosted, scaled, boost_color, darken_color};

verus! {

/// The characters of the brightness ramp, darkest-looking first.
pub open spec fn glyph(i: int) -> char {
    if i == 0 {
        '@'
    } else if i == 1 {
        '%'
    } else if i == 2 {
        '#'
    } else if i == 3 {
        '*'
    } else if i == 4 {
        '+'
    } else if i == 5 {
        '='
    } else if i == 6 {
        '-'
    } else if i == 7 {
        ':'
    } else {
        '.'
    }
}

/// How many characters the brightness ramp has.
pub const GLYPH_COUNT: usize = 9;

/// The `i`-th character of the brightness ramp.
pub fn glyph_char(i: usize) -> (c: char)
    requires
        i < GLYPH_COUNT,
    ensures
        c == glyph(i as int),
{
    if i == 0 {
        '@'
    } else if i == 1 {
        '%'
    } else if i == 2 {
        '#'
    } else if i == 3 {
        '*'
    } else if i == 4 {
        '+'
    } else if i == 5 {
        '='
    } else if i == 6 {
        '-'
    } else if i == 7 {
        ':'
    } else {
        '.'
    }
}

/// An 8-bit RGB image: `width * height` pixels, row by row, three bytes each.
pub struct RgbPixels {
    pub width: u32,
    pub height: u32,
    pub data: Vec<u8>,
}

/// The size and the RGB bytes of the image that `bytes` hold, as the `image`
/// crate decodes it; none when it cannot.
pub uninterp spec fn decoded_rgb(bytes: Seq<u8>) -> Option<(u32, u32, Seq<u8>)>;

/// The image that `bytes` hold, resized by the `image` crate to
/// `width` x `height` with its triangle filter, as RGB bytes; none when it
/// cannot be decoded.
pub uninterp spec fn resized_rgb(bytes: Seq<u8>, width: u32, height: u32) -> Option<(u32, u32, Seq<u8>)>;

/// The size and bytes of an optional image.
pub open spec fn pixels_of(p: Option<RgbPixels>) -> Option<(u32, u32, Seq<u8>)> {
    match p {
        Some(p) => Some((p.width, p.height, p.data@)),
        None => None,
    }
}

/// Decodes an image (`image::load_from_memory`, then `to_rgb8`). The result
/// is named by `decoded_rgb`; the buffer holds three bytes per pixel.
#[verifier::external_body]
fn decode_rgb(bytes: &[u8]) -> (r: Option<RgbPixels>)
    ensures
        pixels_of(r) == decoded_rgb(bytes@),
        r matches Some(p) ==> p.data@.len() == 3 * p.width * p.height,
{
    image::load_from_memory(bytes).ok().map(|i| i.to_rgb8()).map(
        |rgb| RgbPixels { width: rgb.width(), height: rgb.height(), data: rgb.into_raw() },
    )
}

/// Decodes an image and resizes it (`image::load_from_memory`, then
/// `resize_exact` with `FilterType::Triangle`, then `to_rgb8`). The result is
/// named by `resized_rgb`; it has the requested size and three bytes per
/// pixel, and it fails exactly when decoding the same bytes does, resizing
/// and converting a decoded image never failing. The sizes are bounded so that the resampling buffers fit in memory
/// addresses.
#[verifier::external_body]
fn resize_rgb(bytes: &[u8], width: u32, height: u32) -> (r: Option<RgbPixels>)
    requires
        width < 0x400_0000,
        height < 0x400_0000,
    ensures
        pixels_of(r) == resized_rgb(bytes@, width, height),
        r is None <==> decoded_rgb(bytes@) is None,
        r matches Some(p) ==> p.width == width && p.height == height && p.data@.len() == 3
            * width * height,
{
    image::load_from_memory(bytes).ok().map(|i| i.resize_exact(width, height, FilterType::Triangle).to_rgb8()).map(
        |rgb| RgbPixels { width: rgb.width(), height: rgb.height(), data: rgb.into_raw() },
    )
}

/// What decoding a cover gives: nothing readable, an image without pixels,
/// or the size of the image.
pub enum DecodedCover {
    Unreadable,
    Empty,
    Sized { width: u32, height: u32 },
}

/// Decodes a downloaded cover and tells its size, or that it holds no pixels
/// or cannot be read.
pub fn decode_cover(bytes: &[u8]) -> (r: DecodedCover)
    ensures
        match decoded_rgb(bytes@) {
            None => r is Unreadable,
            Some((w, h, _)) => if w == 0 || h == 0 {
                r is Empty
            } else {
                r == (DecodedCover::Sized { width: w, height: h })
            },
        },
{
    match decode_rgb(bytes) {
        None => DecodedCover::Unreadable,
        Some(p) => if p.width == 0 || p.height == 0 {
            DecodedCover::Empty
        } else {
            DecodedCover::Sized { width: p.width, height: p.height }
        },
    }
}

/// Decodes a downloaded cover and resizes it to `width` x `height`; this
/// fails exactly when `decode_cover` finds the bytes unreadable.
pub fn resize_cover(bytes: &[u8], width: u32, height: u32) -> (r: Option<RgbPixels>)
    requires
        width < 0x400_0000,
        height < 0x400_0000,
    ensures
        pixels_of(r) == resized_rgb(bytes@, width, height),
        r is None <==> decoded_rgb(bytes@) is None,
        r matches Some(p) ==> p.width == width && p.height == height && p.data@.len() == 3
            * width * height,
{
    resize_rgb(bytes, width, height)
}

/// Pixel `k` of an RGB buffer.
pub open spec fn pixel(data: Seq<u8>, k: int) -> [u8; 3] {
    [data[3 * k], data[3 * k + 1], data[3 * k + 2]]
}

/// Whether `cell` shows pixel `k`: the glyph chosen for it, the boosted
/// pixel as foreground and the darkened pixel as background.
pub open spec fn shows_pixel(cell: ArtCell, data: Seq<u8>, glyphs: Seq<usize>, k: int) -> bool {
    let px = pixel(data, k);
    &&& cell.symbol == glyph(glyphs[k] as int)
    &&& cell.colors matches Some((fg, bg)) && fg[0] == boosted(px, 0) && fg[1] == boosted(px, 1)
        && fg[2] == boosted(px, 2) && bg[0] == scaled(px[0], 45) && bg[1] == scaled(px[1], 45)
        && bg[2] == scaled(px[2], 45)
}

/// Lays out the cells of an image: one row per pixel row, one cell per
/// pixel, showing the glyph chosen for the pixel on its colours.
pub fn art_rows(pixels: &RgbPixels, glyphs: &Vec<usize>) -> (rows: Vec<Vec<ArtCell>>)
    requires
        pixels.data@.len() == 3 * pixels.width * pixels.height,
        glyphs@.len() == pixels.width * pixels.height,
        forall|k: int| 0 <= k < glyphs@.len() ==> #[trigger] glyphs@[k] < GLYPH_COUNT,
    ensures
        rows@.len() == pixels.height,
        forall|y: int|
            0 <= y < pixels.height ==> #[trigger] rows@[y]@.len() == pixels.width,
        forall|y: int, x: int|
            0 <= y < pixels.height && 0 <= x < pixels.width ==> shows_pixel(
                #[trigger] rows@[y]@[x],
                pixels.data@,
                glyphs@,
                y * pixels.width + x,
            ),
{
    let w = pixels.width as usize;
    let h = pixels.height as usize;
    let n = pixels.data.len();
    let mut rows: Vec<Vec<ArtCell>> = Vec::new();
    let mut k: usize = 0;
    let mut y: usize = 0;
    while y < h
        invariant
            w == pixels.width,
            h == pixels.height,
            n == pixels.data@.len(),
            pixels.data@.len() == 3 * w * h,
            glyphs@.len() == w * h,
            forall|j: int| 0 <= j < glyphs@.len() ==> #[trigger] glyphs@[j] < GLYPH_COUNT,
            y <= h,
            k == y * w,
            rows@.len() == y,
            forall|r: int| 0 <= r < y ==> #[trigger] rows@[r]@.len() == w,
            forall|r: int, x: int|
                0 <= r < y && 0 <= x < w ==> shows_pixel(
                    #[trigger] rows@[r]@[x],
                    pixels.data@,
                    glyphs@,
                    r * w + x,
                ),
        decreases h - y,
    {
        let mut row: Vec<ArtCell> = Vec::new();
        let mut x: usize = 0;
        proof {
            assert((y + 1) * w <= h * w) by (nonlinear_arith)
                requires
                    y < h,
            ;
            assert((y + 1) * w == y * w + w) by (nonlinear_arith);
        }
        while x < w
            invariant
                w == pixels.width,
                h == pixels.height,
                n == pixels.data@.len(),
                pixels.data@.len() == 3 * w * h,
                glyphs@.len() == w * h,
                forall|j: int| 0 <= j < glyphs@.len() ==> #[trigger] glyphs@[j] < GLYPH_COUNT,
                y < h,
                x <= w,
                k == y * w + x,
                y * w + w <= h * w,
                row@.len() == x,
                forall|c: int|
                    0 <= c < x ==> shows_pixel(
                        #[trigger] row@[c],
                        pixels.data@,
                        glyphs@,
                        y * w + c,
                    ),
            decreases w - x,
        {
            proof {
                assert(3 * w * h == 3 * (h * w)) by (nonlinear_arith);
                assert(k < h * w);
                assert(3 * k + 2 < n);
            }
            let c: [u8; 3] = [pixels.data[3 * k], pixels.data[3 * k + 1], pixels.data[3 * k + 2]];
            assert(c == pixel(pixels.data@, k as int));
            let fg = boost_color(c);
            let bg = darken_color(c);
            let symbol = glyph_char(glyphs[k]);
            row.push(ArtCell { symbol, colors: Some((fg, bg)) });
            x = x + 1;
            k = k + 1;
        }
        let ghost prev = rows@;
        rows.push(row);
        proof {
            assert forall|r: int, x: int|
                0 <= r < y + 1 && 0 <= x < w implies shows_pixel(
                #[trigger] rows@[r]@[x],
                pixels.data@,
                glyphs@,
                r * w + x,
            ) by {
                if r < y {
                    assert(rows@[r] == prev[r]);
                }
            }
            assert((y + 1) * w == y * w + w) by (nonlinear_arith);
        }
        y = y + 1;
    }
    rows
}

/// A cell showing `c` without colours.
pub open spec fn plain_cell(c: char) -> ArtCell {
    ArtCell { symbol: c, colors: None }
}

/// The art shown when there is no cover: the line `No user stats`, without
/// colours.
pub open spec fn placeholder_cells() -> Seq<ArtCell> {
    "No user stats"@.map_values(|c: char| plain_cell(c))
}

/// The art shown when there is no cover.
pub fn placeholder_art() -> (rows: Vec<Vec<ArtCell>>)
    ensures
        rows@.len() == 1,
        rows@[0]@ == placeholder_cells(),
{
    let text = "No user stats";
    let n = text.unicode_len();
    let mut row: Vec<ArtCell> = Vec::new();
    let mut i: usize = 0;
    assert(row@ =~= text@.take(0).map_values(|c: char| plain_cell(c)));
    while i < n
        invariant
            n == text@.len(),
            i <= n,
            row@ == text@.take(i as int).map_values(|c: char| plain_cell(c)),
        decreases n - i,
    {
        let ghost before = row@;
        let cell = ArtCell { symbol: text.get_char(i), colors: None };
        row.push(cell);
        assert(row@ == before.push(cell));
        assert(text@.take(i + 1) =~= text@.take(i as int).push(text@[i as int]));
        assert(row@ =~= text@.take(i + 1).map_values(|c: char| plain_cell(c)));
        i = i + 1;
    }
    assert(text@.take(n as int) =~= text@);
    let mut rows: Vec<Vec<ArtCell>> = Vec::new();
    rows.push(row);
    rows
}

} // verus!
