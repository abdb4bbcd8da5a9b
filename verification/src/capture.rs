//! Turning a grabbed screen area into a JPEG file: the region to grab, the layout of the
//! pixel rows the screen copy delivers, the conversion to RGB, the encoding, and the
//! numbered file name.

use vstd::prelude::*;

use crate::app_state::AppState;
use crate::geometry::Rect;
use crate::text::{append_zero_padded, zero_padded};

verus! {

#[verifier::external_type_specification]
#[verifier::external_body]
pub struct ExImageError(image::ImageError);

/// Why a capture could not be turned into a JPEG file.
#[derive(Clone, Copy, Debug, PartialEq, Eq, Structural)]
pub enum CaptureError {
    /// No area has been selected.
    NoAreaSelected,
    /// The encoder refused the image (JPEG sides must lie between 1 and 65535 pixels).
    EncodingFailed,
}

/// The screen area to copy: its top-left corner and size.
#[derive(Clone, Copy, Debug, PartialEq, Eq, Structural)]
pub struct CaptureRegion {
    pub left: i32,
    pub top: i32,
    pub width: i32,
    pub height: i32,
}

/// The absolute value of an integer.
pub open spec fn abs_int(v: int) -> int {
    if v < 0 {
        -v
    } else {
        v
    }
}

/// Whether the width and height of `r` fit in an `i32`.
pub open spec fn region_fits(r: Rect) -> bool {
    abs_int(r.right - r.left) <= i32::MAX && abs_int(r.bottom - r.top) <= i32::MAX
}

/// The region copied for the selected rectangle `r`.
pub open spec fn spec_region_of(r: Rect) -> CaptureRegion {
    CaptureRegion {
        left: r.left,
        top: r.top,
        width: abs_int(r.right - r.left) as i32,
        height: abs_int(r.bottom - r.top) as i32,
    }
}

impl AppState {
    /// The screen region to capture: the selected area's top-left corner and the absolute
    /// differences of its edges; an error when no area is selected.
    pub fn capture_region(&self) -> (r: Result<CaptureRegion, CaptureError>)
        requires
            self.selected_area matches Some(a) ==> region_fits(a),
        ensures
            self.selected_area matches Some(a) ==> r == Ok::<CaptureRegion, CaptureError>(
                spec_region_of(a),
            ),
            self.selected_area is None ==> r == Err::<CaptureRegion, CaptureError>(
                CaptureError::NoAreaSelected,
            ),
    {
        match self.selected_area {
            Some(a) => {
                let dx = a.right - a.left;
                let dy = a.bottom - a.top;
                let width = if dx < 0 {
                    -dx
                } else {
                    dx
                };
                let height = if dy < 0 {
                    -dy
                } else {
                    dy
                };
                Ok(CaptureRegion { left: a.left, top: a.top, width, height })
            },
            None => Err(CaptureError::NoAreaSelected),
        }
    }

    /// Switches the capture-mode overlay between its "processing" and "waiting" pictures
    /// (the caller then redraws the overlay).
    pub fn set_capture_processing(&mut self, processing: bool)
        ensures
            *final(self) == (AppState { capture_overlay_is_processing: processing, ..*old(self) }),
    {
        self.capture_overlay_is_processing = processing;
    }

    /// Ends a capture: the overlay goes back to its "waiting" picture, and the file number
    /// advances exactly when the capture was saved (so a failed capture never uses up a
    /// number, and a saved one is never overwritten by the next).
    pub fn finish_capture(&mut self, saved: bool)
        requires
            saved ==> old(self).capture_file_counter < u32::MAX,
        ensures
            *final(self) == (AppState {
                capture_overlay_is_processing: false,
                capture_file_counter: if saved {
                    (old(self).capture_file_counter + 1) as u32
                } else {
                    old(self).capture_file_counter
                },
                ..*old(self)
            }),
    {
        self.set_capture_processing(false);
        if saved {
            self.record_capture_saved();
        }
    }

    /// Records that the capture numbered `capture_file_counter` was saved: the next one gets
    /// the following number.
    pub fn record_capture_saved(&mut self)
        requires
            old(self).capture_file_counter < u32::MAX,
        ensures
            *final(self) == (AppState {
                capture_file_counter: (old(self).capture_file_counter + 1) as u32,
                ..*old(self)
            }),
    {
        self.capture_file_counter = self.capture_file_counter + 1;
    }
}

/// The length in bytes of one row of a 24-bit bottom-up or top-down device-independent
/// bitmap of the given width: three bytes a pixel, rounded up to a multiple of four.
pub open spec fn dib_row_size(width: int) -> int {
    ((width * 3 + 3) / 4) * 4
}

/// Computes `dib_row_size`.
pub fn dib_row_stride(width: u32) -> (r: usize)
    requires
        width as int * 3 + 3 <= usize::MAX,
    ensures
        r == dib_row_size(width as int),
{
    let w = width as usize;
    ((w * 3 + 3) / 4) * 4
}

/// The length of the buffer that receives `height` rows of that layout.
pub fn dib_buffer_len(width: u32, height: u32) -> (r: usize)
    requires
        dib_row_size(width as int) * height <= usize::MAX,
        width as int * 3 + 3 <= usize::MAX,
    ensures
        r == dib_row_size(width as int) * height,
{
    dib_row_stride(width) * height as usize
}

/// The byte that the RGB image holds for channel `c` (0 red, 1 green, 2 blue) of pixel
/// `(x, y)`, taken from a buffer of rows of `row` bytes in blue-green-red order.
pub open spec fn bgr_channel(bgr: Seq<u8>, row: int, x: int, y: int, c: int) -> u8 {
    bgr[y * row + x * 3 + 2 - c]
}

/// Whether `rgb` is the RGB image, rows top to bottom and three bytes a pixel, of the
/// `width` by `height` pixels held in `bgr` as rows of `dib_row_size(width)` bytes in
/// blue-green-red order.
pub open spec fn is_rgb_of(rgb: Seq<u8>, bgr: Seq<u8>, width: int, height: int) -> bool {
    &&& rgb.len() == width * height * 3
    &&& forall|x: int, y: int, c: int|
        0 <= x < width && 0 <= y < height && 0 <= c < 3 ==> #[trigger] rgb[(y * width + x) * 3
            + c] == bgr_channel(bgr, dib_row_size(width), x, y, c)
}

proof fn lemma_pixel_index_bounds(width: int, height: int, row: int, x: int, y: int)
    requires
        0 <= x < width,
        0 <= y < height,
        row == dib_row_size(width),
    ensures
        0 <= y * row + x * 3,
        y * row + x * 3 + 2 < row * height,
        (y * width + x) * 3 + 2 < width * height * 3,
        0 <= (y * width + x) * 3,
{
    assert(x * 3 + 2 < row);
    assert(y * row + x * 3 + 2 < y * row + row) by (nonlinear_arith)
        requires
            x * 3 + 2 < row,
    ;
    assert(y * row + row <= row * height) by (nonlinear_arith)
        requires
            y + 1 <= height,
            row >= 0,
    ;
    assert(y * width + x + 1 <= width * height) by (nonlinear_arith)
        requires
            y + 1 <= height,
            x < width,
            0 <= x,
    ;
    assert(0 <= y * row) by (nonlinear_arith)
        requires
            0 <= y,
            row >= 0,
    ;
    assert(0 <= y * width) by (nonlinear_arith)
        requires
            0 <= y,
            width >= 0,
    ;
}

/// Converts the rows delivered by the screen copy (blue-green-red, each padded to a
/// multiple of four bytes) into a packed RGB image.
pub fn bgr_rows_to_rgb(bgr: &[u8], width: u32, height: u32) -> (rgb: Vec<u8>)
    requires
        width as int * 3 + 3 <= usize::MAX,
        bgr@.len() == dib_row_size(width as int) * height,
        width as int * height * 3 <= usize::MAX,
    ensures
        is_rgb_of(rgb@, bgr@, width as int, height as int),
{
    let w = width as usize;
    let h = height as usize;
    let row = dib_row_stride(width);
    let ghost wi = width as int;
    let ghost hi = height as int;
    let n = bgr.len();
    let mut rgb: Vec<u8> = Vec::new();
    let mut y: usize = 0;
    while y < h
        invariant
            w == width,
            h == height,
            row == dib_row_size(wi),
            wi == width as int,
            hi == height as int,
            bgr@.len() == row * hi,
            n == bgr@.len(),
            wi * hi * 3 <= usize::MAX,
            y <= h,
            rgb@.len() == y * wi * 3,
            forall|x2: int, y2: int, c: int|
                0 <= x2 < wi && 0 <= y2 < y && 0 <= c < 3 ==> #[trigger] rgb@[(y2 * wi + x2) * 3
                    + c] == bgr_channel(bgr@, row as int, x2, y2, c),
        decreases h - y,
    {
        let mut x: usize = 0;
        while x < w
            invariant
                w == width,
                h == height,
                row == dib_row_size(wi),
                wi == width as int,
                hi == height as int,
                bgr@.len() == row * hi,
                n == bgr@.len(),
                wi * hi * 3 <= usize::MAX,
                y < h,
                x <= w,
                rgb@.len() == (y * wi + x) * 3,
                forall|x2: int, y2: int, c: int|
                    0 <= x2 < wi && 0 <= y2 < hi && 0 <= c < 3 && (y2 < y || (y2 == y && x2 < x))
                        ==> #[trigger] rgb@[(y2 * wi + x2) * 3 + c] == bgr_channel(
                        bgr@,
                        row as int,
                        x2,
                        y2,
                        c,
                    ),
            decreases w - x,
        {
            proof {
                lemma_pixel_index_bounds(wi, hi, row as int, x as int, y as int);
            }
            let src = y * row + x * 3;
            let ghost before = rgb@;
            rgb.push(bgr[src + 2]);
            rgb.push(bgr[src + 1]);
            rgb.push(bgr[src]);
            proof {
                let base = (y * wi + x) * 3;
                assert(base == before.len());
                assert(rgb@[base] == bgr_channel(bgr@, row as int, x as int, y as int, 0));
                assert(rgb@[base + 1] == bgr_channel(bgr@, row as int, x as int, y as int, 1));
                assert(rgb@[base + 2] == bgr_channel(bgr@, row as int, x as int, y as int, 2));
                assert(rgb@.len() == (y * wi + x + 1) * 3);
                assert forall|x2: int, y2: int, c: int|
                    0 <= x2 < wi && 0 <= y2 < hi && 0 <= c < 3 && (y2 < y || (y2 == y && x2 < x
                        + 1)) implies #[trigger] rgb@[(y2 * wi + x2) * 3 + c] == bgr_channel(
                    bgr@,
                    row as int,
                    x2,
                    y2,
                    c,
                ) by {
                    if y2 == y && x2 == x {
                        assert((y2 * wi + x2) * 3 + c == base + c);
                    } else {
                        assert(y2 * wi + x2 < y * wi + x) by (nonlinear_arith)
                            requires
                                y2 < y || (y2 == y && x2 < x),
                                0 <= x2 < wi,
                                0 <= x < wi,
                        ;
                        assert((y2 * wi + x2) * 3 + c < base);
                        assert(rgb@[(y2 * wi + x2) * 3 + c] == before[(y2 * wi + x2) * 3 + c]);
                    }
                }
            }
            x = x + 1;
        }
        proof {
            assert((y * wi + wi) * 3 == (y + 1) * wi * 3) by (nonlinear_arith);
        }
        y = y + 1;
    }
    proof {
        assert(y * wi * 3 == wi * hi * 3) by (nonlinear_arith)
            requires
                y == hi,
        ;
    }
    rgb
}

/// The JPEG stream the `image` crate's encoder produces for an RGB image of the given size
/// at the given quality.
pub uninterp spec fn jpeg_encoding(rgb: Seq<u8>, width: u32, height: u32, quality: u8) -> Seq<u8>;

/// Encodes an RGB image with `image::codecs::jpeg::JpegEncoder::new_with_quality` and
/// `encode(.., ExtendedColorType::Rgb8)` into memory.
///
/// Trusted: the encoder refuses exactly the images with a side of zero or of more than
/// 65535 pixels (its size check); writing into a vector cannot fail otherwise; and the
/// bytes it writes are a function of the pixels, the size and the quality.
#[verifier::external_body]
fn encode_jpeg_rgb(rgb: &[u8], width: u32, height: u32, quality: u8) -> (r: Result<
    Vec<u8>,
    image::ImageError,
>)
    requires
        rgb@.len() == width as int * height * 3,
    ensures
        r is Ok <==> (1 <= width <= 65535 && 1 <= height <= 65535),
        r matches Ok(bytes) ==> bytes@ == jpeg_encoding(rgb@, width, height, quality),
{
    let mut out: Vec<u8> = Vec::new();
    let result = {
        let mut encoder = image::codecs::jpeg::JpegEncoder::new_with_quality(&mut out, quality);
        encoder.encode(rgb, width, height, image::ExtendedColorType::Rgb8)
    };
    match result {
        Ok(()) => Ok(out),
        Err(e) => Err(e),
    }
}

/// Converts the rows of a grabbed area to RGB and encodes them as JPEG at `quality`.
/// Succeeds exactly when both sides lie between 1 and 65535 pixels.
pub fn encode_capture(bgr: &[u8], width: u32, height: u32, quality: u8) -> (r: Result<
    Vec<u8>,
    CaptureError,
>)
    requires
        width as int * 3 + 3 <= usize::MAX,
        bgr@.len() == dib_row_size(width as int) * height,
        width as int * height * 3 <= usize::MAX,
    ensures
        r is Ok <==> (1 <= width <= 65535 && 1 <= height <= 65535),
        r matches Ok(bytes) ==> exists|rgb: Seq<u8>|
            is_rgb_of(rgb, bgr@, width as int, height as int) && bytes@ == jpeg_encoding(
                rgb,
                width,
                height,
                quality,
            ),
        r matches Err(e) ==> e == CaptureError::EncodingFailed,
{
    let rgb = bgr_rows_to_rgb(bgr, width, height);
    match encode_jpeg_rgb(rgb.as_slice(), width, height, quality) {
        Ok(bytes) => Ok(bytes),
        Err(_) => Err(CaptureError::EncodingFailed),
    }
}

/// The file name of capture number `counter`: at least four digits, then `.jpg`.
pub open spec fn capture_file_name_text(counter: nat) -> Seq<char> {
    zero_padded(counter, 4) + ".jpg"@
}

/// Builds the file name of capture number `counter`, such as `0007.jpg`.
pub fn capture_file_name(counter: u32) -> (r: String)
    ensures
        r@ == capture_file_name_text(counter as nat),
{
    let mut s = String::new();
    append_zero_padded(&mut s, counter, 4);
    s.append(".jpg");
    s
}

/// Two captures with different numbers go to different files, so a later capture never
/// overwrites an earlier one.
pub proof fn lemma_capture_file_names_distinct(n: nat, m: nat)
    requires
        n != m,
    ensures
        capture_file_name_text(n) != capture_file_name_text(m),
{
    crate::text::lemma_zero_padded_injective(n, m, 4);
    let a = zero_padded(n, 4);
    let b = zero_padded(m, 4);
    let ext = ".jpg"@;
    if a + ext == b + ext {
        assert((a + ext).len() == a.len() + ext.len());
        assert((b + ext).len() == b.len() + ext.len());
        assert(a.len() == b.len());
        assert(a =~= (a + ext).subrange(0, a.len() as int));
        assert(b =~= (b + ext).subrange(0, b.len() as int));
    }
}

} // verus!
