//! The image being rendered: its size, the order in which its pixels are
//! produced, and its encoding as it is filled.
use vstd::prelude::*;
use crate::ppm::{header, header_text, image_text, pixel_text, pixels_text, push_pixel_line, Rgb};

verus! {

/// Horizontal part of the demo image's aspect ratio.
pub const ASPECT_WIDTH: u32 = 16;

/// Vertical part of the demo image's aspect ratio.
pub const ASPECT_HEIGHT: u32 = 9;

/// Independent camera samples averaged into each pixel of the demo image.
pub const SAMPLES_PER_PIXEL: i32 = 100;

/// Bounces a ray may take in the demo image before it counts as black.
pub const MAX_DEPTH: i32 = 50;

/// The height of an image `width` pixels wide with aspect ratio
/// `ratio_w : ratio_h`: `width * ratio_h / ratio_w` rounded down, and at
/// least one row (at most `i32::MAX`).
pub open spec fn height_for(width: int, ratio_w: int, ratio_h: int) -> int
    recommends
        ratio_w > 0,
{
    let q = (width * ratio_h) / ratio_w;
    if q < 1 {
        1
    } else if q > i32::MAX {
        i32::MAX as int
    } else {
        q
    }
}

/// The number of pixels of a `width` by `height` image; none where either is not positive.
pub open spec fn pixel_total(width: int, height: int) -> int {
    if width > 0 && height > 0 {
        width * height
    } else {
        0
    }
}

/// The column and row of the `k`-th pixel in row-major order, top row first.
pub open spec fn pixel_position(width: int, k: int) -> (int, int) {
    (k % width, k / width)
}

pub fn image_height(width: i32, ratio_w: u32, ratio_h: u32) -> (r: i32)
    requires
        ratio_w > 0,
    ensures
        r as int == height_for(width as int, ratio_w as int, ratio_h as int),
        r >= 1,
{
    if width <= 0 {
        proof {
            let w = width as int;
            let rw = ratio_w as int;
            let rh = ratio_h as int;
            assert(w * rh <= 0) by (nonlinear_arith)
                requires
                    w <= 0,
                    rh >= 0,
            ;
            assert((w * rh) / rw <= 0) by (nonlinear_arith)
                requires
                    w * rh <= 0,
                    rw > 0,
            ;
        }
        return 1;
    }
    proof {
        assert((width as int) * (ratio_h as int) <= (i32::MAX as int) * (u32::MAX as int))
            by (nonlinear_arith)
            requires
                0 < width <= i32::MAX,
                0 <= ratio_h <= u32::MAX,
        ;
    }
    let q: u64 = (width as u64) * (ratio_h as u64) / (ratio_w as u64);
    if q < 1 {
        1
    } else if q > i32::MAX as u64 {
        i32::MAX
    } else {
        q as i32
    }
}

/// A PPM image filled one pixel at a time, in row-major order from the top
/// row down; its text is kept complete for the pixels written so far.
pub struct PpmImage {
    width: i32,
    height: i32,
    written: u64,
    pixels: Ghost<Seq<Rgb>>,
    bytes: Vec<u8>,
}

impl PpmImage {
    pub closed spec fn spec_width(&self) -> int {
        self.width as int
    }

    pub closed spec fn spec_height(&self) -> int {
        self.height as int
    }

    /// The pixels written so far, in order.
    pub closed spec fn pixels(&self) -> Seq<Rgb> {
        self.pixels@
    }

    /// The number of pixels the finished image has.
    pub open spec fn total(&self) -> int {
        pixel_total(self.spec_width(), self.spec_height())
    }

    /// The image's text as it stands.
    pub open spec fn text(&self) -> Seq<u8> {
        image_text(self.spec_width(), self.spec_height(), self.pixels())
    }

    pub closed spec fn wf(&self) -> bool {
        &&& self.written as int == self.pixels@.len()
        &&& self.pixels@.len() <= pixel_total(self.width as int, self.height as int)
        &&& self.bytes@ == image_text(self.width as int, self.height as int, self.pixels@)
    }

    /// An image of the given size with no pixel written: its text is the header.
    pub fn new(width: i32, height: i32) -> (r: PpmImage)
        ensures
            r.wf(),
            r.spec_width() == width as int,
            r.spec_height() == height as int,
            r.pixels() == Seq::<Rgb>::empty(),
            r.text() == header_text(width as int, height as int),
    {
        let bytes = header(width, height);
        let r = PpmImage { width, height, written: 0, pixels: Ghost(Seq::empty()), bytes };
        assert(image_text(width as int, height as int, Seq::<Rgb>::empty()) =~= header_text(
            width as int,
            height as int,
        ));
        r
    }

    pub fn width(&self) -> (r: i32)
        ensures
            r as int == self.spec_width(),
    {
        self.width
    }

    pub fn height(&self) -> (r: i32)
        ensures
            r as int == self.spec_height(),
    {
        self.height
    }

    /// Whether every pixel has been written.
    pub fn is_complete(&self) -> (r: bool)
        requires
            self.wf(),
        ensures
            r == (self.pixels().len() == self.total()),
    {
        self.written == self.pixel_count()
    }

    /// The number of pixels the finished image has.
    pub fn pixel_count(&self) -> (r: u64)
        ensures
            r as int == self.total(),
    {
        if self.width > 0 && self.height > 0 {
            proof {
                assert((self.width as int) * (self.height as int) <= (i32::MAX as int) * (
                i32::MAX as int)) by (nonlinear_arith)
                    requires
                        0 < self.width <= i32::MAX,
                        0 < self.height <= i32::MAX,
                ;
            }
            (self.width as u64) * (self.height as u64)
        } else {
            0
        }
    }

    /// The column and row of the pixel to write next, or `None` once the
    /// image is complete.
    pub fn next_pixel(&self) -> (r: Option<(i32, i32)>)
        requires
            self.wf(),
        ensures
            self.pixels().len() < self.total() ==> (r matches Some((i, j)) && (i as int, j as int)
                == pixel_position(self.spec_width(), self.pixels().len() as int)),
            self.pixels().len() == self.total() ==> r is None,
    {
        if self.written >= self.pixel_count() {
            return None;
        }
        let w: u64 = self.width as u64;
        let k: u64 = self.written;
        proof {
            assert(k / w < self.height as int) by (nonlinear_arith)
                requires
                    0 <= k < w * (self.height as int),
                    w > 0,
            ;
            assert(k % w < w) by (nonlinear_arith)
                requires
                    w > 0,
            ;
        }
        Some(((k % w) as i32, (k / w) as i32))
    }

    /// Writes the next pixel.
    pub fn push_pixel(&mut self, p: Rgb)
        requires
            old(self).wf(),
            old(self).pixels().len() < old(self).total(),
        ensures
            final(self).wf(),
            final(self).spec_width() == old(self).spec_width(),
            final(self).spec_height() == old(self).spec_height(),
            final(self).pixels() == old(self).pixels().push(p),
            final(self).text() == old(self).text() + pixel_text(p),
    {
        let ghost before = self.pixels@;
        push_pixel_line(&mut self.bytes, p);
        let total: u64 = self.pixel_count();
        assert(self.written < total);
        self.written = self.written + 1;
        self.pixels = Ghost(before.push(p));
        proof {
            assert(before.push(p).drop_last() =~= before);
            assert(pixels_text(before.push(p)) == pixels_text(before) + pixel_text(p));
            assert(self.bytes@ =~= image_text(
                self.width as int,
                self.height as int,
                self.pixels@,
            ));
        }
    }

    /// The image's text as it stands.
    pub fn as_bytes(&self) -> (r: &Vec<u8>)
        requires
            self.wf(),
        ensures
            r@ == self.text(),
    {
        &self.bytes
    }
}

/// What a render of the demo scene needs besides the scene and the camera.
pub struct RenderJob {
    pub samples_per_pixel: i32,
    pub max_depth: i32,
    pub image: PpmImage,
}

/// The demo render at the given width: a 16:9 image, 100 samples per pixel
/// and 50 bounces, with no pixel written yet.
pub fn print_image(width: i32) -> (r: RenderJob)
    ensures
        r.image.wf(),
        r.image.spec_width() == width as int,
        r.image.spec_height() == height_for(
            width as int,
            ASPECT_WIDTH as int,
            ASPECT_HEIGHT as int,
        ),
        r.image.pixels() == Seq::<Rgb>::empty(),
        r.samples_per_pixel == SAMPLES_PER_PIXEL,
        r.max_depth == MAX_DEPTH,
{
    let height = image_height(width, ASPECT_WIDTH, ASPECT_HEIGHT);
    RenderJob {
        samples_per_pixel: SAMPLES_PER_PIXEL,
        max_depth: MAX_DEPTH,
        image: PpmImage::new(width, height),
    }
}

} // verus!
