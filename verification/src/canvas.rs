//! A red-green-blue canvas that is allocated blank and painted pixel by
//! pixel, and the solid fill built on it.

use crate::picture::{in_grid, painted, picture_of, rgb_samples, Layout, Picture};
use vstd::prelude::*;

verus! {

/// A buffer of 8-bit red-green-blue pixels of the `image` crate
/// (`ImageBuffer<Rgb<u8>, Vec<u8>>`). The buffer is hidden from the verifier;
/// its size and pixels are known through [`canvas_width`], [`canvas_height`]
/// and [`canvas_pixels`] alone.
#[verifier::external_body]
pub struct Canvas {
    buf: image::RgbImage,
}

/// The width the canvas was made with.
pub uninterp spec fn canvas_width(canvas: Canvas) -> nat;

/// The height the canvas was made with.
pub uninterp spec fn canvas_height(canvas: Canvas) -> nat;

/// The pixel at every coordinate `(x, y)` of the canvas.
pub uninterp spec fn canvas_pixels(canvas: Canvas) -> Map<(int, int), (u8, u8, u8)>;

/// Whether a canvas of this size can be allocated: the sample count
/// `3 * width * height`, and `3 * width` on the way to it, must not overflow,
/// and a vector cannot hold more than `isize::MAX` bytes.
pub open spec fn canvas_fits(width: u32, height: u32) -> bool {
    3 * width <= usize::MAX && 3 * width * height <= isize::MAX
}

/// Whether the canvas has the given size, holds a pixel at every coordinate
/// inside it and none outside.
pub open spec fn is_grid(canvas: Canvas, width: u32, height: u32) -> bool {
    &&& canvas_width(canvas) == width
    &&& canvas_height(canvas) == height
    &&& canvas_pixels(canvas).dom() =~= Set::new(
        |at: (int, int)| in_grid(at, width as nat, height as nat),
    )
}

impl Canvas {
    /// Calls `ImageBuffer::new`, which allocates `3 * width * height`
    /// samples: the canvas has the size asked for and a pixel at every
    /// coordinate inside it. The outside function panics where the sample
    /// count overflows or the vector cannot be that long; `canvas_fits`
    /// leaves those sizes out.
    #[verifier::external_body]
    pub(crate) fn blank(width: u32, height: u32) -> (canvas: Canvas)
        requires
            canvas_fits(width, height),
        ensures
            is_grid(canvas, width, height),
    {
        Canvas { buf: image::ImageBuffer::new(width, height) }
    }

    /// Calls `ImageBuffer::put_pixel`, which overwrites the pixel at `(x, y)`
    /// and nothing else; it panics outside the canvas, which the `requires`
    /// leaves out.
    #[verifier::external_body]
    pub(crate) fn put(&mut self, x: u32, y: u32, colour: (u8, u8, u8))
        requires
            x < canvas_width(*old(self)),
            y < canvas_height(*old(self)),
        ensures
            canvas_width(*final(self)) == canvas_width(*old(self)),
            canvas_height(*final(self)) == canvas_height(*old(self)),
            canvas_pixels(*final(self)) == canvas_pixels(*old(self)).insert(
                (x as int, y as int),
                colour,
            ),
    {
        self.buf.put_pixel(x, y, image::Rgb([colour.0, colour.1, colour.2]))
    }

    /// Moves the buffer into `DynamicImage::ImageRgb8`: the image has the
    /// canvas's size and, pixel for pixel, its three samples.
    #[verifier::external_body]
    pub(crate) fn into_image(self) -> (img: image::DynamicImage)
        ensures
            picture_of(img) == (Picture {
                layout: Layout::Rgb8,
                width: canvas_width(self),
                height: canvas_height(self),
                pixels: canvas_pixels(self).map_values(|colour: (u8, u8, u8)| rgb_samples(colour)),
            }),
    {
        image::DynamicImage::ImageRgb8(self.buf)
    }
}

/// Whether every pixel that comes before `(x, y)` in row-major order holds
/// what `paint` gives for it.
pub open spec fn painted_before(
    canvas: Canvas,
    paint: spec_fn((int, int)) -> (u8, u8, u8),
    x: int,
    y: int,
) -> bool {
    forall|at: (int, int)|
        #![trigger canvas_pixels(canvas)[at]]
        canvas_pixels(canvas).dom().contains(at) && (at.1 < y || (at.1 == y && at.0 < x))
            ==> canvas_pixels(canvas)[at] == paint(at)
}

/// A fully painted canvas, moved into an image, is the painted picture.
pub proof fn lemma_painted_canvas(
    canvas: Canvas,
    width: u32,
    height: u32,
    paint: spec_fn((int, int)) -> (u8, u8, u8),
    pixels: Map<(int, int), Seq<u8>>,
)
    requires
        is_grid(canvas, width, height),
        painted_before(canvas, paint, 0, height as int),
        pixels == canvas_pixels(canvas).map_values(|colour: (u8, u8, u8)| rgb_samples(colour)),
    ensures
        (Picture { layout: Layout::Rgb8, width: width as nat, height: height as nat, pixels })
            == painted(width as nat, height as nat, paint),
{
    let target = painted(width as nat, height as nat, paint).pixels;
    assert forall|at: (int, int)| pixels.dom().contains(at) implies #[trigger] pixels[at]
        == target[at] by {
        assert(canvas_pixels(canvas).dom().contains(at));
        assert(canvas_pixels(canvas)[at] == paint(at));
    }
    assert(pixels =~= target);
}

/// The width of the canvas that [`generate`] fills.
pub const CANVAS_WIDTH: u32 = 800;

/// The height of the canvas that [`generate`] fills.
pub const CANVAS_HEIGHT: u32 = 800;

/// Tells whether a canvas of this size can be allocated.
pub fn fits_canvas(width: u32, height: u32) -> (fits: bool)
    ensures
        fits == canvas_fits(width, height),
{
    assert(3 * width * height == (3 * width) * height) by (nonlinear_arith);
    assert((3 * width) * height <= 0x2_FFFF_FFFD * 0xFFFF_FFFF) by (nonlinear_arith)
        requires
            0 <= 3 * width <= 0x2_FFFF_FFFD,
            0 <= height <= 0xFFFF_FFFF,
    ;
    let row: u128 = 3 * (width as u128);
    let samples: u128 = row * (height as u128);
    row <= usize::MAX as u128 && samples <= isize::MAX as u128
}

/// Paints every pixel of a `width` by `height` canvas with `rgb`: the image
/// is red-green-blue, has that size, and holds `rgb` at every coordinate.
pub fn generate_solid(width: u32, height: u32, rgb: (u8, u8, u8)) -> (img: image::DynamicImage)
    requires
        canvas_fits(width, height),
    ensures
        picture_of(img) == painted(width as nat, height as nat, |at: (int, int)| rgb),
        picture_of(img).layout == Layout::Rgb8,
        picture_of(img).width == width,
        picture_of(img).height == height,
        forall|x: int, y: int|
            0 <= x < width && 0 <= y < height ==> #[trigger] picture_of(img).pixels[(x, y)]
                == rgb_samples(rgb),
{
    let ghost paint = |at: (int, int)| rgb;
    let mut canvas = Canvas::blank(width, height);
    let mut y: u32 = 0;
    while y < height
        invariant
            y <= height,
            is_grid(canvas, width, height),
            painted_before(canvas, paint, 0, y as int),
            paint == (|at: (int, int)| rgb),
        decreases height - y,
    {
        let mut x: u32 = 0;
        while x < width
            invariant
                x <= width,
                y < height,
                is_grid(canvas, width, height),
                painted_before(canvas, paint, x as int, y as int),
                paint == (|at: (int, int)| rgb),
            decreases width - x,
        {
            canvas.put(x, y, rgb);
            x = x + 1;
        }
        y = y + 1;
    }
    proof {
        lemma_painted_canvas(
            canvas,
            width,
            height,
            paint,
            canvas_pixels(canvas).map_values(|colour: (u8, u8, u8)| rgb_samples(colour)),
        );
        assert forall|x: int, y: int| 0 <= x < width && 0 <= y < height implies #[trigger] painted(
            width as nat,
            height as nat,
            paint,
        ).pixels[(x, y)] == rgb_samples(rgb) by {
            assert(in_grid((x, y), width as nat, height as nat));
        }
    }
    canvas.into_image()
}

/// Fills the 800 by 800 canvas with the colour whose red, green and blue
/// are the three entries of `bg_rgb`. Returns `None` exactly when `bg_rgb`
/// does not hold three values.
pub fn generate(bg_rgb: Vec<u8>) -> (out: Option<image::DynamicImage>)
    ensures
        bg_rgb@.len() == 3 ==> (out matches Some(img) && picture_of(img) == painted(
            CANVAS_WIDTH as nat,
            CANVAS_HEIGHT as nat,
            |at: (int, int)| (bg_rgb@[0], bg_rgb@[1], bg_rgb@[2]),
        )),
        bg_rgb@.len() != 3 ==> out is None,
{
    if bg_rgb.len() != 3 {
        return None;
    }
    Some(generate_solid(CANVAS_WIDTH, CANVAS_HEIGHT, (bg_rgb[0], bg_rgb[1], bg_rgb[2])))
}

} // verus!
