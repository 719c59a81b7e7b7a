//! The escape-time fractal: its parameters, the colour gradient of its
//! background, the rule that counts iterations, and the canvas painted from
//! the counts.
//!
//! The orbit `z -> z * z + c` itself is computed in single precision by the
//! caller; this module decides when the iteration stops and what each pixel
//! holds.

use crate::canvas::{canvas_fits, canvas_pixels, is_grid, lemma_painted_canvas, painted_before, Canvas};
use crate::picture::{painted, picture_of, rgb_samples, Picture};
use vstd::prelude::*;

verus! {

/// The parameters of one fractal image. The constant `c` is held as the bit
/// patterns of its two single-precision parts, which this library only
/// carries.
#[derive(Clone, Copy, Debug, PartialEq, Eq, Structural)]
pub struct FractalParams {
    pub width: u32,
    pub height: u32,
    pub c_re_bits: u32,
    pub c_im_bits: u32,
    pub max_iter: u8,
}

impl FractalParams {
    /// The reference image: 800 by 800 pixels, `c = -0.4 + 0.6i`, at most
    /// 255 iterations.
    pub open spec fn reference_spec() -> FractalParams {
        FractalParams {
            width: 800,
            height: 800,
            c_re_bits: 0xBECC_CCCD,
            c_im_bits: 0x3F19_999A,
            max_iter: 255,
        }
    }

    /// The parameters of the reference image.
    pub fn reference() -> (params: FractalParams)
        ensures
            params == Self::reference_spec(),
    {
        FractalParams {
            width: 800,
            height: 800,
            c_re_bits: 0xBECC_CCCD,
            c_im_bits: 0x3F19_999A,
            max_iter: 255,
        }
    }
}

/// The background gradient at a coordinate: three tenths of it, rounded
/// down, kept modulo 256.
pub open spec fn gradient_spec(coord: int) -> u8 {
    ((3 * coord / 10) % 256) as u8
}

/// The background gradient at a coordinate.
pub fn gradient(coord: u32) -> (shade: u8)
    ensures
        shade == gradient_spec(coord as int),
{
    let scaled: u64 = 3 * (coord as u64) / 10;
    (scaled % 256) as u8
}

/// What to do after looking at one point of an orbit.
#[derive(Clone, Copy, Debug, PartialEq, Eq, Structural)]
pub enum EscapeStep {
    /// The point is within the radius and the bound is not reached: advance
    /// the orbit; `count` iterations have then been made.
    Iterate { count: u8 },
    /// Stop: `green` iterations were made.
    Settled { green: u8 },
}

/// The escape rule: iterate while fewer than `max_iter` iterations were made
/// and the current point lies within the radius.
pub open spec fn escape_step_spec(count: u8, max_iter: u8, within: bool) -> EscapeStep {
    if count < max_iter && within {
        EscapeStep::Iterate { count: (count + 1) as u8 }
    } else {
        EscapeStep::Settled { green: count }
    }
}

/// Decides one step of the escape-time iteration. `within` says whether the
/// current point of the orbit has a magnitude of at most 2.
pub fn escape_step(count: u8, max_iter: u8, within: bool) -> (step: EscapeStep)
    ensures
        step == escape_step_spec(count, max_iter, within),
{
    if count < max_iter && within {
        EscapeStep::Iterate { count: count + 1 }
    } else {
        EscapeStep::Settled { green: count }
    }
}

/// The count at which the escape rule settles when it is driven from `count`
/// along an orbit; `within(n)` says whether the orbit's point `n` lies within
/// the radius.
pub open spec fn escape_count_from(count: u8, max_iter: u8, within: spec_fn(nat) -> bool) -> u8
    decreases max_iter - count,
{
    match escape_step_spec(count, max_iter, within(count as nat)) {
        EscapeStep::Iterate { count: next } => escape_count_from(next, max_iter, within),
        EscapeStep::Settled { green } => green,
    }
}

/// The green value of a pixel: the count at which the rule settles from 0.
pub open spec fn escape_count(max_iter: u8, within: spec_fn(nat) -> bool) -> u8 {
    escape_count_from(0, max_iter, within)
}

/// Driven from `count`, the rule settles at the first `n >= count` that is
/// the bound or whose point is outside the radius.
pub proof fn lemma_escape_count_from(count: u8, max_iter: u8, within: spec_fn(nat) -> bool)
    requires
        count <= max_iter,
    ensures
        count <= escape_count_from(count, max_iter, within) <= max_iter,
        forall|n: nat|
            count <= n < escape_count_from(count, max_iter, within) ==> #[trigger] within(n),
        escape_count_from(count, max_iter, within) < max_iter ==> !within(
            escape_count_from(count, max_iter, within) as nat,
        ),
    decreases max_iter - count,
{
    if count < max_iter && within(count as nat) {
        lemma_escape_count_from((count + 1) as u8, max_iter, within);
    }
}

/// The green value is the number of iterations made until the orbit leaves
/// the radius or the bound is reached: every earlier point is within the
/// radius, and below the bound the point at the count is outside it.
pub proof fn lemma_escape_count_is_first_exit(max_iter: u8, within: spec_fn(nat) -> bool)
    ensures
        escape_count(max_iter, within) <= max_iter,
        forall|n: nat| n < escape_count(max_iter, within) ==> #[trigger] within(n),
        escape_count(max_iter, within) < max_iter ==> !within(
            escape_count(max_iter, within) as nat,
        ),
{
    lemma_escape_count_from(0, max_iter, within);
}

/// The pixel of the fractal at `(x, y)`: the gradient of `x` in red, the
/// escape count of the pixel in green, the gradient of `y` in blue. The
/// counts are laid out row by row.
pub open spec fn fractal_pixel(width: nat, escapes: Seq<u8>, at: (int, int)) -> (u8, u8, u8) {
    (gradient_spec(at.0), escapes[at.1 * width + at.0], gradient_spec(at.1))
}

/// The whole fractal picture for a table of escape counts.
pub open spec fn fractal_picture(width: nat, height: nat, escapes: Seq<u8>) -> Picture {
    painted(width, height, |at: (int, int)| fractal_pixel(width, escapes, at))
}

/// The index of `(x, y)` in a row-major table lies inside the table.
pub proof fn lemma_row_major_index(x: int, y: int, width: int, height: int)
    requires
        0 <= x < width,
        0 <= y < height,
    ensures
        0 <= y * width + x < width * height,
{
    assert(0 <= y * width) by (nonlinear_arith)
        requires
            0 <= y,
            0 <= width,
    ;
    assert((y + 1) * width == y * width + width) by (nonlinear_arith);
    assert((y + 1) * width <= height * width) by (nonlinear_arith)
        requires
            y + 1 <= height,
            0 <= width,
    ;
    assert(height * width == width * height) by (nonlinear_arith);
}

/// What painting the fractal returns: nothing where the table does not
/// hold one count for each pixel, else an image that holds the fractal
/// picture.
pub open spec fn is_synthesis(
    width: u32,
    height: u32,
    escapes: Seq<u8>,
    out: Option<image::DynamicImage>,
) -> bool {
    if escapes.len() == width * height {
        out matches Some(img) && picture_of(img) == fractal_picture(
            width as nat,
            height as nat,
            escapes,
        )
    } else {
        out is None
    }
}

/// Painting is deterministic: whatever two runs on the same size and the
/// same counts return, both fail or both succeed, and then the two images
/// hold the same layout, the same size and the same samples.
pub proof fn lemma_synthesis_deterministic(
    width: u32,
    height: u32,
    escapes: Seq<u8>,
    first: Option<image::DynamicImage>,
    second: Option<image::DynamicImage>,
)
    requires
        is_synthesis(width, height, escapes, first),
        is_synthesis(width, height, escapes, second),
    ensures
        first is Some <==> second is Some,
        first is Some ==> picture_of(first.unwrap()) == picture_of(second.unwrap()),
{
}

/// Paints the fractal of the given size from the escape counts of its
/// pixels, `escapes[y * width + x]` being the count of pixel `(x, y)`.
/// Returns `None` exactly when the table does not hold one count for each
/// pixel.
pub fn synthesize_fractal(width: u32, height: u32, escapes: &Vec<u8>) -> (out: Option<
    image::DynamicImage,
>)
    requires
        canvas_fits(width, height),
    ensures
        is_synthesis(width, height, escapes@, out),
{
    assert(width * height <= 0xFFFF_FFFF * 0xFFFF_FFFF) by (nonlinear_arith)
        requires
            0 <= width <= 0xFFFF_FFFF,
            0 <= height <= 0xFFFF_FFFF,
    ;
    let total: u64 = (width as u64) * (height as u64);
    if escapes.len() as u64 != total {
        return None;
    }
    let ghost paint = |at: (int, int)| fractal_pixel(width as nat, escapes@, at);
    let mut canvas = Canvas::blank(width, height);
    let mut index: usize = 0;
    let mut y: u32 = 0;
    while y < height
        invariant
            y <= height,
            escapes@.len() == width * height,
            index == y * width,
            is_grid(canvas, width, height),
            painted_before(canvas, paint, 0, y as int),
            paint == (|at: (int, int)| fractal_pixel(width as nat, escapes@, at)),
        decreases height - y,
    {
        let blue = gradient(y);
        let mut x: u32 = 0;
        while x < width
            invariant
                x <= width,
                y < height,
                escapes@.len() == width * height,
                index == y * width + x,
                blue == gradient_spec(y as int),
                is_grid(canvas, width, height),
                painted_before(canvas, paint, x as int, y as int),
                paint == (|at: (int, int)| fractal_pixel(width as nat, escapes@, at)),
            decreases width - x,
        {
            proof {
                lemma_row_major_index(x as int, y as int, width as int, height as int);
            }
            assert(index < escapes.len());
            let green = escapes[index];
            canvas.put(x, y, (gradient(x), green, blue));
            index = index + 1;
            x = x + 1;
        }
        proof {
            assert((y + 1) * width == y * width + width) by (nonlinear_arith);
        }
        y = y + 1;
    }
    proof {
        lemma_painted_canvas(
            canvas,
            width,
            height,
            paint,
            canvas_pixels(canvas).map_values(|colour: (u8, u8, u8)| rgb_samples(colour)),
        );
    }
    Some(canvas.into_image())
}

/// Paints the reference fractal, 800 by 800 pixels, from its escape counts.
pub fn fractal(escapes: &Vec<u8>) -> (out: Option<image::DynamicImage>)
    ensures
        is_synthesis(800, 800, escapes@, out),
{
    synthesize_fractal(800, 800, escapes)
}

} // verus!
