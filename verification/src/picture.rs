//! The mathematical model of an image: its layout, its size and the samples
//! of every pixel.

use vstd::prelude::*;

verus! {

/// `image::DynamicImage`, carried through the library as an opaque value.
/// Everything the contracts say of one goes through [`picture_of`].
#[verifier::external_type_specification]
#[verifier::external_body]
pub struct ExDynamicImage(image::DynamicImage);

/// Which samples a pixel is made of, one case for each variant of
/// `image::DynamicImage`.
#[derive(Clone, Copy, Debug, PartialEq, Eq, Structural)]
pub enum Layout {
    /// One 8-bit luminance sample.
    Luma8,
    /// Luminance and alpha.
    LumaA8,
    /// Red, green, blue.
    Rgb8,
    /// Red, green, blue, alpha.
    Rgba8,
    /// Blue, green, red.
    Bgr8,
    /// Blue, green, red, alpha.
    Bgra8,
}

/// What an image holds: the layout of its pixels, its size, and for every
/// coordinate `(x, y)` inside it the samples of that pixel in layout order.
/// The domain of `pixels` is the set of coordinates inside the image, and
/// each pixel has as many samples as its layout says.
pub struct Picture {
    pub layout: Layout,
    pub width: nat,
    pub height: nat,
    pub pixels: Map<(int, int), Seq<u8>>,
}

/// The picture that an image value holds: `layout` is the variant of the
/// `DynamicImage`, `width` and `height` are its `dimensions()`, and
/// `pixels[(x, y)]` are the channels of the pixel that its buffer returns for
/// `get_pixel(x, y)`.
pub uninterp spec fn picture_of(img: image::DynamicImage) -> Picture;

/// How many samples a pixel of the layout has.
pub open spec fn samples_per_pixel(layout: Layout) -> nat {
    match layout {
        Layout::Luma8 => 1,
        Layout::LumaA8 => 2,
        Layout::Rgb8 => 3,
        Layout::Rgba8 => 4,
        Layout::Bgr8 => 3,
        Layout::Bgra8 => 4,
    }
}

/// How many of them are colour: all but the alpha sample, which comes last
/// where the layout has one.
pub open spec fn colour_samples(layout: Layout) -> nat {
    match layout {
        Layout::Luma8 => 1,
        Layout::LumaA8 => 1,
        Layout::Rgb8 => 3,
        Layout::Rgba8 => 3,
        Layout::Bgr8 => 3,
        Layout::Bgra8 => 3,
    }
}

/// Whether `(x, y)` lies inside a grid of the given size.
pub open spec fn in_grid(at: (int, int), width: nat, height: nat) -> bool {
    0 <= at.0 < width && 0 <= at.1 < height
}

/// The samples of a red-green-blue pixel, in layout order.
pub open spec fn rgb_samples(colour: (u8, u8, u8)) -> Seq<u8> {
    seq![colour.0, colour.1, colour.2]
}

/// The red-green-blue picture of the given size whose pixel at `(x, y)` is
/// `paint((x, y))`.
pub open spec fn painted(
    width: nat,
    height: nat,
    paint: spec_fn((int, int)) -> (u8, u8, u8),
) -> Picture {
    Picture {
        layout: Layout::Rgb8,
        width,
        height,
        pixels: Map::new(
            |at: (int, int)| in_grid(at, width, height),
            |at: (int, int)| rgb_samples(paint(at)),
        ),
    }
}

} // verus!
