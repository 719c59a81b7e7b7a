//! The transforms of the pipeline and what each one makes of a picture.
//!
//! The pixel work is done by the `image` crate. What it returns is stated
//! here pixel by pixel, but for the reduction to luminance, which it
//! computes in floating point and which is only named.

use crate::picture::{colour_samples, in_grid, painted, picture_of, rgb_samples, samples_per_pixel, Layout, Picture};
use vstd::prelude::*;

verus! {

/// A clockwise rotation by a multiple of a quarter turn.
#[derive(Clone, Copy, Debug, PartialEq, Eq, Structural)]
pub enum Rotation {
    /// 90 degrees.
    Quarter,
    /// 180 degrees.
    Half,
    /// 270 degrees.
    ThreeQuarters,
}

/// The bounding rectangle of a crop: its top-left corner and its size.
#[derive(Clone, Copy, Debug, PartialEq, Eq, Structural)]
pub struct CropRect {
    pub x: u32,
    pub y: u32,
    pub width: u32,
    pub height: u32,
}

/// One enabled operation with its parameters.
#[derive(Clone, Copy, Debug, PartialEq, Eq, Structural)]
pub enum Transform {
    /// Gaussian blur; the amount is a single-precision number held by its
    /// bit pattern.
    Blur(u32),
    /// Add the amount to every colour sample, saturating.
    Brighten(i32),
    /// Cut out a rectangle.
    Crop(CropRect),
    /// Rotate clockwise.
    Rotate(Rotation),
    /// Invert the colours.
    Invert,
    /// Reduce to luminance.
    Grayscale,
}

/// A sum of a sample and an amount, kept within 0 and 255.
pub open spec fn clamp_sample(value: int) -> u8 {
    if value < 0 {
        0
    } else if value > 255 {
        255
    } else {
        value as u8
    }
}

/// A pixel after brightening: the amount is added to every colour sample,
/// saturating; the alpha sample stays.
pub open spec fn brightened_pixel(layout: Layout, samples: Seq<u8>, amount: int) -> Seq<u8> {
    Seq::new(
        samples.len(),
        |i: int|
            if i < colour_samples(layout) {
                clamp_sample(samples[i] + amount)
            } else {
                samples[i]
            },
    )
}

/// The picture that `DynamicImage::brighten` makes of a picture: the same
/// layout and size, every pixel brightened.
pub open spec fn brightened(p: Picture, amount: int) -> Picture {
    Picture {
        layout: p.layout,
        width: p.width,
        height: p.height,
        pixels: Map::new(
            |at: (int, int)| in_grid(at, p.width, p.height),
            |at: (int, int)| brightened_pixel(p.layout, p.pixels[at], amount),
        ),
    }
}

/// A pixel after inversion: every colour sample becomes 255 minus itself,
/// the alpha sample stays. In the blue-green-red-alpha layout the first and
/// the third sample also change places.
pub open spec fn inverted_pixel(layout: Layout, samples: Seq<u8>) -> Seq<u8> {
    if layout == Layout::Bgra8 {
        seq![
            (255 - samples[2]) as u8,
            (255 - samples[1]) as u8,
            (255 - samples[0]) as u8,
            samples[3],
        ]
    } else {
        Seq::new(
            samples.len(),
            |i: int|
                if i < colour_samples(layout) {
                    (255 - samples[i]) as u8
                } else {
                    samples[i]
                },
        )
    }
}

/// The picture that `DynamicImage::invert` makes of a picture: the same
/// layout and size, every pixel inverted.
pub open spec fn inverted(p: Picture) -> Picture {
    Picture {
        layout: p.layout,
        width: p.width,
        height: p.height,
        pixels: Map::new(
            |at: (int, int)| in_grid(at, p.width, p.height),
            |at: (int, int)| inverted_pixel(p.layout, p.pixels[at]),
        ),
    }
}

/// The smaller of two numbers.
pub open spec fn least(a: int, b: int) -> int {
    if a < b {
        a
    } else {
        b
    }
}

/// The picture that `DynamicImage::crop` makes of a picture: the corner is
/// moved into the image, the size is cut down to what is left from there,
/// and the pixels inside are copied.
pub open spec fn cropped(p: Picture, x: int, y: int, width: int, height: int) -> Picture {
    let left = least(x, p.width as int);
    let top = least(y, p.height as int);
    let wide = least(width, p.width - left) as nat;
    let high = least(height, p.height - top) as nat;
    Picture {
        layout: p.layout,
        width: wide,
        height: high,
        pixels: Map::new(
            |at: (int, int)| in_grid(at, wide, high),
            |at: (int, int)| p.pixels[(at.0 + left, at.1 + top)],
        ),
    }
}

/// The picture that `DynamicImage::rotate90` makes of a picture: width and
/// height change places, and the pixel of `(x, y)` goes to
/// `(height - 1 - y, x)`.
pub open spec fn rotated90(p: Picture) -> Picture {
    Picture {
        layout: p.layout,
        width: p.height,
        height: p.width,
        pixels: Map::new(
            |at: (int, int)| in_grid(at, p.height, p.width),
            |at: (int, int)| p.pixels[(at.1, p.height - 1 - at.0)],
        ),
    }
}

/// The picture that `DynamicImage::rotate180` makes of a picture: the same
/// size, and the pixel of `(x, y)` goes to `(width - 1 - x, height - 1 - y)`.
pub open spec fn rotated180(p: Picture) -> Picture {
    Picture {
        layout: p.layout,
        width: p.width,
        height: p.height,
        pixels: Map::new(
            |at: (int, int)| in_grid(at, p.width, p.height),
            |at: (int, int)| p.pixels[(p.width - 1 - at.0, p.height - 1 - at.1)],
        ),
    }
}

/// The picture that `DynamicImage::rotate270` makes of a picture: width and
/// height change places, and the pixel of `(x, y)` goes to
/// `(y, width - 1 - x)`.
pub open spec fn rotated270(p: Picture) -> Picture {
    Picture {
        layout: p.layout,
        width: p.height,
        height: p.width,
        pixels: Map::new(
            |at: (int, int)| in_grid(at, p.height, p.width),
            |at: (int, int)| p.pixels[(p.width - 1 - at.1, at.0)],
        ),
    }
}

/// The picture that `DynamicImage::grayscale` makes of a picture.
pub uninterp spec fn grayscaled(p: Picture) -> Picture;

/// Whether a quarter turn of the picture can be allocated. The turned
/// buffer is made with the height first: the sample count of one row of it
/// must not overflow. Where the picture has a column, its own buffer shows
/// that it does not.
pub open spec fn turn_fits(p: Picture) -> bool {
    p.width > 0 || samples_per_pixel(p.layout) * p.height <= usize::MAX
}

/// The largest amount that can be added to a sample without leaving `i32`.
pub const MAX_BRIGHTENING: i32 = 2147483392;

/// Calls `GenericImageView::dimensions` of the image.
#[verifier::external_body]
fn dimensions_of(img: &image::DynamicImage) -> (size: (u32, u32))
    ensures
        size.0 == picture_of(*img).width,
        size.1 == picture_of(*img).height,
{
    image::GenericImageView::dimensions(img)
}

/// Tells the six variants of `DynamicImage` apart.
#[verifier::external_body]
fn layout_of(img: &image::DynamicImage) -> (layout: Layout)
    ensures
        layout == picture_of(*img).layout,
{
    match img {
        image::DynamicImage::ImageLuma8(_) => Layout::Luma8,
        image::DynamicImage::ImageLumaA8(_) => Layout::LumaA8,
        image::DynamicImage::ImageRgb8(_) => Layout::Rgb8,
        image::DynamicImage::ImageRgba8(_) => Layout::Rgba8,
        image::DynamicImage::ImageBgr8(_) => Layout::Bgr8,
        image::DynamicImage::ImageBgra8(_) => Layout::Bgra8,
    }
}

/// Calls `DynamicImage::brighten`. The outside function adds the amount to
/// each colour sample in `i32` and clamps the sum to 0 and 255; amounts
/// above `MAX_BRIGHTENING`, whose sum would overflow, are left out.
#[verifier::external_body]
fn brighten_image(img: &image::DynamicImage, amount: i32) -> (out: image::DynamicImage)
    requires
        amount <= MAX_BRIGHTENING,
    ensures
        picture_of(out) == brightened(picture_of(*img), amount as int),
{
    img.brighten(amount)
}

/// Calls `DynamicImage::crop`, which clamps the rectangle to the image and
/// copies what is inside it.
#[verifier::external_body]
fn crop_image(img: image::DynamicImage, x: u32, y: u32, width: u32, height: u32) -> (out:
    image::DynamicImage)
    ensures
        picture_of(out) == cropped(
            picture_of(img),
            x as int,
            y as int,
            width as int,
            height as int,
        ),
{
    let mut img = img;
    img.crop(x, y, width, height)
}

/// Calls `DynamicImage::rotate90`. The outside function allocates the
/// turned buffer and panics where its sample count overflows; `turn_fits`
/// leaves those pictures out.
#[verifier::external_body]
fn rotate90_image(img: &image::DynamicImage) -> (out: image::DynamicImage)
    requires
        turn_fits(picture_of(*img)),
    ensures
        picture_of(out) == rotated90(picture_of(*img)),
{
    img.rotate90()
}

/// Calls `DynamicImage::rotate180`.
#[verifier::external_body]
fn rotate180_image(img: &image::DynamicImage) -> (out: image::DynamicImage)
    ensures
        picture_of(out) == rotated180(picture_of(*img)),
{
    img.rotate180()
}

/// Calls `DynamicImage::rotate270`. The outside function allocates the
/// turned buffer and panics where its sample count overflows; `turn_fits`
/// leaves those pictures out.
#[verifier::external_body]
fn rotate270_image(img: &image::DynamicImage) -> (out: image::DynamicImage)
    requires
        turn_fits(picture_of(*img)),
    ensures
        picture_of(out) == rotated270(picture_of(*img)),
{
    img.rotate270()
}

/// Calls `DynamicImage::invert`, which works in place.
#[verifier::external_body]
fn invert_image(img: image::DynamicImage) -> (out: image::DynamicImage)
    ensures
        picture_of(out) == inverted(picture_of(img)),
{
    let mut img = img;
    img.invert();
    img
}

/// Calls `DynamicImage::grayscale`.
#[verifier::external_body]
fn grayscale_image(img: &image::DynamicImage) -> (out: image::DynamicImage)
    ensures
        picture_of(out) == grayscaled(picture_of(*img)),
{
    img.grayscale()
}

/// The picture after a rotation; none where a quarter or three-quarter
/// turn cannot be allocated.
pub open spec fn turned(p: Picture, rotation: Rotation) -> Option<Picture> {
    match rotation {
        Rotation::Quarter => if turn_fits(p) {
            Some(rotated90(p))
        } else {
            None
        },
        Rotation::Half => Some(rotated180(p)),
        Rotation::ThreeQuarters => if turn_fits(p) {
            Some(rotated270(p))
        } else {
            None
        },
    }
}

/// The picture after a rotation by an angle in degrees: turned for 90, 180
/// and 270, unchanged for every other angle.
pub open spec fn rotated_by(p: Picture, angle: i32) -> Option<Picture> {
    match Rotation::from_degrees_spec(angle) {
        Some(rotation) => turned(p, rotation),
        None => Some(p),
    }
}

impl Rotation {
    /// The angle in degrees.
    pub open spec fn degrees_spec(self) -> i32 {
        match self {
            Rotation::Quarter => 90,
            Rotation::Half => 180,
            Rotation::ThreeQuarters => 270,
        }
    }

    /// The rotation by the given angle, for the three angles that have one.
    pub open spec fn from_degrees_spec(angle: i32) -> Option<Rotation> {
        if angle == 90 {
            Some(Rotation::Quarter)
        } else if angle == 180 {
            Some(Rotation::Half)
        } else if angle == 270 {
            Some(Rotation::ThreeQuarters)
        } else {
            None
        }
    }

    /// The angle in degrees.
    pub fn degrees(self) -> (angle: i32)
        ensures
            angle == self.degrees_spec(),
    {
        match self {
            Rotation::Quarter => 90,
            Rotation::Half => 180,
            Rotation::ThreeQuarters => 270,
        }
    }

    /// An angle read back from a rotation is that rotation's own.
    pub proof fn lemma_degrees_round_trip(self)
        ensures
            Self::from_degrees_spec(self.degrees_spec()) == Some(self),
    {
    }

    /// The rotation by `angle` degrees; `None` unless the angle is 90, 180
    /// or 270.
    pub fn from_degrees(angle: i32) -> (rotation: Option<Rotation>)
        ensures
            rotation == Self::from_degrees_spec(angle),
    {
        if angle == 90 {
            Some(Rotation::Quarter)
        } else if angle == 180 {
            Some(Rotation::Half)
        } else if angle == 270 {
            Some(Rotation::ThreeQuarters)
        } else {
            None
        }
    }
}

/// Amounts from 255 up all brighten a picture to the same one.
pub proof fn lemma_brightening_saturates(p: Picture, first: int, second: int)
    requires
        first >= 255,
        second >= 255,
    ensures
        brightened(p, first) == brightened(p, second),
{
    assert forall|at: (int, int)| in_grid(at, p.width, p.height) implies brightened_pixel(
        p.layout,
        p.pixels[at],
        first,
    ) == brightened_pixel(p.layout, p.pixels[at], second) by {
        assert(brightened_pixel(p.layout, p.pixels[at], first) =~= brightened_pixel(
            p.layout,
            p.pixels[at],
            second,
        ));
    }
    assert(brightened(p, first).pixels =~= brightened(p, second).pixels);
}

/// Brightening a painted picture adds the amount to each of its three
/// samples and saturates at 0 and 255.
pub proof fn lemma_brightened_painted(
    width: nat,
    height: nat,
    paint: spec_fn((int, int)) -> (u8, u8, u8),
    amount: int,
)
    ensures
        brightened(painted(width, height, paint), amount) == painted(
            width,
            height,
            |at: (int, int)|
                (
                    clamp_sample(paint(at).0 + amount),
                    clamp_sample(paint(at).1 + amount),
                    clamp_sample(paint(at).2 + amount),
                ),
        ),
{
    let before = painted(width, height, paint);
    let after = painted(
        width,
        height,
        |at: (int, int)|
            (
                clamp_sample(paint(at).0 + amount),
                clamp_sample(paint(at).1 + amount),
                clamp_sample(paint(at).2 + amount),
            ),
    );
    assert forall|at: (int, int)| in_grid(at, width, height) implies #[trigger] brightened(
        before,
        amount,
    ).pixels[at] == after.pixels[at] by {
        assert(before.pixels[at] == rgb_samples(paint(at)));
        assert(brightened_pixel(Layout::Rgb8, rgb_samples(paint(at)), amount) =~= after.pixels[at]);
    }
    assert(brightened(before, amount).pixels =~= after.pixels);
}

/// Inverting a painted picture turns each of its three samples into 255
/// minus itself: black becomes white.
pub proof fn lemma_inverted_painted(
    width: nat,
    height: nat,
    paint: spec_fn((int, int)) -> (u8, u8, u8),
)
    ensures
        inverted(painted(width, height, paint)) == painted(
            width,
            height,
            |at: (int, int)|
                (
                    (255 - paint(at).0) as u8,
                    (255 - paint(at).1) as u8,
                    (255 - paint(at).2) as u8,
                ),
        ),
{
    let before = painted(width, height, paint);
    let after = painted(
        width,
        height,
        |at: (int, int)|
            ((255 - paint(at).0) as u8, (255 - paint(at).1) as u8, (255 - paint(at).2) as u8),
    );
    assert forall|at: (int, int)| in_grid(at, width, height) implies #[trigger] inverted(
        before,
    ).pixels[at] == after.pixels[at] by {
        assert(before.pixels[at] == rgb_samples(paint(at)));
        assert(inverted_pixel(Layout::Rgb8, rgb_samples(paint(at))) =~= after.pixels[at]);
    }
    assert(inverted(before).pixels =~= after.pixels);
}

/// Tells whether a quarter turn of the image can be allocated.
pub fn can_turn(img: &image::DynamicImage) -> (fits: bool)
    ensures
        fits == turn_fits(picture_of(*img)),
{
    let (width, height) = dimensions_of(img);
    if width > 0 {
        return true;
    }
    let samples: u64 = match layout_of(img) {
        Layout::Luma8 => 1,
        Layout::LumaA8 => 2,
        Layout::Rgb8 => 3,
        Layout::Rgba8 => 4,
        Layout::Bgr8 => 3,
        Layout::Bgra8 => 4,
    };
    assert(samples * height == samples_per_pixel(picture_of(*img).layout) * picture_of(
        *img,
    ).height);
    assert(samples * height <= 4 * 0xFFFF_FFFF) by (nonlinear_arith)
        requires
            0 <= samples <= 4,
            0 <= height <= 0xFFFF_FFFF,
    ;
    samples * (height as u64) <= usize::MAX as u64
}

/// Brightens the image by `amount`: the amount is added to every colour
/// sample, saturating at 0 and 255. Negative amounts darken it.
pub fn brighten(img: image::DynamicImage, amount: i32) -> (out: image::DynamicImage)
    ensures
        picture_of(out) == brightened(picture_of(img), amount as int),
{
    if amount > MAX_BRIGHTENING {
        proof {
            lemma_brightening_saturates(picture_of(img), amount as int, MAX_BRIGHTENING as int);
        }
        brighten_image(&img, MAX_BRIGHTENING)
    } else {
        brighten_image(&img, amount)
    }
}

/// Cuts the rectangle out of the image.
pub fn crop(img: image::DynamicImage, rect: CropRect) -> (out: image::DynamicImage)
    ensures
        picture_of(out) == cropped(
            picture_of(img),
            rect.x as int,
            rect.y as int,
            rect.width as int,
            rect.height as int,
        ),
{
    crop_image(img, rect.x, rect.y, rect.width, rect.height)
}

/// Rotates the image clockwise by 90, 180 or 270 degrees; any other angle
/// leaves it as it is. Returns `None` exactly when the angle is 90 or 270
/// and the turned image cannot be allocated.
pub fn rotate(img: image::DynamicImage, rotation: i32) -> (out: Option<image::DynamicImage>)
    ensures
        match rotated_by(picture_of(img), rotation) {
            Some(p) => out matches Some(turned) && picture_of(turned) == p,
            None => out is None,
        },
{
    match Rotation::from_degrees(rotation) {
        Some(Rotation::Quarter) => if can_turn(&img) {
            Some(rotate90_image(&img))
        } else {
            None
        },
        Some(Rotation::Half) => Some(rotate180_image(&img)),
        Some(Rotation::ThreeQuarters) => if can_turn(&img) {
            Some(rotate270_image(&img))
        } else {
            None
        },
        None => Some(img),
    }
}

/// Inverts the colours of the image.
pub fn invert(img: image::DynamicImage) -> (out: image::DynamicImage)
    ensures
        picture_of(out) == inverted(picture_of(img)),
{
    invert_image(img)
}

/// Reduces the image to luminance.
pub fn grayscale(img: image::DynamicImage) -> (out: image::DynamicImage)
    ensures
        picture_of(out) == grayscaled(picture_of(img)),
{
    grayscale_image(&img)
}

} // verus!
