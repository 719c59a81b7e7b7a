//! The argument resolver: from the flags of one invocation to the one thing
//! it asks for, or to the error that names what is wrong with them.

use crate::fractal::FractalParams;
use crate::numeral::{i32_of, parse_i32, parse_u32, parse_u8, u32_of, u8_of};
use crate::request::{canonical_ops, is_canonical, TransformRequest};
use crate::transform::{CropRect, Rotation, Transform};
use vstd::prelude::*;

verus! {

/// A flag of the command line that takes a value.
#[derive(Clone, Copy, Debug, PartialEq, Eq, Structural)]
pub enum Flag {
    Input,
    Output,
    Blur,
    Brighten,
    Crop,
    Rotate,
    Generate,
}

/// Why a command line was turned down.
#[derive(Clone, Copy, Debug, PartialEq, Eq, Structural)]
pub enum ResolveError {
    /// The value of the flag is missing or malformed.
    UsageError(Flag),
    /// There are not as many output paths as input paths.
    MismatchedPathCountError { inputs: usize, outputs: usize },
}

/// The value given for the blur flag. The caller reads it as a
/// single-precision number and hands on its bit pattern, or says that the
/// text was no such number.
#[derive(Clone, Copy, Debug, PartialEq, Eq, Structural)]
pub enum BlurArg {
    Absent,
    Malformed,
    Amount(u32),
}

/// The flags of one invocation with their values as they were written.
#[derive(Debug)]
pub struct RawArgs {
    /// The input paths; empty where the flag is absent.
    pub inputs: Vec<String>,
    /// The output paths; empty where the flag is absent.
    pub outputs: Vec<String>,
    pub blur: BlurArg,
    pub brighten: Option<String>,
    pub crop: Option<Vec<String>>,
    pub rotate: Option<String>,
    pub invert: bool,
    pub grayscale: bool,
    pub fractal: bool,
    pub generate: Option<Vec<String>>,
}

/// What an invocation asks for.
#[derive(Debug, PartialEq, Eq)]
pub enum Directive {
    /// Fill a canvas with one colour and write it to `output`.
    Generate { colour: (u8, u8, u8), output: String, defaulted: bool },
    /// Render the fractal and write it to `output`.
    Fractal { params: FractalParams, output: String, defaulted: bool },
    /// Run the request over each input and write the result to the output
    /// at the same position.
    Transform { inputs: Vec<String>, outputs: Vec<String>, request: TransformRequest },
}

/// The mathematical content of a [`Directive`].
pub enum DirectiveView {
    Generate { colour: (u8, u8, u8), output: Seq<char>, defaulted: bool },
    Fractal { params: FractalParams, output: Seq<char>, defaulted: bool },
    Transform { inputs: Seq<Seq<char>>, outputs: Seq<Seq<char>>, ops: Seq<Transform> },
}

impl View for Directive {
    type V = DirectiveView;

    open spec fn view(&self) -> DirectiveView {
        match *self {
            Directive::Generate { colour, output, defaulted } => DirectiveView::Generate {
                colour,
                output: output@,
                defaulted,
            },
            Directive::Fractal { params, output, defaulted } => DirectiveView::Fractal {
                params,
                output: output@,
                defaulted,
            },
            Directive::Transform { inputs, outputs, request } => DirectiveView::Transform {
                inputs: inputs.deep_view(),
                outputs: outputs.deep_view(),
                ops: request@,
            },
        }
    }
}

/// The file that a solid fill is written to when no output path is given.
pub open spec fn default_fill_name() -> Seq<char> {
    "gen_bg.jpg"@
}

/// The file that the fractal is written to when no output path is given.
pub open spec fn default_fractal_name() -> Seq<char> {
    "fractal.jpg"@
}

/// The colour that the values of the generate flag write: exactly three
/// numbers from 0 to 255.
pub open spec fn colour_of(values: Seq<Seq<char>>) -> Option<(u8, u8, u8)> {
    if values.len() == 3 && u8_of(values[0]) is Some && u8_of(values[1]) is Some && u8_of(
        values[2],
    ) is Some {
        Some((u8_of(values[0]).unwrap(), u8_of(values[1]).unwrap(), u8_of(values[2]).unwrap()))
    } else {
        None
    }
}

/// The rectangle that the values of the crop flag write: exactly four
/// unsigned numbers, `x`, `y`, width and height.
pub open spec fn crop_of(values: Seq<Seq<char>>) -> Option<CropRect> {
    if values.len() == 4 && u32_of(values[0]) is Some && u32_of(values[1]) is Some && u32_of(
        values[2],
    ) is Some && u32_of(values[3]) is Some {
        Some(
            CropRect {
                x: u32_of(values[0]).unwrap(),
                y: u32_of(values[1]).unwrap(),
                width: u32_of(values[2]).unwrap(),
                height: u32_of(values[3]).unwrap(),
            },
        )
    } else {
        None
    }
}

/// The rotation that the value of the rotate flag writes: `90`, `180` or
/// `270`, written just so.
pub open spec fn rotation_of(text: Seq<char>) -> Option<Rotation> {
    if text == seq!['9', '0'] {
        Some(Rotation::Quarter)
    } else if text == seq!['1', '8', '0'] {
        Some(Rotation::Half)
    } else if text == seq!['2', '7', '0'] {
        Some(Rotation::ThreeQuarters)
    } else {
        None
    }
}

/// The first output path, or the default where there is none.
pub open spec fn output_of(outputs: Seq<Seq<char>>, default_name: Seq<char>) -> Seq<char> {
    if outputs.len() > 0 {
        outputs[0]
    } else {
        default_name
    }
}

/// The blur amount that the blur flag gives.
pub open spec fn blur_amount_of(blur: BlurArg) -> Option<u32> {
    match blur {
        BlurArg::Amount(bits) => Some(bits),
        _ => None,
    }
}

/// The first flag of a transforming invocation whose value is missing or
/// malformed, looking at the paths first and then at the transforms in
/// their fixed order; a path count that does not match comes between the
/// two.
pub open spec fn transform_fault(raw: RawArgs) -> Option<ResolveError> {
    if raw.inputs@.len() == 0 {
        Some(ResolveError::UsageError(Flag::Input))
    } else if raw.outputs@.len() == 0 {
        Some(ResolveError::UsageError(Flag::Output))
    } else if raw.inputs@.len() != raw.outputs@.len() {
        Some(
            ResolveError::MismatchedPathCountError {
                inputs: raw.inputs@.len() as usize,
                outputs: raw.outputs@.len() as usize,
            },
        )
    } else if raw.blur is Malformed {
        Some(ResolveError::UsageError(Flag::Blur))
    } else if raw.brighten matches Some(text) && i32_of(text@) is None {
        Some(ResolveError::UsageError(Flag::Brighten))
    } else if raw.crop matches Some(values) && crop_of(values.deep_view()) is None {
        Some(ResolveError::UsageError(Flag::Crop))
    } else if raw.rotate matches Some(text) && rotation_of(text@) is None {
        Some(ResolveError::UsageError(Flag::Rotate))
    } else {
        None
    }
}

/// The transforms that the flags of a well-formed transforming invocation
/// enable, in the fixed order.
pub open spec fn requested_ops(raw: RawArgs) -> Seq<Transform> {
    canonical_ops(
        blur_amount_of(raw.blur),
        match raw.brighten {
            Some(text) => i32_of(text@),
            None => None,
        },
        match raw.crop {
            Some(values) => crop_of(values.deep_view()),
            None => None,
        },
        match raw.rotate {
            Some(text) => rotation_of(text@),
            None => None,
        },
        raw.invert,
        raw.grayscale,
    )
}

/// What the flags resolve to. A solid fill comes before the fractal, and
/// either before any transform: their flags are then not looked at.
pub open spec fn resolution(raw: RawArgs) -> Result<DirectiveView, ResolveError> {
    match raw.generate {
        Some(values) => match colour_of(values.deep_view()) {
            Some(colour) => Ok(
                DirectiveView::Generate {
                    colour,
                    output: output_of(raw.outputs.deep_view(), default_fill_name()),
                    defaulted: raw.outputs@.len() == 0,
                },
            ),
            None => Err(ResolveError::UsageError(Flag::Generate)),
        },
        None => if raw.fractal {
            Ok(
                DirectiveView::Fractal {
                    params: FractalParams::reference_spec(),
                    output: output_of(raw.outputs.deep_view(), default_fractal_name()),
                    defaulted: raw.outputs@.len() == 0,
                },
            )
        } else {
            match transform_fault(raw) {
                Some(error) => Err(error),
                None => Ok(
                    DirectiveView::Transform {
                        inputs: raw.inputs.deep_view(),
                        outputs: raw.outputs.deep_view(),
                        ops: requested_ops(raw),
                    },
                ),
            }
        },
    }
}

/// Whether resolving looks at the rotate flag: the invocation transforms,
/// its paths are in order, and no flag before the rotate flag is at fault.
pub open spec fn rotate_is_reached(raw: RawArgs) -> bool {
    &&& raw.generate is None
    &&& !raw.fractal
    &&& raw.inputs@.len() > 0
    &&& raw.inputs@.len() == raw.outputs@.len()
    &&& !(raw.blur is Malformed)
    &&& (raw.brighten matches Some(text) ==> i32_of(text@) is Some)
    &&& (raw.crop matches Some(values) ==> crop_of(values.deep_view()) is Some)
}

/// The value of the rotate flag is read as a rotation exactly when it is
/// one of the three texts `90`, `180` and `270`.
pub proof fn lemma_rotation_texts(text: Seq<char>)
    ensures
        rotation_of(text) is Some <==> (text == seq!['9', '0'] || text == seq!['1', '8', '0']
            || text == seq!['2', '7', '0']),
{
}

/// An angle that is not 90, 180 or 270 is never resolved into a transform
/// request: where generation does not take over, the invocation is turned
/// down, and with the usage error of the rotate flag wherever resolving
/// looks at that flag.
pub proof fn lemma_unlisted_rotation_rejected(raw: RawArgs)
    requires
        raw.rotate matches Some(text) && rotation_of(text@) is None,
    ensures
        !(resolution(raw) is Ok && resolution(raw).unwrap() is Transform),
        raw.generate is None && !raw.fractal ==> resolution(raw) is Err,
        rotate_is_reached(raw) ==> resolution(raw) == Err::<DirectiveView, ResolveError>(
            ResolveError::UsageError(Flag::Rotate),
        ),
{
}

/// Reads the three values of the generate flag.
pub fn parse_colour(values: &Vec<String>) -> (colour: Option<(u8, u8, u8)>)
    ensures
        colour == colour_of(values.deep_view()),
{
    if values.len() != 3 {
        return None;
    }
    let red = parse_u8(values[0].as_str());
    let green = parse_u8(values[1].as_str());
    let blue = parse_u8(values[2].as_str());
    match (red, green, blue) {
        (Some(r), Some(g), Some(b)) => Some((r, g, b)),
        _ => None,
    }
}

/// Reads the four values of the crop flag.
pub fn parse_crop(values: &Vec<String>) -> (rect: Option<CropRect>)
    ensures
        rect == crop_of(values.deep_view()),
{
    if values.len() != 4 {
        return None;
    }
    let x = parse_u32(values[0].as_str());
    let y = parse_u32(values[1].as_str());
    let width = parse_u32(values[2].as_str());
    let height = parse_u32(values[3].as_str());
    match (x, y, width, height) {
        (Some(x), Some(y), Some(width), Some(height)) => Some(CropRect { x, y, width, height }),
        _ => None,
    }
}

/// Reads the value of the rotate flag.
pub fn parse_rotation(text: &str) -> (rotation: Option<Rotation>)
    ensures
        rotation == rotation_of(text@),
{
    let len = text.unicode_len();
    if len == 2 {
        if text.get_char(0) == '9' && text.get_char(1) == '0' {
            assert(text@ =~= seq!['9', '0']);
            return Some(Rotation::Quarter);
        }
        None
    } else if len == 3 {
        let first = text.get_char(0);
        let second = text.get_char(1);
        let third = text.get_char(2);
        if first == '1' && second == '8' && third == '0' {
            assert(text@ =~= seq!['1', '8', '0']);
            Some(Rotation::Half)
        } else if first == '2' && second == '7' && third == '0' {
            assert(text@ =~= seq!['2', '7', '0']);
            Some(Rotation::ThreeQuarters)
        } else {
            None
        }
    } else {
        None
    }
}

/// Picks the path that a generated image is written to.
fn choose_output(outputs: &Vec<String>, default_name: &str) -> (chosen: (String, bool))
    ensures
        chosen.0@ == output_of(outputs.deep_view(), default_name@),
        chosen.1 == (outputs@.len() == 0),
{
    if outputs.len() > 0 {
        (outputs[0].clone(), false)
    } else {
        (default_name.to_owned(), true)
    }
}

/// Resolves the flags of one invocation.
pub fn resolve(raw: RawArgs) -> (out: Result<Directive, ResolveError>)
    ensures
        match resolution(raw) {
            Ok(directive) => out matches Ok(d) && d@ == directive,
            Err(error) => out matches Err(e) && e == error,
        },
        out matches Ok(Directive::Transform { request, .. }) ==> is_canonical(request@),
{
    if let Some(values) = &raw.generate {
        return match parse_colour(values) {
            Some(colour) => {
                let (output, defaulted) = choose_output(&raw.outputs, "gen_bg.jpg");
                Ok(Directive::Generate { colour, output, defaulted })
            },
            None => Err(ResolveError::UsageError(Flag::Generate)),
        };
    }
    if raw.fractal {
        let (output, defaulted) = choose_output(&raw.outputs, "fractal.jpg");
        return Ok(Directive::Fractal { params: FractalParams::reference(), output, defaulted });
    }
    if raw.inputs.len() == 0 {
        return Err(ResolveError::UsageError(Flag::Input));
    }
    if raw.outputs.len() == 0 {
        return Err(ResolveError::UsageError(Flag::Output));
    }
    if raw.inputs.len() != raw.outputs.len() {
        return Err(
            ResolveError::MismatchedPathCountError {
                inputs: raw.inputs.len(),
                outputs: raw.outputs.len(),
            },
        );
    }
    let blur = match raw.blur {
        BlurArg::Absent => None,
        BlurArg::Malformed => {
            return Err(ResolveError::UsageError(Flag::Blur));
        },
        BlurArg::Amount(bits) => Some(bits),
    };
    let brighten = match &raw.brighten {
        Some(text) => match parse_i32(text.as_str()) {
            Some(amount) => Some(amount),
            None => {
                return Err(ResolveError::UsageError(Flag::Brighten));
            },
        },
        None => None,
    };
    let crop = match &raw.crop {
        Some(values) => match parse_crop(values) {
            Some(rect) => Some(rect),
            None => {
                return Err(ResolveError::UsageError(Flag::Crop));
            },
        },
        None => None,
    };
    let rotate = match &raw.rotate {
        Some(text) => match parse_rotation(text.as_str()) {
            Some(rotation) => Some(rotation),
            None => {
                return Err(ResolveError::UsageError(Flag::Rotate));
            },
        },
        None => None,
    };
    let request = TransformRequest::new(blur, brighten, crop, rotate, raw.invert, raw.grayscale);
    Ok(Directive::Transform { inputs: raw.inputs, outputs: raw.outputs, request })
}

} // verus!
