use imager::fractal::FractalParams;
use imager::request::TransformRequest;
use imager::resolver::{
    parse_colour, parse_crop, parse_rotation, resolve, BlurArg, Directive, Flag, RawArgs,
    ResolveError,
};
use imager::transform::{CropRect, Rotation, Transform};

fn texts(values: &[&str]) -> Vec<String> {
    values.iter().map(|v| v.to_string()).collect()
}

fn bare() -> RawArgs {
    RawArgs {
        inputs: Vec::new(),
        outputs: Vec::new(),
        blur: BlurArg::Absent,
        brighten: None,
        crop: None,
        rotate: None,
        invert: false,
        grayscale: false,
        fractal: false,
        generate: None,
    }
}

fn paired() -> RawArgs {
    RawArgs { inputs: texts(&["a.png"]), outputs: texts(&["b.png"]), ..bare() }
}

fn listed(request: &TransformRequest) -> Vec<Transform> {
    let mut ops = Vec::new();
    let mut i = 0;
    while let Some(op) = request.get(i) {
        ops.push(op);
        i += 1;
    }
    ops
}

#[test]
fn mismatched_path_counts_are_refused() {
    let raw = RawArgs {
        inputs: texts(&["a.png", "b.png"]),
        outputs: texts(&["x.png", "y.png", "z.png"]),
        invert: true,
        ..bare()
    };
    assert_eq!(
        resolve(raw),
        Err(ResolveError::MismatchedPathCountError { inputs: 2, outputs: 3 })
    );
    let raw = RawArgs {
        inputs: texts(&["a.png", "b.png"]),
        outputs: texts(&["x.png"]),
        ..bare()
    };
    assert_eq!(
        resolve(raw),
        Err(ResolveError::MismatchedPathCountError { inputs: 2, outputs: 1 })
    );
}

#[test]
fn mismatch_comes_before_malformed_transforms() {
    let raw = RawArgs {
        inputs: texts(&["a.png", "b.png"]),
        outputs: texts(&["x.png", "y.png", "z.png"]),
        rotate: Some("45".to_string()),
        brighten: Some("much".to_string()),
        ..bare()
    };
    assert_eq!(
        resolve(raw),
        Err(ResolveError::MismatchedPathCountError { inputs: 2, outputs: 3 })
    );
}

#[test]
fn rotate_by_45_is_refused() {
    let raw = RawArgs { rotate: Some("45".to_string()), ..paired() };
    assert_eq!(resolve(raw), Err(ResolveError::UsageError(Flag::Rotate)));
}

#[test]
fn rotate_accepts_only_the_three_angles() {
    assert_eq!(parse_rotation("90"), Some(Rotation::Quarter));
    assert_eq!(parse_rotation("180"), Some(Rotation::Half));
    assert_eq!(parse_rotation("270"), Some(Rotation::ThreeQuarters));
    for text in
        ["", "0", "45", "91", "360", "-90", "+90", "090", "90 ", "9", "18", "1800", "27", "280"].iter()
    {
        assert_eq!(parse_rotation(text), None, "on {:?}", text);
        let raw = RawArgs { rotate: Some(text.to_string()), ..paired() };
        assert_eq!(resolve(raw), Err(ResolveError::UsageError(Flag::Rotate)));
    }
}

#[test]
fn missing_paths_are_refused() {
    assert_eq!(resolve(bare()), Err(ResolveError::UsageError(Flag::Input)));
    let raw = RawArgs { outputs: texts(&["b.png"]), ..bare() };
    assert_eq!(resolve(raw), Err(ResolveError::UsageError(Flag::Input)));
    let raw = RawArgs { inputs: texts(&["a.png"]), ..bare() };
    assert_eq!(resolve(raw), Err(ResolveError::UsageError(Flag::Output)));
}

#[test]
fn malformed_blur_is_refused() {
    let raw = RawArgs { blur: BlurArg::Malformed, ..paired() };
    assert_eq!(resolve(raw), Err(ResolveError::UsageError(Flag::Blur)));
}

#[test]
fn malformed_brighten_is_refused() {
    for text in ["", "bright", "1.5", "2147483648", "5 "].iter() {
        let raw = RawArgs { brighten: Some(text.to_string()), ..paired() };
        assert_eq!(resolve(raw), Err(ResolveError::UsageError(Flag::Brighten)));
    }
}

#[test]
fn malformed_crop_is_refused() {
    let cases: [&[&str]; 6] = [
        &[],
        &["1", "2", "3"],
        &["1", "2", "3", "4", "5"],
        &["1", "2", "3", "-4"],
        &["1", "x", "3", "4"],
        &["1", "2", "4294967296", "4"],
    ];
    for values in cases.iter() {
        assert_eq!(parse_crop(&texts(values)), None);
        let raw = RawArgs { crop: Some(texts(values)), ..paired() };
        assert_eq!(resolve(raw), Err(ResolveError::UsageError(Flag::Crop)));
    }
}

#[test]
fn malformed_generate_is_refused() {
    let cases: [&[&str]; 6] = [
        &[],
        &["1", "2"],
        &["1", "2", "3", "4"],
        &["1", "2", "256"],
        &["-1", "2", "3"],
        &["red", "2", "3"],
    ];
    for values in cases.iter() {
        assert_eq!(parse_colour(&texts(values)), None);
        let raw = RawArgs { generate: Some(texts(values)), ..paired() };
        assert_eq!(resolve(raw), Err(ResolveError::UsageError(Flag::Generate)));
    }
}

#[test]
fn faults_are_reported_in_the_fixed_order() {
    let raw = RawArgs {
        blur: BlurArg::Malformed,
        brighten: Some("x".to_string()),
        crop: Some(texts(&["1"])),
        rotate: Some("45".to_string()),
        ..paired()
    };
    assert_eq!(resolve(raw), Err(ResolveError::UsageError(Flag::Blur)));
    let raw = RawArgs {
        brighten: Some("x".to_string()),
        crop: Some(texts(&["1"])),
        rotate: Some("45".to_string()),
        ..paired()
    };
    assert_eq!(resolve(raw), Err(ResolveError::UsageError(Flag::Brighten)));
    let raw = RawArgs {
        crop: Some(texts(&["1"])),
        rotate: Some("45".to_string()),
        ..paired()
    };
    assert_eq!(resolve(raw), Err(ResolveError::UsageError(Flag::Crop)));
}

#[test]
fn colour_and_crop_values_are_read() {
    assert_eq!(parse_colour(&texts(&["0", "128", "255"])), Some((0, 128, 255)));
    assert_eq!(parse_colour(&texts(&["+1", "02", "3"])), Some((1, 2, 3)));
    assert_eq!(
        parse_crop(&texts(&["1", "2", "3", "4294967295"])),
        Some(CropRect { x: 1, y: 2, width: 3, height: u32::MAX })
    );
}

#[test]
fn generate_resolves_with_the_given_output() {
    let raw = RawArgs {
        generate: Some(texts(&["10", "20", "30"])),
        outputs: texts(&["out.png", "other.png"]),
        ..bare()
    };
    assert_eq!(
        resolve(raw),
        Ok(Directive::Generate {
            colour: (10, 20, 30),
            output: "out.png".to_string(),
            defaulted: false,
        })
    );
}

#[test]
fn generate_defaults_its_output() {
    let raw = RawArgs { generate: Some(texts(&["10", "20", "30"])), ..bare() };
    assert_eq!(
        resolve(raw),
        Ok(Directive::Generate {
            colour: (10, 20, 30),
            output: "gen_bg.jpg".to_string(),
            defaulted: true,
        })
    );
}

#[test]
fn fractal_resolves_with_reference_parameters() {
    let raw = RawArgs { fractal: true, ..bare() };
    assert_eq!(
        resolve(raw),
        Ok(Directive::Fractal {
            params: FractalParams::reference(),
            output: "fractal.jpg".to_string(),
            defaulted: true,
        })
    );
    let raw = RawArgs { fractal: true, outputs: texts(&["f.png"]), ..bare() };
    assert_eq!(
        resolve(raw),
        Ok(Directive::Fractal {
            params: FractalParams::reference(),
            output: "f.png".to_string(),
            defaulted: false,
        })
    );
}

#[test]
fn generation_ignores_transform_flags() {
    let raw = RawArgs {
        generate: Some(texts(&["1", "2", "3"])),
        inputs: texts(&["a.png", "b.png"]),
        outputs: texts(&["x.png"]),
        blur: BlurArg::Malformed,
        brighten: Some("x".to_string()),
        crop: Some(texts(&["1"])),
        rotate: Some("45".to_string()),
        invert: true,
        grayscale: true,
        fractal: false,
    };
    assert_eq!(
        resolve(raw),
        Ok(Directive::Generate { colour: (1, 2, 3), output: "x.png".to_string(), defaulted: false })
    );
    let raw = RawArgs {
        fractal: true,
        inputs: texts(&["a.png", "b.png"]),
        rotate: Some("45".to_string()),
        ..bare()
    };
    assert!(matches!(resolve(raw), Ok(Directive::Fractal { .. })));
}

#[test]
fn generate_comes_before_fractal() {
    let raw = RawArgs { generate: Some(texts(&["1", "2", "3"])), fractal: true, ..bare() };
    assert!(matches!(resolve(raw), Ok(Directive::Generate { .. })));
    let raw = RawArgs { generate: Some(texts(&["1", "2"])), fractal: true, ..bare() };
    assert_eq!(resolve(raw), Err(ResolveError::UsageError(Flag::Generate)));
}

#[test]
fn transform_request_resolves_in_the_fixed_order() {
    let raw = RawArgs {
        inputs: texts(&["a.png", "b.png"]),
        outputs: texts(&["x.png", "y.png"]),
        blur: BlurArg::Amount(0x4020_0000),
        brighten: Some("-50".to_string()),
        crop: Some(texts(&["1", "2", "30", "40"])),
        rotate: Some("90".to_string()),
        invert: true,
        grayscale: true,
        fractal: false,
        generate: None,
    };
    match resolve(raw) {
        Ok(Directive::Transform { inputs, outputs, request }) => {
            assert_eq!(inputs, texts(&["a.png", "b.png"]));
            assert_eq!(outputs, texts(&["x.png", "y.png"]));
            assert_eq!(request.blur_amount(), Some(0x4020_0000));
            assert_eq!(
                listed(&request),
                vec![
                    Transform::Blur(0x4020_0000),
                    Transform::Brighten(-50),
                    Transform::Crop(CropRect { x: 1, y: 2, width: 30, height: 40 }),
                    Transform::Rotate(Rotation::Quarter),
                    Transform::Invert,
                    Transform::Grayscale,
                ]
            );
        }
        other => panic!("resolved to {:?}", other),
    }
}

#[test]
fn rotate_and_crop_resolve_crop_first() {
    let raw = RawArgs {
        rotate: Some("90".to_string()),
        crop: Some(texts(&["1", "0", "3", "1"])),
        ..paired()
    };
    match resolve(raw) {
        Ok(Directive::Transform { request, .. }) => {
            assert_eq!(
                listed(&request),
                vec![
                    Transform::Crop(CropRect { x: 1, y: 0, width: 3, height: 1 }),
                    Transform::Rotate(Rotation::Quarter),
                ]
            );
        }
        other => panic!("resolved to {:?}", other),
    }
}

#[test]
fn no_transform_flag_resolves_to_an_empty_request() {
    match resolve(paired()) {
        Ok(Directive::Transform { inputs, outputs, request }) => {
            assert_eq!(inputs, texts(&["a.png"]));
            assert_eq!(outputs, texts(&["b.png"]));
            assert_eq!(request.len(), 0);
        }
        other => panic!("resolved to {:?}", other),
    }
}
