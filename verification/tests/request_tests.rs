use image::{DynamicImage, GenericImageView, ImageBuffer, Rgb};
use imager::request::TransformRequest;
use imager::transform::{CropRect, Rotation, Transform};

/// A red-green-blue image whose pixel at `(x, y)` is `[x, y, 7]`.
fn coordinates(width: u32, height: u32) -> DynamicImage {
    DynamicImage::ImageRgb8(ImageBuffer::from_fn(width, height, |x, y| {
        Rgb([x as u8, y as u8, 7])
    }))
}

fn listed(request: &TransformRequest) -> Vec<Transform> {
    let mut ops = Vec::new();
    let mut i = 0;
    while let Some(op) = request.get(i) {
        ops.push(op);
        i += 1;
    }
    assert_eq!(ops.len(), request.len());
    ops
}

#[test]
fn empty_request_has_no_transform() {
    let request = TransformRequest::new(None, None, None, None, false, false);
    assert_eq!(request.len(), 0);
    assert_eq!(request.get(0), None);
    assert_eq!(request.blur_amount(), None);
    let out = request.apply_after_blur(coordinates(4, 3)).expect("turns that fit");
    assert_eq!(out.raw_pixels(), coordinates(4, 3).raw_pixels());
}

#[test]
fn full_request_lists_the_fixed_order() {
    let rect = CropRect { x: 1, y: 2, width: 3, height: 4 };
    let request = TransformRequest::new(
        Some(0x4020_0000),
        Some(-5),
        Some(rect),
        Some(Rotation::Half),
        true,
        true,
    );
    assert_eq!(
        listed(&request),
        vec![
            Transform::Blur(0x4020_0000),
            Transform::Brighten(-5),
            Transform::Crop(rect),
            Transform::Rotate(Rotation::Half),
            Transform::Invert,
            Transform::Grayscale,
        ]
    );
    assert_eq!(request.get(6), None);
    assert_eq!(request.get(usize::MAX), None);
}

#[test]
fn request_lists_only_what_is_enabled() {
    let request = TransformRequest::new(None, Some(9), None, None, false, true);
    assert_eq!(listed(&request), vec![Transform::Brighten(9), Transform::Grayscale]);
    let request = TransformRequest::new(None, None, None, Some(Rotation::Quarter), true, false);
    assert_eq!(
        listed(&request),
        vec![Transform::Rotate(Rotation::Quarter), Transform::Invert]
    );
}

#[test]
fn blur_amount_is_the_leading_blur() {
    let request = TransformRequest::new(Some(0x3FC0_0000), None, None, None, true, false);
    assert_eq!(request.blur_amount(), Some(0x3FC0_0000));
    assert_eq!(f32::from_bits(request.blur_amount().unwrap()), 1.5);
    let request = TransformRequest::new(None, Some(1), None, None, true, false);
    assert_eq!(request.blur_amount(), None);
}

#[test]
fn pipeline_skips_the_blur() {
    let request = TransformRequest::new(Some(0x3FC0_0000), None, None, None, true, false);
    let out = request.apply_after_blur(coordinates(4, 3)).expect("turns that fit");
    let rgb = out.as_rgb8().expect("a red-green-blue image");
    assert_eq!(rgb.get_pixel(3, 2).data, [252, 253, 248]);
    let only_blur = TransformRequest::new(Some(0x3FC0_0000), None, None, None, false, false);
    let out = only_blur.apply_after_blur(coordinates(4, 3)).expect("turns that fit");
    assert_eq!(out.raw_pixels(), coordinates(4, 3).raw_pixels());
}

#[test]
fn crop_is_applied_before_rotate() {
    let rect = CropRect { x: 1, y: 0, width: 3, height: 1 };
    let request =
        TransformRequest::new(None, None, Some(rect), Some(Rotation::Quarter), false, false);
    assert_eq!(
        listed(&request),
        vec![Transform::Crop(rect), Transform::Rotate(Rotation::Quarter)]
    );
    let out = request.apply_after_blur(coordinates(4, 2)).expect("turns that fit");
    // Cropped to 3 by 1, then turned: 1 by 3. Turned first, the crop would
    // have left 1 by 1.
    assert_eq!(out.dimensions(), (1, 3));
    let rgb = out.as_rgb8().expect("a red-green-blue image");
    assert_eq!(rgb.get_pixel(0, 0).data, [1, 0, 7]);
    assert_eq!(rgb.get_pixel(0, 1).data, [2, 0, 7]);
    assert_eq!(rgb.get_pixel(0, 2).data, [3, 0, 7]);
}

#[test]
fn brighten_is_applied_before_invert() {
    let request = TransformRequest::new(None, Some(50), None, None, true, false);
    let img = DynamicImage::ImageRgb8(ImageBuffer::from_pixel(2, 2, Rgb([0, 100, 250])));
    let out = request.apply_after_blur(img).expect("turns that fit");
    let rgb = out.as_rgb8().expect("a red-green-blue image");
    // Brightened to [50, 150, 255], then inverted.
    assert_eq!(rgb.get_pixel(1, 1).data, [205, 105, 0]);
}

#[test]
fn invert_is_applied_before_grayscale() {
    let request = TransformRequest::new(None, None, None, None, true, true);
    let img = DynamicImage::ImageRgb8(ImageBuffer::from_pixel(2, 2, Rgb([0, 0, 0])));
    let out = request.apply_after_blur(img).expect("turns that fit");
    assert_eq!(out.color(), image::ColorType::Gray(8));
    assert_eq!(out.raw_pixels(), vec![255u8; 4]);
}

#[test]
fn pipeline_runs_all_five() {
    let rect = CropRect { x: 0, y: 0, width: 2, height: 1 };
    let request =
        TransformRequest::new(None, Some(10), Some(rect), Some(Rotation::Half), true, true);
    let img = DynamicImage::ImageRgb8(ImageBuffer::from_fn(3, 2, |x, _| {
        if x == 0 {
            Rgb([245, 245, 245])
        } else {
            Rgb([0, 0, 0])
        }
    }));
    let out = request.apply_after_blur(img).expect("turns that fit");
    assert_eq!(out.dimensions(), (2, 1));
    assert_eq!(out.color(), image::ColorType::Gray(8));
    // Brightened: 255 and 10; cropped to the first two; turned half:
    // 10 then 255; inverted: 245 then 0.
    assert_eq!(out.raw_pixels(), vec![245, 0]);
}

#[test]
fn pipeline_inverts_black_into_white() {
    let request = TransformRequest::new(None, None, None, None, true, false);
    let img = DynamicImage::ImageRgb8(ImageBuffer::from_pixel(100, 100, Rgb([0, 0, 0])));
    let out = request.apply_after_blur(img).expect("turns that fit");
    assert_eq!(out.dimensions(), (100, 100));
    assert!(out.raw_pixels().iter().all(|&s| s == 255));
}

#[test]
fn pipeline_brightens_every_channel() {
    let request = TransformRequest::new(None, Some(50), None, None, false, false);
    let img = DynamicImage::ImageRgb8(ImageBuffer::from_pixel(100, 100, Rgb([0, 0, 0])));
    let out = request.apply_after_blur(img).expect("turns that fit");
    assert!(out.raw_pixels().iter().all(|&s| s == 50));
    let img = DynamicImage::ImageRgb8(ImageBuffer::from_pixel(100, 100, Rgb([210, 5, 255])));
    let out = request.apply_after_blur(img).expect("turns that fit");
    let rgb = out.as_rgb8().expect("a red-green-blue image");
    assert!(rgb.pixels().all(|p| p.data == [255, 55, 255]));
}

#[test]
fn equal_flags_make_equal_requests() {
    let a = TransformRequest::new(None, Some(3), None, Some(Rotation::Quarter), false, true);
    let b = TransformRequest::new(None, Some(3), None, Some(Rotation::Quarter), false, true);
    let c = TransformRequest::new(None, Some(4), None, Some(Rotation::Quarter), false, true);
    assert_eq!(a, b);
    assert_ne!(a, c);
}
