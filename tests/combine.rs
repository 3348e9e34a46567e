use image::ImageFormat;
use image_combiner::{
    alternate_pixels, can_resample, combine_img, get_smallest_img, merge_images,
    resize_img_size, set_rgba, Args, DecodedImage, FloatingImage, ImageDataErrors,
};

fn solid(width: u32, height: u32, rgba: [u8; 4]) -> DecodedImage {
    let mut pixels = Vec::new();
    for _ in 0..(width * height) {
        pixels.extend_from_slice(&rgba);
    }
    DecodedImage::new(width, height, pixels).unwrap()
}

const RED: [u8; 4] = [255, 0, 0, 255];
const BLUE: [u8; 4] = [0, 0, 255, 255];

#[test]
fn smaller_area_wins() {
    assert_eq!(get_smallest_img((4, 4), (2, 2)), (2, 2));
    assert_eq!(get_smallest_img((2, 2), (4, 4)), (2, 2));
    assert_eq!(get_smallest_img((1, 10), (3, 3)), (3, 3));
}

#[test]
fn equal_area_keeps_first() {
    assert_eq!(get_smallest_img((4, 2), (2, 4)), (4, 2));
    assert_eq!(get_smallest_img((2, 4), (4, 2)), (2, 4));
    assert_eq!(get_smallest_img((3, 3), (3, 3)), (3, 3));
}

#[test]
fn largest_resolutions_compare_without_overflow() {
    let max = u32::MAX;
    assert_eq!(get_smallest_img((max, max), (max, max - 1)), (max, max - 1));
    assert_eq!(get_smallest_img((max, max), (max, max)), (max, max));
}

#[test]
fn interleave_red_and_blue() {
    let a = vec![255, 0, 0, 255, 255, 0, 0, 255];
    let b = vec![0, 0, 255, 255, 0, 0, 255, 255];
    let out = alternate_pixels(a, b).unwrap();
    assert_eq!(out, vec![255, 0, 0, 255, 0, 0, 255, 255]);
}

#[test]
fn interleave_alternates_across_rows() {
    let a: Vec<u8> = (0..20).collect();
    let b: Vec<u8> = (100..120).collect();
    let out = alternate_pixels(a.clone(), b.clone()).unwrap();
    assert_eq!(out.len(), 20);
    for i in (0..20).step_by(4) {
        let expected = if i % 8 == 0 { &a[i..i + 4] } else { &b[i..i + 4] };
        assert_eq!(&out[i..i + 4], expected);
    }
    assert_eq!(&out[16..20], &[16, 17, 18, 19]);
}

#[test]
fn interleave_twice_gives_same_bytes() {
    let a: Vec<u8> = (0..32).map(|x| x * 3).collect();
    let b: Vec<u8> = (0..32).map(|x| 255 - x).collect();
    let first = alternate_pixels(a.clone(), b.clone()).unwrap();
    let second = alternate_pixels(a, b).unwrap();
    assert_eq!(first, second);
}

#[test]
fn interleave_empty_buffers() {
    assert_eq!(alternate_pixels(vec![], vec![]).unwrap(), Vec::<u8>::new());
}

#[test]
fn interleave_rejects_partial_pixel() {
    assert_eq!(
        alternate_pixels(vec![1, 2, 3, 4, 5], vec![1, 2, 3, 4, 5]),
        Err(ImageDataErrors::MalformedBuffer)
    );
}

#[test]
fn interleave_rejects_short_second_buffer() {
    assert_eq!(
        alternate_pixels(vec![0; 8], vec![0; 7]),
        Err(ImageDataErrors::IndexOutOfRange)
    );
    // one pixel reads nothing from the second buffer
    assert_eq!(alternate_pixels(vec![9; 4], vec![]).unwrap(), vec![9; 4]);
}

#[test]
fn copy_pixel_bytes() {
    let v: Vec<u8> = vec![10, 20, 30, 40, 50, 60];
    assert_eq!(set_rgba(&v, 1, 4).unwrap(), vec![20, 30, 40, 50]);
    assert_eq!(set_rgba(&v, 3, 2).unwrap(), Vec::<u8>::new());
    assert_eq!(set_rgba(&v, 4, 6), Err(ImageDataErrors::IndexOutOfRange));
}

#[test]
fn output_accepts_exact_buffer() {
    let mut out = FloatingImage::new(2, 1, String::from("out.png"));
    assert!(out.data.is_empty());
    assert_eq!(out.set_data(vec![1, 2, 3, 4, 5, 6, 7, 8]), Ok(()));
    assert_eq!(out.data, vec![1, 2, 3, 4, 5, 6, 7, 8]);
    assert_eq!(out.name, "out.png");
}

#[test]
fn output_rejects_long_buffer() {
    let mut out = FloatingImage::new(2, 1, String::from("out.png"));
    assert_eq!(out.set_data(vec![0; 9]), Err(ImageDataErrors::BufferTooSmall));
    assert!(out.data.is_empty());
}

#[test]
fn output_rejects_short_buffer() {
    let mut out = FloatingImage::new(2, 1, String::from("out.png"));
    assert_eq!(out.set_data(vec![0; 7]), Err(ImageDataErrors::BufferSizeMismatch));
    assert!(out.data.is_empty());
}

#[test]
fn decoded_image_checks_length() {
    assert!(DecodedImage::new(2, 1, vec![0; 8]).is_some());
    assert!(DecodedImage::new(2, 1, vec![0; 7]).is_none());
    assert!(DecodedImage::new(0, 1, vec![]).is_none());
    assert_eq!(solid(3, 2, RED).dimensions(), (3, 2));
}

#[test]
fn larger_image_is_resampled() {
    let big = solid(4, 4, RED);
    let small = solid(2, 2, BLUE);
    let small_pixels = small.pixels.clone();
    let (a, b) = resize_img_size(big, small);
    assert_eq!(a.dimensions(), (2, 2));
    assert_eq!(b.dimensions(), (2, 2));
    assert_eq!(a.pixels.len(), 16);
    assert_eq!(b.pixels.len(), 16);
    assert_eq!(a.pixels, solid(2, 2, RED).pixels);
    assert_eq!(b.pixels, small_pixels);
}

#[test]
fn second_image_is_resampled_on_equal_area() {
    let first = solid(4, 2, RED);
    let second = solid(2, 4, BLUE);
    let first_pixels = first.pixels.clone();
    let (a, b) = resize_img_size(first, second);
    assert_eq!(a.dimensions(), (4, 2));
    assert_eq!(b.dimensions(), (4, 2));
    assert_eq!(a.pixels, first_pixels);
    assert_eq!(b.pixels, solid(4, 2, BLUE).pixels);
}

#[test]
fn combine_same_resolution() {
    let out = combine_img(solid(2, 1, RED), solid(2, 1, BLUE));
    assert_eq!(out, vec![255, 0, 0, 255, 0, 0, 255, 255]);
}

#[test]
fn merge_red_and_blue() {
    let out = merge_images(
        solid(2, 1, RED),
        &ImageFormat::Png,
        solid(2, 1, BLUE),
        &ImageFormat::Png,
        String::from("out.png"),
    )
    .unwrap();
    assert_eq!((out.width, out.height), (2, 1));
    assert_eq!(out.name, "out.png");
    assert_eq!(out.data, vec![255, 0, 0, 255, 0, 0, 255, 255]);
}

#[test]
fn merge_resamples_to_smaller() {
    let out = merge_images(
        solid(4, 4, RED),
        &ImageFormat::Jpeg,
        solid(2, 2, BLUE),
        &ImageFormat::Jpeg,
        String::from("out.jpg"),
    )
    .unwrap();
    assert_eq!((out.width, out.height), (2, 2));
    let mut expected = Vec::new();
    for p in [RED, BLUE, RED, BLUE] {
        expected.extend_from_slice(&p);
    }
    assert_eq!(out.data, expected);
}

#[test]
fn merge_rejects_different_formats() {
    let r = merge_images(
        solid(2, 1, RED),
        &ImageFormat::Png,
        solid(2, 1, BLUE),
        &ImageFormat::Jpeg,
        String::from("out.png"),
    );
    assert!(matches!(r, Err(ImageDataErrors::FormatMismatch)));
}

#[test]
fn resample_limit() {
    assert!(can_resample((4, 4), (2, 2)));
    assert!(can_resample((u32::MAX, 1), (1, 1)));
    assert_eq!(
        can_resample((u32::MAX, 1), (1, u32::MAX)),
        (u32::MAX as u128) * (u32::MAX as u128) * 4 <= usize::MAX as u128
    );
}

#[test]
fn args_take_three_positionals() {
    let argv: Vec<String> = ["prog", "a.png", "b.png", "out.png"]
        .iter()
        .map(|s| s.to_string())
        .collect();
    let args = Args::new(&argv).unwrap();
    assert_eq!(args.img1, "a.png");
    assert_eq!(args.img2, "b.png");
    assert_eq!(args.output, "out.png");
    assert!(Args::new(&argv[..3].to_vec()).is_none());
}
