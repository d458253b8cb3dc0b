use image_resizer::picture::{resize, ColorKind, Image};
use image_resizer::report::{info_lines, resized_message};

fn fixture_1080_1005() -> Image {
    let buf = image::ImageBuffer::from_pixel(1080, 1005, image::Rgb([120u8, 60, 30]));
    Image::from_data(image::DynamicImage::ImageRgb8(buf))
}

#[test]
fn test_resize_image() {
    let image_path = "/tmp/test_image.jpeg";

    let initial_width = 1080;
    let initial_height = 1005;
    fixture_1080_1005()
        .into_data()
        .save(image_path)
        .expect("Failed to save test image");
    let test_image = image::open(image_path).expect("Failed to open test image");

    assert_eq!(test_image.width(), initial_width);
    assert_eq!(test_image.height(), initial_height);

    let new_width = 800;
    let new_height = 600;

    let decoded = Image::from_data(test_image);
    let resized_image = resize(&decoded, new_width, new_height);
    assert!(resized_image.width() == new_width && resized_image.height() == new_height);
}

#[test]
fn test_resize_reports_exact_dimensions() {
    let img = fixture_1080_1005();
    let resized = resize(&img, 800, 600);
    assert_eq!(resized.width(), 800);
    assert_eq!(resized.height(), 600);
    assert_eq!(resized.color(), ColorKind::Rgb8);
}

#[test]
fn test_resize_stretches_aspect_ratio() {
    let img = fixture_1080_1005();
    let resized = resize(&img, 50, 2000);
    assert_eq!(resized.width(), 50);
    assert_eq!(resized.height(), 2000);
}

#[test]
fn test_info_lines_fixture() {
    let img = fixture_1080_1005();
    let (dims, color) = info_lines(&img);
    assert_eq!(dims, "Image dimensions: 1080x1005");
    assert_eq!(color, "Image color type: Rgb8");
}

#[test]
fn test_resized_message() {
    let img = fixture_1080_1005();
    let resized = resize(&img, 800, 600);
    assert_eq!(resized_message(&resized), "Resized image size: 800x600");
}

#[test]
fn test_resize_idempotent_dimensions() {
    let img = fixture_1080_1005();
    let once = resize(&img, 800, 600);
    let twice = resize(&once, 800, 600);
    assert_eq!(once.width(), 800);
    assert_eq!(once.height(), 600);
    assert_eq!(twice.width(), 800);
    assert_eq!(twice.height(), 600);
}

#[test]
fn test_resize_zero_target_dimensions() {
    let img = fixture_1080_1005();
    let no_width = resize(&img, 0, 600);
    assert_eq!(no_width.width(), 0);
    assert_eq!(no_width.height(), 600);
    let no_height = resize(&img, 800, 0);
    assert_eq!(no_height.width(), 800);
    assert_eq!(no_height.height(), 0);
    let empty = resize(&no_width, 0, 0);
    assert_eq!(empty.width(), 0);
    assert_eq!(empty.height(), 0);
}

#[test]
fn test_missing_input_is_a_decode_error() {
    let opened = image::open("/tmp/no_such_image_anywhere.png");
    assert!(opened.is_err());
    let err = image_resizer::errors::RunError::Decode(opened.unwrap_err().to_string());
    assert_ne!(err.exit_code(), 0);
    assert!(err.message().starts_with("could not decode the input image: "));
}

#[test]
fn test_from_data_records_the_decoders_metadata() {
    let rgba = image::ImageBuffer::from_pixel(12, 34, image::Rgba([1u8, 2, 3, 4]));
    let img = Image::from_data(image::DynamicImage::ImageRgba8(rgba));
    assert_eq!(img.width(), 12);
    assert_eq!(img.height(), 34);
    assert_eq!(img.color(), ColorKind::Rgba8);

    let gray = image::ImageBuffer::from_pixel(5, 7, image::Luma([200u8]));
    let img = Image::from_data(image::DynamicImage::ImageLuma8(gray));
    assert_eq!(img.width(), 5);
    assert_eq!(img.height(), 7);
    assert_eq!(img.color(), ColorKind::L8);
}

#[test]
fn test_color_labels_and_pixel_bytes() {
    assert_eq!(ColorKind::L8.label(), "L8");
    assert_eq!(ColorKind::Rgb8.label(), "Rgb8");
    assert_eq!(ColorKind::Rgba16.label(), "Rgba16");
    assert_eq!(ColorKind::Rgba32F.label(), "Rgba32F");
    assert_eq!(ColorKind::L8.bytes_per_pixel(), 1);
    assert_eq!(ColorKind::Rgb8.bytes_per_pixel(), 3);
    assert_eq!(ColorKind::Rgba32F.bytes_per_pixel(), 16);
}

#[test]
fn test_can_resample_bounds() {
    let img = fixture_1080_1005();
    assert!(img.can_resample(800, 600));
    assert!(img.can_resample(0, 0));
    assert!(!img.can_resample(u32::MAX, u32::MAX));
}
