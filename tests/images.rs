use opendeck_ajazz_n1::faults::Fault;
use opendeck_ajazz_n1::images::{
    get_image_format_for_key, jpeg_payload, plan_set_image, prepare_image, wants_key_image,
    ImageCommand, ImageFormat, ImageMirroring, ImageMode, ImageRotation,
};
use opendeck_ajazz_n1::mappings::Kind;

fn fmt(size: usize, rotation: ImageRotation, mirror: ImageMirroring) -> ImageFormat {
    ImageFormat { mode: ImageMode::JPEG, size: (size, size), rotation, mirror }
}

#[test]
fn n1_image_formats() {
    let small = fmt(64, ImageRotation::Rot0, ImageMirroring::NoMirror);
    let large = fmt(96, ImageRotation::Rot0, ImageMirroring::NoMirror);
    assert_eq!(get_image_format_for_key(&Kind::N1, 0), small);
    assert_eq!(get_image_format_for_key(&Kind::N1, 2), small);
    assert_eq!(get_image_format_for_key(&Kind::N1, 3), large);
    assert_eq!(get_image_format_for_key(&Kind::N1, 17), large);
}

#[test]
fn other_image_formats() {
    let v1 = fmt(85, ImageRotation::Rot90, ImageMirroring::Both);
    assert_eq!(get_image_format_for_key(&Kind::AKP153, 5), v1);
    let edge = fmt(82, ImageRotation::Rot90, ImageMirroring::Both);
    let inner = fmt(95, ImageRotation::Rot90, ImageMirroring::Both);
    assert_eq!(get_image_format_for_key(&Kind::AKP153EREV2, 5), edge);
    assert_eq!(get_image_format_for_key(&Kind::SFSTC, 11), edge);
    assert_eq!(get_image_format_for_key(&Kind::HSV293SV3, 17), edge);
    assert_eq!(get_image_format_for_key(&Kind::HSV293SV3, 4), inner);
}

#[test]
fn set_image_plans() {
    assert_eq!(
        plan_set_image(&Kind::N1, Some(0), true),
        ImageCommand::Write { slot: 15, format: fmt(64, ImageRotation::Rot0, ImageMirroring::NoMirror) }
    );
    assert_eq!(plan_set_image(&Kind::N1, Some(4), false), ImageCommand::Clear { slot: 1 });
    assert_eq!(plan_set_image(&Kind::N1, None, false), ImageCommand::ClearAll);
    assert_eq!(plan_set_image(&Kind::N1, None, true), ImageCommand::Skip);
}

#[test]
fn encoder_images_are_skipped() {
    assert!(!wants_key_image(&Some("Encoder".to_string())));
    assert!(wants_key_image(&Some("Keypad".to_string())));
    assert!(wants_key_image(&None));
}

#[test]
fn jpeg_payload_cases() {
    assert_eq!(jpeg_payload(None), Err(Fault::Image));
    assert_eq!(jpeg_payload(Some(("png".to_string(), vec![1]))), Ok(None));
    assert_eq!(jpeg_payload(Some(("jpeg".to_string(), vec![1, 2]))), Ok(Some(vec![1, 2])));
}

fn percent_encode(bytes: &[u8]) -> String {
    bytes.iter().map(|b| format!("%{:02X}", b)).collect()
}

fn tiny_jpeg() -> Vec<u8> {
    let img = image::DynamicImage::ImageRgb8(image::RgbImage::new(2, 2));
    let mut out = std::io::Cursor::new(Vec::new());
    img.write_to(&mut out, image::ImageFormat::Jpeg).unwrap();
    out.into_inner()
}

#[test]
fn prepare_image_extracts_jpeg_body() {
    let jpeg = tiny_jpeg();
    let url = format!("data:image/jpeg,{}", percent_encode(&jpeg));
    let body = prepare_image(&url).unwrap().unwrap();
    assert_eq!(body, jpeg);
    let img = image::load_from_memory_with_format(&body, image::ImageFormat::Jpeg).unwrap();
    assert_eq!((img.width(), img.height()), (2, 2));
    assert_eq!(prepare_image("data:image/jpeg;base64,AQID"), Ok(Some(vec![1, 2, 3])));
}

#[test]
fn prepare_image_faults_and_skips() {
    assert_eq!(prepare_image("not a data url"), Err(Fault::Image));
    assert_eq!(prepare_image("data:image/png;base64,AAAA"), Ok(None));
    assert_eq!(prepare_image("data:text/plain,hello"), Ok(None));
}
