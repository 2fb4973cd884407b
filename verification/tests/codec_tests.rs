use polarimetry::codec::decode_frame;
use polarimetry::codec::frame_from_decoded;
use polarimetry::codec::Decoded;
use polarimetry::frame::RawFrame;
use polarimetry::pipeline::PipelineError;
use std::io::Cursor;

const SCENARIO: [u8; 16] = [
    100, 200, 50, 150, 80, 160, 40, 120, 100, 200, 50, 150, 80, 160, 40, 120,
];

/// A binary portable greymap.
fn pgm(width: u32, height: u32, samples: &[u8]) -> Vec<u8> {
    let mut bytes = vec![b'P', b'5', b'\n'];
    bytes.extend_from_slice(format!("{} {}\n255\n", width, height).as_bytes());
    bytes.extend_from_slice(samples);
    bytes
}

/// A binary portable pixmap, three channels.
fn ppm(width: u32, height: u32, samples: &[u8]) -> Vec<u8> {
    let mut bytes = vec![b'P', b'6', b'\n'];
    bytes.extend_from_slice(format!("{} {}\n255\n", width, height).as_bytes());
    bytes.extend_from_slice(samples);
    bytes
}

fn encoded(image: image::DynamicImage, format: image::ImageFormat) -> Vec<u8> {
    let mut bytes = Vec::new();
    image.write_to(&mut Cursor::new(&mut bytes), format).unwrap();
    bytes
}

#[test]
fn decodes_a_greyscale_pgm() {
    let frame = decode_frame("frame.pgm", &pgm(4, 4, &SCENARIO)).unwrap();
    assert_eq!(frame, RawFrame::new(4, 4, SCENARIO.to_vec()).unwrap());
}

#[test]
fn decodes_a_greyscale_png() {
    let grey = image::GrayImage::from_raw(4, 4, SCENARIO.to_vec()).unwrap();
    let bytes = encoded(image::DynamicImage::ImageLuma8(grey), image::ImageFormat::Png);
    assert_ne!(bytes, SCENARIO.to_vec());
    let frame = decode_frame("shots/frame.png", &bytes).unwrap();
    assert_eq!(frame.width(), 4);
    assert_eq!(frame.height(), 4);
    assert_eq!(frame.samples(), &SCENARIO.to_vec());
}

#[test]
fn decodes_an_odd_sized_image() {
    let samples: Vec<u8> = (0..15).collect();
    let frame = decode_frame("odd.pgm", &pgm(5, 3, &samples)).unwrap();
    assert_eq!((frame.width(), frame.height()), (5, 3));
    assert_eq!(frame.get(4, 2), Some(14));
}

#[test]
fn extension_is_read_without_regard_to_case() {
    assert!(decode_frame("FRAME.PGM", &pgm(2, 2, &[1, 2, 3, 4])).is_ok());
}

#[test]
fn container_is_chosen_by_the_extension() {
    let bytes = pgm(2, 2, &[1, 2, 3, 4]);
    assert_eq!(decode_frame("frame.png", &bytes), Err(PipelineError::Decode));
}

#[test]
fn path_without_extension_is_a_decode_error() {
    assert_eq!(
        decode_frame("frame", &pgm(2, 2, &[1, 2, 3, 4])),
        Err(PipelineError::Decode)
    );
}

#[test]
fn unknown_extension_is_a_decode_error() {
    assert_eq!(
        decode_frame("frame.polar", &pgm(2, 2, &[1, 2, 3, 4])),
        Err(PipelineError::Decode)
    );
}

#[test]
fn garbage_is_a_decode_error() {
    assert_eq!(
        decode_frame("frame.png", &[0x13, 0x37, 0x00, 0xff, 0x42]),
        Err(PipelineError::Decode)
    );
    assert_eq!(decode_frame("frame.png", &[]), Err(PipelineError::Decode));
    assert_eq!(decode_frame("frame.pgm", &[]), Err(PipelineError::Decode));
}

#[test]
fn truncated_image_is_a_decode_error() {
    let mut bytes = pgm(4, 4, &SCENARIO);
    bytes.truncate(bytes.len() - 5);
    assert_eq!(decode_frame("frame.pgm", &bytes), Err(PipelineError::Decode));
}

#[test]
fn colour_image_is_a_format_error() {
    let samples = [10u8; 12];
    assert_eq!(
        decode_frame("frame.ppm", &ppm(2, 2, &samples)),
        Err(PipelineError::Format)
    );
}

#[test]
fn grey_colour_image_is_still_a_format_error() {
    let rgb = image::RgbImage::from_raw(2, 2, vec![77; 12]).unwrap();
    let bytes = encoded(image::DynamicImage::ImageRgb8(rgb), image::ImageFormat::Png);
    assert_eq!(decode_frame("frame.png", &bytes), Err(PipelineError::Format));
}

#[test]
fn image_with_alpha_is_a_format_error() {
    let grey_alpha = image::GrayAlphaImage::from_raw(2, 2, vec![77, 255, 78, 255, 79, 255, 80, 255]).unwrap();
    let bytes = encoded(image::DynamicImage::ImageLumaA8(grey_alpha), image::ImageFormat::Png);
    assert_eq!(decode_frame("frame.png", &bytes), Err(PipelineError::Format));
}

#[test]
fn sixteen_bit_image_is_a_format_error() {
    let deep = image::ImageBuffer::<image::Luma<u16>, Vec<u16>>::from_raw(2, 2, vec![1, 2, 3, 4]).unwrap();
    let bytes = encoded(image::DynamicImage::ImageLuma16(deep), image::ImageFormat::Png);
    assert_eq!(decode_frame("frame.png", &bytes), Err(PipelineError::Format));
}

#[test]
fn rejected_answer_is_a_decode_error() {
    assert_eq!(frame_from_decoded(Decoded::Rejected), Err(PipelineError::Decode));
}

#[test]
fn other_form_is_a_format_error() {
    assert_eq!(frame_from_decoded(Decoded::NotGreyscale), Err(PipelineError::Format));
}

#[test]
fn greyscale_answer_gives_its_frame() {
    let decoded = Decoded::Greyscale { width: 3, height: 2, samples: vec![1, 2, 3, 4, 5, 6] };
    assert_eq!(
        frame_from_decoded(decoded),
        Ok(RawFrame::new(3, 2, vec![1, 2, 3, 4, 5, 6]).unwrap())
    );
}

#[test]
fn longer_buffer_gives_its_first_samples() {
    let decoded = Decoded::Greyscale { width: 2, height: 2, samples: vec![1, 2, 3, 4, 5, 6] };
    assert_eq!(
        frame_from_decoded(decoded),
        Ok(RawFrame::new(2, 2, vec![1, 2, 3, 4]).unwrap())
    );
}

#[test]
fn shorter_buffer_is_a_format_error() {
    let decoded = Decoded::Greyscale { width: 2, height: 2, samples: vec![1, 2, 3] };
    assert_eq!(frame_from_decoded(decoded), Err(PipelineError::Format));
    let huge = Decoded::Greyscale { width: u32::MAX, height: u32::MAX, samples: vec![1, 2, 3] };
    assert_eq!(frame_from_decoded(huge), Err(PipelineError::Format));
}

#[test]
fn empty_image_gives_an_empty_frame() {
    let decoded = Decoded::Greyscale { width: 0, height: 0, samples: Vec::new() };
    assert_eq!(
        frame_from_decoded(decoded),
        Ok(RawFrame::new(0, 0, Vec::new()).unwrap())
    );
}

#[test]
fn decoding_is_the_same_on_every_run() {
    let file = pgm(4, 4, &SCENARIO);
    let first = decode_frame("frame.pgm", &file);
    let second = decode_frame("frame.pgm", &file.clone());
    assert!(first.is_ok());
    assert_eq!(first, second);
    let garbage = [1u8, 2, 3];
    assert_eq!(decode_frame("frame.png", &garbage), decode_frame("frame.png", &garbage));
    let colour = ppm(1, 1, &[1, 2, 3]);
    assert_eq!(decode_frame("frame.ppm", &colour), decode_frame("frame.ppm", &colour));
}

#[test]
fn decoded_frame_holds_the_samples_and_not_the_file() {
    let file = pgm(2, 2, &[9, 8, 7, 6]);
    let frame = decode_frame("frame.pgm", &file).unwrap();
    assert_ne!(frame.samples(), &file);
    assert_eq!(frame.samples(), &vec![9, 8, 7, 6]);
    assert_eq!((frame.width(), frame.height()), (2, 2));
}
