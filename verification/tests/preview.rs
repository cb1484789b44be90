//! The first-frame preview: its pixel content, its agreement between the
//! extraction paths, its one-shot hand-off, and the reporter's place on the
//! critical path.

use imgproc::animation_convert::encode_apng;
use imgproc::animation_decoder::FrameDecoder;
use imgproc::frame::Frame;
use imgproc::{
    animated_image_decode, convert_animated_image, get_first_frame, ConvertError, NullReporter,
    Reporter,
};

/// A sink that rejects every message.
struct RefusingSink;

impl Reporter for RefusingSink {
    fn report(&mut self, _msg: &str) -> Result<(), ()> {
        Err(())
    }
}

/// A sink that records how many messages it accepted.
struct CountingSink {
    seen: usize,
}

impl Reporter for CountingSink {
    fn report(&mut self, _msg: &str) -> Result<(), ()> {
        self.seen += 1;
        Ok(())
    }
}

fn fixture_frames() -> Vec<Frame> {
    vec![
        Frame {
            width: 2,
            height: 2,
            duration_ms: 40,
            pixels: vec![
                255, 0, 0, 255, 0, 255, 0, 255, 0, 0, 255, 255, 255, 255, 255, 255,
            ],
        },
        Frame { width: 2, height: 2, duration_ms: 90, pixels: vec![17; 16] },
    ]
}

fn fixture_apng() -> Vec<u8> {
    encode_apng(fixture_frames()).unwrap()
}

/// Decodes a still PNG produced by the library back into raw RGBA bytes.
fn png_pixels(bytes: &[u8]) -> (u32, u32, Vec<u8>) {
    let decoder = png::Decoder::new(std::io::Cursor::new(bytes));
    let mut reader = decoder.read_info().unwrap();
    let mut buf = vec![0u8; reader.output_buffer_size()];
    let info = reader.next_frame(&mut buf).unwrap();
    buf.truncate(info.buffer_size());
    (info.width, info.height, buf)
}

#[test]
fn first_frame_still_matches_first_decoded_frame_pixels() {
    let apng = fixture_apng();
    let still = get_first_frame(&apng, "apng").unwrap();
    let (w, h, pixels) = png_pixels(&still);
    assert_eq!((w, h), (2, 2));
    assert_eq!(pixels, fixture_frames()[0].pixels);
}

#[test]
fn preview_from_conversion_equals_first_frame_extraction() {
    let apng = fixture_apng();
    let converted = convert_animated_image(&apng, "apng", "gif", &mut NullReporter).unwrap();
    let preview = converted.first_frame();
    let extracted = get_first_frame(&apng, "apng").unwrap();
    assert_eq!(preview, extracted);
    // The converted container is handed out separately and is non-empty.
    assert!(!converted.converted_file().is_empty());
}

#[test]
fn cached_preview_can_be_taken_exactly_once() {
    let apng = fixture_apng();
    let mut decoder = animated_image_decode("apng", &apng, &mut NullReporter).unwrap();
    let first = decoder.first_frame();
    assert!(first.is_ok());
    let second = decoder.first_frame();
    assert!(matches!(second, Err(ConvertError::AlreadyConsumed)));
    let third = decoder.first_frame();
    assert!(matches!(third, Err(ConvertError::AlreadyConsumed)));
}

#[test]
fn frame_cursor_is_forward_only_and_exhausts() {
    let apng = fixture_apng();
    let mut decoder = animated_image_decode("APNG", &apng, &mut NullReporter).unwrap();
    assert_eq!(decoder.num_frames(), 2);
    assert_eq!(decoder.width(), 2);
    assert_eq!(decoder.height(), 2);
    let a = decoder.next_frame().unwrap();
    assert_eq!(a.duration_ms, 40);
    let b = decoder.next_frame().unwrap();
    assert_eq!(b.duration_ms, 90);
    assert!(decoder.next_frame().is_none());
    assert!(decoder.next_frame().is_none());
}

#[test]
fn rejected_report_fails_the_whole_conversion() {
    let apng = fixture_apng();
    let r = convert_animated_image(&apng, "apng", "gif", &mut RefusingSink);
    assert!(matches!(r, Err(ConvertError::ReporterFailure)));
}

#[test]
fn accepted_reports_are_delivered_in_line() {
    let apng = fixture_apng();
    let mut sink = CountingSink { seen: 0 };
    convert_animated_image(&apng, "apng", "gif", &mut sink).unwrap();
    // Decode start, preview encoded, decode done, encode start, metadata,
    // one message per frame, encode done.
    assert!(sink.seen >= 7);
}

#[test]
fn unsupported_source_and_target_name_the_offending_string() {
    match convert_animated_image(b"", "bmp", "gif", &mut NullReporter) {
        Err(ConvertError::UnsupportedFormat(s)) => assert_eq!(s, "bmp"),
        other => panic!("expected an unsupported-format error, got {:?}", other),
    }
    match convert_animated_image(b"", "BMP", "gif", &mut NullReporter) {
        Err(ConvertError::UnsupportedFormat(s)) => assert_eq!(s, "BMP"),
        other => panic!("expected an unsupported-format error, got {:?}", other),
    }
    let apng = fixture_apng();
    match convert_animated_image(&apng, "apng", "webp", &mut NullReporter) {
        Err(ConvertError::UnsupportedFormat(s)) => assert_eq!(s, "webp"),
        other => panic!("expected an unsupported-format error, got {:?}", other),
    }
}

#[test]
fn first_frame_extraction_fails_on_undecodable_bytes() {
    assert!(matches!(get_first_frame(b"junk", "gif"), Err(ConvertError::Decode(_, _))));
    assert!(matches!(get_first_frame(b"junk", "apng"), Err(ConvertError::Decode(_, _))));
    match get_first_frame(b"junk", "svg") {
        Err(ConvertError::UnsupportedFormat(s)) => assert_eq!(s, "svg"),
        other => panic!("expected an unsupported-format error, got {:?}", other),
    }
}
