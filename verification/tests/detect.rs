//! Byte-level sniffer behaviour: GIF block counting, WebP chunk walking,
//! APNG animation-control detection, and the format dispatch around them.

use imgproc::detect_animation::{is_animated_apng, is_animated_gif, is_animated_webp};
use imgproc::frame::Frame;
use imgproc::{detect_animation, ConvertError};

/// A structurally complete single-image GIF: header, logical screen
/// descriptor without a global color table, one image block, trailer.
fn single_image_gif() -> Vec<u8> {
    let mut d = vec![
        0x47, 0x49, 0x46, 0x38, 0x39, 0x61, // GIF89a
        1, 0, 1, 0, 0, 0, 0, // logical screen descriptor, no color table
    ];
    d.extend_from_slice(&[
        0x2C, 0, 0, 0, 0, 1, 0, 1, 0, 0, // image descriptor, no local table
        2,    // LZW minimum code size
        0,    // sub-block terminator
    ]);
    d.push(0x3B); // trailer
    d
}

#[test]
fn gif_single_image_is_not_animated() {
    let d = single_image_gif();
    assert_eq!(is_animated_gif(&d), Ok(false));
}

#[test]
fn gif_second_image_block_answers_without_reading_on() {
    // Replace the trailer with a second image separator followed by bytes
    // that are not a valid descriptor at all: the answer must already be
    // "animated" when the separator is seen.
    let mut d = single_image_gif();
    d.pop();
    d.push(0x2C);
    d.extend_from_slice(&[0xDE, 0xAD]);
    assert_eq!(is_animated_gif(&d), Ok(true));

    // Even with nothing at all after the separator.
    let mut e = single_image_gif();
    e.pop();
    e.push(0x2C);
    assert_eq!(is_animated_gif(&e), Ok(true));
}

#[test]
fn gif_malformed_streams_are_decode_errors() {
    assert!(matches!(is_animated_gif(b"GIF89a"), Err(ConvertError::Decode(_, _))));
    assert!(matches!(is_animated_gif(b"notagif_not_at_all"), Err(ConvertError::Decode(_, _))));
    // Unknown block introducer after the screen descriptor.
    let mut d = single_image_gif();
    d.pop();
    d.push(0x99);
    assert!(matches!(is_animated_gif(&d), Err(ConvertError::Decode(_, _))));
}

#[test]
fn gif_animated_fixture_from_encoder_is_detected() {
    let frames = vec![
        Frame { width: 2, height: 1, duration_ms: 50, pixels: vec![255, 0, 0, 255, 0, 255, 0, 255] },
        Frame { width: 2, height: 1, duration_ms: 100, pixels: vec![0, 0, 255, 255, 0, 0, 0, 255] },
    ];
    let bytes = imgproc::animation_convert::encode_gif(frames).unwrap();
    assert_eq!(is_animated_gif(&bytes), Ok(true));
}

#[test]
fn webp_non_riff_bytes_are_simply_not_animated() {
    assert_eq!(is_animated_webp(b""), Ok(false));
    assert_eq!(is_animated_webp(b"RIF"), Ok(false));
    assert_eq!(is_animated_webp(b"JFIF....WEBP"), Ok(false));
    assert_eq!(is_animated_webp(b"RIFF\x00\x00\x00\x00WAVE"), Ok(false));
    assert_eq!(is_animated_webp(b"RIFF\x00\x00\x00\x00WEBP"), Ok(false));
}

#[test]
fn webp_anim_chunk_is_detected() {
    let mut d = b"RIFF\x2a\x00\x00\x00WEBP".to_vec();
    d.extend_from_slice(b"ANIM\x06\x00\x00\x00\x00\x00\x00\x00\x00\x00");
    assert_eq!(is_animated_webp(&d), Ok(true));
}

#[test]
fn webp_anmf_chunk_after_padded_chunk_is_detected() {
    let mut d = b"RIFF\x2a\x00\x00\x00WEBP".to_vec();
    // A chunk with an odd payload size: one pad byte follows the payload.
    d.extend_from_slice(b"XYZ \x03\x00\x00\x00abc\x00");
    d.extend_from_slice(b"ANMF\x00\x00\x00\x00");
    assert_eq!(is_animated_webp(&d), Ok(true));
}

#[test]
fn webp_truncated_chunk_walk_is_not_animated() {
    let mut d = b"RIFF\x2a\x00\x00\x00WEBP".to_vec();
    // The declared size runs past the end of the data, so the ANIM tag
    // that follows is never reached by well-formed traversal.
    d.extend_from_slice(b"XYZ \xff\x00\x00\x00");
    d.extend_from_slice(b"ANIM\x00\x00\x00\x00");
    assert_eq!(is_animated_webp(&d), Ok(false));
}

#[test]
fn apng_static_png_is_not_animated() {
    let still = imgproc::first_frame::encode_png(1, 1, &vec![1, 2, 3, 4]).unwrap();
    assert_eq!(is_animated_apng(&still), Ok(false));
}

#[test]
fn apng_animated_png_is_animated() {
    let frames = vec![
        Frame { width: 1, height: 1, duration_ms: 40, pixels: vec![9, 9, 9, 255] },
        Frame { width: 1, height: 1, duration_ms: 80, pixels: vec![7, 7, 7, 255] },
    ];
    let bytes = imgproc::animation_convert::encode_apng(frames).unwrap();
    assert_eq!(is_animated_apng(&bytes), Ok(true));
}

#[test]
fn apng_malformed_streams_are_decode_errors() {
    assert!(matches!(is_animated_apng(b""), Err(ConvertError::Decode(_, _))));
    assert!(matches!(is_animated_apng(b"\x89PNG\r\n\x1a\n"), Err(ConvertError::Decode(_, _))));
    assert!(matches!(is_animated_apng(b"plainly not a png at all"), Err(ConvertError::Decode(_, _))));
}

#[test]
fn detect_animation_dispatches_case_insensitively() {
    let gif = single_image_gif();
    assert_eq!(detect_animation(&gif, "GIF"), Ok(false));
    assert_eq!(detect_animation(&gif, "gif"), Ok(false));
    assert_eq!(detect_animation(b"", "WebP"), Ok(false));
    let still = imgproc::first_frame::encode_png(1, 1, &vec![0, 0, 0, 0]).unwrap();
    assert_eq!(detect_animation(&still, "png"), Ok(false));
    assert_eq!(detect_animation(&still, "APNG"), Ok(false));
}

#[test]
fn detect_animation_rejects_unsupported_names() {
    match detect_animation(b"", "bmp") {
        Err(ConvertError::UnsupportedFormat(s)) => assert_eq!(s, "bmp"),
        other => panic!("expected an unsupported-format error, got {:?}", other),
    }
    match detect_animation(b"", "BMP") {
        Err(ConvertError::UnsupportedFormat(s)) => assert_eq!(s, "BMP"),
        other => panic!("expected an unsupported-format error, got {:?}", other),
    }
    assert!(matches!(detect_animation(b"", "psd"), Err(ConvertError::UnsupportedFormat(_))));
}
