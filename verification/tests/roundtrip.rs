//! Whole-container round trips through the real codecs: frame counts are
//! preserved, APNG timing is millisecond-exact, and GIF timing is quantized
//! to the nearest ten milliseconds.

use imgproc::animation_convert::{decode, decode_apng, decode_gif, encode_apng, encode_gif};
use imgproc::frame::Frame;
use imgproc::ConvertError;

fn two_frames() -> Vec<Frame> {
    vec![
        Frame {
            width: 2,
            height: 1,
            duration_ms: 55,
            pixels: vec![255, 0, 0, 255, 0, 255, 0, 255],
        },
        Frame {
            width: 2,
            height: 1,
            duration_ms: 200,
            pixels: vec![0, 0, 255, 255, 0, 0, 0, 255],
        },
    ]
}

#[test]
fn apng_roundtrip_is_exact() {
    let bytes = encode_apng(two_frames()).unwrap();
    let back = decode_apng(&bytes).unwrap();
    assert_eq!(back.len(), 2);
    assert_eq!(back[0].duration_ms, 55);
    assert_eq!(back[1].duration_ms, 200);
    assert_eq!(back[0].width, 2);
    assert_eq!(back[0].height, 1);
    assert_eq!(back[0].pixels, vec![255, 0, 0, 255, 0, 255, 0, 255]);
    assert_eq!(back[1].pixels, vec![0, 0, 255, 255, 0, 0, 0, 255]);
}

#[test]
fn apng_roundtrip_is_exact_for_unaligned_durations() {
    let frames = vec![
        Frame { width: 1, height: 1, duration_ms: 1, pixels: vec![1, 2, 3, 255] },
        Frame { width: 1, height: 1, duration_ms: 55, pixels: vec![4, 5, 6, 255] },
        Frame { width: 1, height: 1, duration_ms: 999, pixels: vec![7, 8, 9, 255] },
    ];
    let bytes = encode_apng(frames).unwrap();
    let back = decode_apng(&bytes).unwrap();
    let durations: Vec<u32> = back.iter().map(|f| f.duration_ms).collect();
    assert_eq!(durations, vec![1, 55, 999]);
}

#[test]
fn gif_roundtrip_preserves_count_and_aligned_durations() {
    let frames = vec![
        Frame { width: 2, height: 1, duration_ms: 50, pixels: vec![255, 0, 0, 255, 0, 255, 0, 255] },
        Frame { width: 2, height: 1, duration_ms: 200, pixels: vec![0, 0, 255, 255, 0, 0, 0, 255] },
    ];
    let bytes = encode_gif(frames).unwrap();
    let back = decode_gif(&bytes).unwrap();
    assert_eq!(back.len(), 2);
    assert_eq!(back[0].duration_ms, 50);
    assert_eq!(back[1].duration_ms, 200);
}

#[test]
fn apng_to_gif_quantizes_55_to_60() {
    let apng = encode_apng(two_frames()).unwrap();
    let gif = decode(&apng, "apng", "gif").unwrap();
    let back = decode_gif(&gif).unwrap();
    assert_eq!(back.len(), 2);
    assert_eq!(back[0].duration_ms, 60);
    assert_eq!(back[1].duration_ms, 200);
}

#[test]
fn gif_to_apng_keeps_frame_count() {
    let frames = vec![
        Frame { width: 2, height: 2, duration_ms: 30, pixels: vec![200; 16] },
        Frame { width: 2, height: 2, duration_ms: 70, pixels: vec![100; 16] },
        Frame { width: 2, height: 2, duration_ms: 110, pixels: vec![50; 16] },
    ];
    let gif = encode_gif(frames).unwrap();
    let apng = decode(&gif, "gif", "apng").unwrap();
    let back = decode_apng(&apng).unwrap();
    assert_eq!(back.len(), 3);
    assert_eq!(back[0].duration_ms, 30);
    assert_eq!(back[1].duration_ms, 70);
    assert_eq!(back[2].duration_ms, 110);
}

#[test]
fn empty_frame_lists_are_rejected_by_both_encoders() {
    assert!(matches!(encode_apng(vec![]), Err(ConvertError::Encode(_, _))));
    assert!(matches!(encode_gif(vec![]), Err(ConvertError::Encode(_, _))));
}

#[test]
fn one_shot_convert_rejects_unsupported_source_naming_it() {
    match decode(b"whatever", "tiff", "gif") {
        Err(ConvertError::UnsupportedFormat(s)) => assert_eq!(s, "tiff"),
        other => panic!("expected an unsupported-format error, got {:?}", other),
    }
}

#[test]
fn one_shot_convert_rejects_unsupported_target_naming_it() {
    let apng = encode_apng(two_frames()).unwrap();
    match decode(&apng, "apng", "Bmp") {
        Err(ConvertError::UnsupportedFormat(s)) => assert_eq!(s, "Bmp"),
        other => panic!("expected an unsupported-format error, got {:?}", other),
    }
}

#[test]
fn one_shot_convert_fails_on_undecodable_source() {
    assert!(matches!(decode(b"not a gif", "gif", "apng"), Err(ConvertError::Decode(_, _))));
}
