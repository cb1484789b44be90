//! The layered-image path: parsing a PSD, validating the composited
//! raster's dimensions, and flattening to a still PNG.

use imgproc::first_frame::encode_png;
use imgproc::static_convert::{convert_image, decode_psd, encode_image};
use imgproc::{decode_image, ConvertError, NullReporter};

/// A minimal 1x1 RGB PSD: header, three empty sections, raw image data.
fn tiny_psd() -> Vec<u8> {
    let mut d = Vec::new();
    d.extend_from_slice(b"8BPS"); // signature
    d.extend_from_slice(&[0, 1]); // version 1
    d.extend_from_slice(&[0; 6]); // reserved
    d.extend_from_slice(&[0, 3]); // three channels (RGB)
    d.extend_from_slice(&[0, 0, 0, 1]); // height
    d.extend_from_slice(&[0, 0, 0, 1]); // width
    d.extend_from_slice(&[0, 8]); // depth
    d.extend_from_slice(&[0, 3]); // color mode RGB
    d.extend_from_slice(&[0, 0, 0, 0]); // color mode data, empty
    d.extend_from_slice(&[0, 0, 0, 0]); // image resources, empty
    d.extend_from_slice(&[0, 0, 0, 0]); // layer and mask info, empty
    d.extend_from_slice(&[0, 0]); // image data: raw compression
    d.extend_from_slice(&[10, 20, 30]); // planar RGB samples
    d
}

/// Decodes a still PNG back into raw RGBA bytes.
fn png_pixels(bytes: &[u8]) -> (u32, u32, Vec<u8>) {
    let decoder = png::Decoder::new(std::io::Cursor::new(bytes));
    let mut reader = decoder.read_info().unwrap();
    let mut buf = vec![0u8; reader.output_buffer_size()];
    let info = reader.next_frame(&mut buf).unwrap();
    buf.truncate(info.buffer_size());
    (info.width, info.height, buf)
}

#[test]
fn psd_parses_to_its_composited_raster() {
    let (w, h, rgba) = decode_psd(&tiny_psd()).unwrap();
    assert_eq!((w, h), (1, 1));
    assert_eq!(rgba, vec![10, 20, 30, 255]);
}

#[test]
fn psd_garbage_is_a_decode_error() {
    assert!(matches!(decode_psd(b"not a psd"), Err(ConvertError::Decode(_, _))));
    assert!(matches!(decode_psd(b""), Err(ConvertError::Decode(_, _))));
}

#[test]
fn psd_truncated_sections_are_rejected_not_aborted() {
    // Exactly the 26-byte header: the section walk would overrun the data.
    let mut d = tiny_psd();
    d.truncate(26);
    assert!(matches!(decode_psd(&d), Err(ConvertError::Decode(_, _))));
    // A section length field that runs past the end of the data.
    let mut e = tiny_psd();
    e[26] = 0xFF;
    assert!(matches!(decode_psd(&e), Err(ConvertError::Decode(_, _))));
}

#[test]
fn psd_image_data_beyond_the_canvas_is_rejected_not_aborted() {
    // Raw image data holding far more bytes per channel than the 1x1
    // canvas has pixels.
    let mut d = tiny_psd();
    d.extend_from_slice(&[0; 64]);
    assert!(matches!(decode_psd(&d), Err(ConvertError::Decode(_, _))));
}

/// A document shaped like real-world files: non-empty image-resource and
/// layer sections (here arbitrary bytes) around the same 1x1 raster.
fn layered_psd() -> Vec<u8> {
    let mut d = Vec::new();
    d.extend_from_slice(b"8BPS");
    d.extend_from_slice(&[0, 1]);
    d.extend_from_slice(&[0; 6]);
    d.extend_from_slice(&[0, 3]);
    d.extend_from_slice(&[0, 0, 0, 1]);
    d.extend_from_slice(&[0, 0, 0, 1]);
    d.extend_from_slice(&[0, 8]);
    d.extend_from_slice(&[0, 3]);
    d.extend_from_slice(&[0, 0, 0, 0]); // color mode data, empty
    d.extend_from_slice(&[0, 0, 0, 10]); // image resources, 10 bytes
    d.extend_from_slice(&[0x38, 0x42, 0x49, 0x4D, 0xAA, 0xBB, 0xCC, 0xDD, 0xEE, 0xFF]);
    d.extend_from_slice(&[0, 0, 0, 6]); // layer and mask info, 6 bytes
    d.extend_from_slice(&[0x01, 0x02, 0x03, 0x04, 0x05, 0x06]);
    d.extend_from_slice(&[0, 0]); // image data: raw compression
    d.extend_from_slice(&[10, 20, 30]); // planar RGB samples
    d
}

#[test]
fn psd_with_resource_and_layer_sections_still_flattens() {
    let (w, h, rgba) = decode_psd(&layered_psd()).unwrap();
    assert_eq!((w, h), (1, 1));
    assert_eq!(rgba, vec![10, 20, 30, 255]);
    let out = convert_image(&layered_psd(), "psd").unwrap();
    let (w2, h2, rgba2) = png_pixels(&out);
    assert_eq!((w2, h2), (1, 1));
    assert_eq!(rgba2, vec![10, 20, 30, 255]);
}

#[test]
fn convert_image_flattens_to_a_still_png() {
    let out = convert_image(&tiny_psd(), "psd").unwrap();
    let (w, h, rgba) = png_pixels(&out);
    assert_eq!((w, h), (1, 1));
    assert_eq!(rgba, vec![10, 20, 30, 255]);
}

#[test]
fn convert_image_rejects_unsupported_names() {
    match convert_image(b"", "BMP") {
        Err(ConvertError::UnsupportedFormat(s)) => assert_eq!(s, "BMP"),
        other => panic!("expected an unsupported-format error, got {:?}", other),
    }
    match convert_image(b"", "Gif") {
        Err(ConvertError::UnsupportedFormat(s)) => assert_eq!(s, "Gif"),
        other => panic!("expected an unsupported-format error, got {:?}", other),
    }
}

#[test]
fn decode_image_flattens_with_reports() {
    let out = decode_image(&tiny_psd(), "PSD", &mut NullReporter).unwrap();
    let (w, h, rgba) = png_pixels(&out);
    assert_eq!((w, h), (1, 1));
    assert_eq!(rgba, vec![10, 20, 30, 255]);
}

#[test]
fn decode_image_rejects_unsupported_names() {
    match decode_image(b"", "png", &mut NullReporter) {
        Err(ConvertError::UnsupportedFormat(s)) => assert_eq!(s, "png"),
        other => panic!("expected an unsupported-format error, got {:?}", other),
    }
}

#[test]
fn raster_with_wrong_length_is_a_dimension_mismatch() {
    // Three pixels' worth of bytes for a declared 2x2 canvas.
    let r = encode_image((2, 2, vec![0; 12]));
    assert!(matches!(r, Err(ConvertError::DimensionMismatch(2, 2, 12))));
    let r2 = encode_png(2, 2, &vec![0; 15]);
    assert!(matches!(r2, Err(ConvertError::DimensionMismatch(2, 2, 15))));
}

#[test]
fn consistent_raster_encodes_successfully() {
    let out = encode_image((2, 1, vec![1, 2, 3, 4, 5, 6, 7, 8])).unwrap();
    let (w, h, rgba) = png_pixels(&out);
    assert_eq!((w, h), (2, 1));
    assert_eq!(rgba, vec![1, 2, 3, 4, 5, 6, 7, 8]);
}
