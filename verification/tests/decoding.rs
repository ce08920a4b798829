use texconv::decode::{decode, DecodeError};
use texconv::format::TextureFormat;

#[test]
fn exact_payload_gives_every_pixel() {
    let (width, height) = (3u32, 2u32);
    let cases = [
        (TextureFormat::Rgb24, 18usize),
        (TextureFormat::Argb32, 24),
        (TextureFormat::R5g6b5, 12),
        (TextureFormat::A4r4g4b4, 12),
        (TextureFormat::Dxt1, 8),
        (TextureFormat::Dxt5, 16),
    ];
    for (format, len) in cases {
        let raw = vec![0x5Au8; len];
        let colors = decode(format, &raw, width, height).unwrap();
        assert_eq!(colors.len(), 6, "{:?}", format);
    }
}

#[test]
fn decode_dispatches_on_the_format() {
    assert_eq!(decode(TextureFormat::Rgb24, &[10, 20, 30], 1, 1), Ok(vec![[10, 20, 30, 255]]));
    assert_eq!(
        decode(TextureFormat::Argb32, &[0xAA, 0x11, 0x22, 0x33], 1, 1),
        Ok(vec![[0x22, 0x11, 0xAA, 0x33]])
    );
    assert_eq!(decode(TextureFormat::R5g6b5, &[0x00, 0xF8], 1, 1), Ok(vec![[255, 0, 0, 255]]));
    assert_eq!(decode(TextureFormat::A4r4g4b4, &[0x00, 0xF0], 1, 1), Ok(vec![[0, 0, 0, 255]]));
    let block = [0x00, 0xF8, 0x00, 0x00, 0, 0, 0, 0];
    assert_eq!(decode(TextureFormat::Dxt1, &block, 2, 1), Ok(vec![[255, 0, 0, 255]; 2]));
    let block = [128, 0, 0, 0, 0, 0, 0, 0, 0x00, 0xF8, 0x00, 0x00, 0, 0, 0, 0];
    assert_eq!(decode(TextureFormat::Dxt5, &block, 1, 2), Ok(vec![[255, 0, 0, 128]; 2]));
}

#[test]
fn unsupported_formats_are_reported() {
    assert_eq!(decode(TextureFormat::Acf, &[1, 2, 3, 4], 1, 1), Err(DecodeError::UnsupportedFormat));
    assert_eq!(decode(TextureFormat::Unknow, &[], 0, 0), Err(DecodeError::UnsupportedFormat));
    assert_eq!(
        decode(TextureFormat::Acf, &[], u32::MAX, u32::MAX),
        Err(DecodeError::UnsupportedFormat)
    );
}

#[test]
fn short_payloads_are_malformed() {
    assert_eq!(decode(TextureFormat::Rgb24, &[1, 2, 3, 4, 5], 2, 1), Err(DecodeError::MalformedPayload));
    assert_eq!(decode(TextureFormat::Argb32, &[1, 2, 3], 1, 1), Err(DecodeError::MalformedPayload));
    assert_eq!(decode(TextureFormat::R5g6b5, &[1], 1, 1), Err(DecodeError::MalformedPayload));
    assert_eq!(decode(TextureFormat::A4r4g4b4, &[], 1, 1), Err(DecodeError::MalformedPayload));
    assert_eq!(decode(TextureFormat::Dxt1, &[0; 7], 1, 1), Err(DecodeError::MalformedPayload));
    assert_eq!(decode(TextureFormat::Dxt1, &[0; 8], 5, 1), Err(DecodeError::MalformedPayload));
    assert_eq!(decode(TextureFormat::Dxt5, &[0; 15], 4, 4), Err(DecodeError::MalformedPayload));
}

#[test]
fn images_beyond_the_address_space_are_too_large() {
    assert_eq!(
        decode(TextureFormat::Rgb24, &[1, 2, 3], u32::MAX, u32::MAX),
        Err(DecodeError::TooLarge)
    );
    assert_eq!(
        decode(TextureFormat::Dxt1, &[0; 8], u32::MAX, u32::MAX),
        Err(DecodeError::TooLarge)
    );
}

#[test]
fn bytes_after_the_image_are_ignored() {
    assert_eq!(
        decode(TextureFormat::Rgb24, &[1, 2, 3, 4, 5, 6, 7], 1, 1),
        Ok(vec![[1, 2, 3, 255]])
    );
    assert_eq!(
        decode(TextureFormat::R5g6b5, &[0x00, 0xF8, 0xE0, 0x07, 0x1F], 2, 1),
        Ok(vec![[255, 0, 0, 255], [0, 255, 0, 255]])
    );
}

#[test]
fn empty_images_decode_to_nothing() {
    assert_eq!(decode(TextureFormat::Rgb24, &[1, 2, 3], 0, 5), Ok(vec![]));
    assert_eq!(decode(TextureFormat::Dxt1, &[], 0, 0), Ok(vec![]));
    assert_eq!(decode(TextureFormat::Dxt5, &[], 9, 0), Ok(vec![]));
}
