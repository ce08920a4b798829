use texconv::format::TextureFormat;
use texconv::header::{parse_tex, TEXTURE_SIZE};
use texconv::wire::{read_u32, u16_at, u32_at};

fn header_block(format: u32, data_size: u32, width: u32, height: u32) -> Vec<u8> {
    let mut block = Vec::new();
    block.extend_from_slice(&0x1122_3344u32.to_le_bytes());
    block.extend_from_slice(&7u32.to_le_bytes());
    block.extend_from_slice(&1000u32.to_le_bytes());
    block.extend_from_slice(&format.to_le_bytes());
    block.extend_from_slice(&data_size.to_le_bytes());
    block.extend_from_slice(&width.to_le_bytes());
    block.extend_from_slice(&height.to_le_bytes());
    block.extend_from_slice(&3u32.to_le_bytes());
    block.extend_from_slice(&5u16.to_le_bytes());
    block.extend_from_slice(&9u16.to_le_bytes());
    for k in 0..9u32 {
        block.extend_from_slice(&(0xA000_0000 + k).to_le_bytes());
    }
    block
}

#[test]
fn header_size_is_seventy_two() {
    assert_eq!(TEXTURE_SIZE, 72);
    assert_eq!(header_block(0, 0, 0, 0).len(), TEXTURE_SIZE);
}

#[test]
fn parse_reads_every_field_at_its_offset() {
    let tex = parse_tex(&header_block(2, 48, 4, 4));
    assert_eq!(tex.res, 0x1122_3344);
    assert_eq!(tex.version, 7);
    assert_eq!(tex.head.size, 1000);
    assert_eq!(tex.head.format, TextureFormat::Rgb24);
    assert_eq!(tex.head.data_size, 48);
    assert_eq!(tex.head.width, 4);
    assert_eq!(tex.head.height, 4);
    assert_eq!(tex.head.mipmap, 3);
    assert_eq!(tex.head.ex_frame_count, 5);
    assert_eq!(tex.head.frame_circle, 9);
    for k in 0..9 {
        assert_eq!(tex.head.reserve[k], 0xA000_0000 + k as u32);
    }
}

#[test]
fn parse_checks_no_field() {
    let tex = parse_tex(&header_block(0xFFFF_FFFF, u32::MAX, 0, u32::MAX));
    assert_eq!(tex.head.format, TextureFormat::Unknow);
    assert_eq!(tex.head.data_size, u32::MAX);
    assert_eq!(tex.head.width, 0);
    assert_eq!(tex.head.height, u32::MAX);
}

#[test]
fn parse_is_little_endian() {
    let mut block = vec![0u8; TEXTURE_SIZE];
    block[20] = 0x01;
    block[21] = 0x02;
    block[22] = 0x03;
    block[23] = 0x04;
    block[32] = 0xCD;
    block[33] = 0xAB;
    let tex = parse_tex(&block);
    assert_eq!(tex.head.width, 0x0403_0201);
    assert_eq!(tex.head.ex_frame_count, 0xABCD);
    assert_eq!(tex.head.format, TextureFormat::Dxt1);
}

#[test]
fn ordinals_map_to_formats() {
    assert_eq!(TextureFormat::from_ordinal(0), TextureFormat::Dxt1);
    assert_eq!(TextureFormat::from_ordinal(1), TextureFormat::Dxt5);
    assert_eq!(TextureFormat::from_ordinal(2), TextureFormat::Rgb24);
    assert_eq!(TextureFormat::from_ordinal(3), TextureFormat::Argb32);
    assert_eq!(TextureFormat::from_ordinal(4), TextureFormat::R5g6b5);
    assert_eq!(TextureFormat::from_ordinal(5), TextureFormat::A4r4g4b4);
    assert_eq!(TextureFormat::from_ordinal(6), TextureFormat::Acf);
}

#[test]
fn other_ordinals_are_unknown() {
    assert_eq!(TextureFormat::from_ordinal(7), TextureFormat::Unknow);
    assert_eq!(TextureFormat::from_ordinal(0x100), TextureFormat::Unknow);
    assert_eq!(TextureFormat::from_ordinal(u32::MAX), TextureFormat::Unknow);
}

#[test]
fn supported_formats() {
    for ordinal in 0..6 {
        assert!(TextureFormat::from_ordinal(ordinal).is_supported());
    }
    assert!(!TextureFormat::Acf.is_supported());
    assert!(!TextureFormat::Unknow.is_supported());
}

#[test]
fn unit_sizes() {
    assert_eq!(TextureFormat::Dxt1.unit_size(), 8);
    assert_eq!(TextureFormat::Dxt5.unit_size(), 16);
    assert_eq!(TextureFormat::Rgb24.unit_size(), 3);
    assert_eq!(TextureFormat::Argb32.unit_size(), 4);
    assert_eq!(TextureFormat::R5g6b5.unit_size(), 2);
    assert_eq!(TextureFormat::A4r4g4b4.unit_size(), 2);
    assert_eq!(TextureFormat::Acf.unit_size(), 0);
    assert_eq!(TextureFormat::Unknow.unit_size(), 0);
    assert!(TextureFormat::Dxt1.is_block_compressed());
    assert!(TextureFormat::Dxt5.is_block_compressed());
    assert!(!TextureFormat::Rgb24.is_block_compressed());
}

#[test]
fn length_field_is_little_endian() {
    assert_eq!(read_u32(&[0x78, 0x56, 0x34, 0x12]), 0x1234_5678);
    assert_eq!(read_u32(&[0xFF, 0xFF, 0xFF, 0xFF]), u32::MAX);
    assert_eq!(read_u32(&[0, 0, 0, 0]), 0);
}

#[test]
fn integers_at_an_offset() {
    let bytes = [0xEE, 0x01, 0x02, 0x03, 0x04, 0xEE];
    assert_eq!(u32_at(&bytes, 1), 0x0403_0201);
    assert_eq!(u16_at(&bytes, 1), 0x0201);
    assert_eq!(u16_at(&bytes, 4), 0xEE04);
}

#[test]
fn extra_frames_are_detected() {
    let mut block = header_block(0, 0, 0, 0);
    assert!(parse_tex(&block).head.has_extra_frames());
    block[32] = 0;
    block[33] = 0;
    assert!(!parse_tex(&block).head.has_extra_frames());
}
