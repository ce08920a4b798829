//! Decoders for the uncompressed pixel encodings.
//!
//! Each decoder turns a payload into RGBA quadruplets, one per complete group
//! of payload bytes; bytes after the last complete group are ignored.

use vstd::prelude::*;
use crate::wire::{u16_at, u16_le};

verus! {

/// An image as a sequence of pixels, each a sequence of four channel bytes in
/// the order red, green, blue, alpha.
pub open spec fn pixels(image: Seq<[u8; 4]>) -> Seq<Seq<u8>> {
    Seq::new(image.len(), |i: int| image[i]@)
}

/// A channel of `max + 1` levels stretched to the range 0..=255, rounding
/// toward zero.
pub open spec fn scale(value: int, max: int) -> int {
    value * 255 / max
}

/// The pixel that a packed 5-6-5 word stands for: red in bits 11 to 15, green
/// in bits 5 to 10, blue in bits 0 to 4, always opaque.
pub open spec fn r5g6b5_pixel(word: u16) -> Seq<u8> {
    seq![
        scale(((word >> 11) & 0x1f) as int, 31) as u8,
        scale(((word >> 5) & 0x3f) as int, 63) as u8,
        scale((word & 0x1f) as int, 31) as u8,
        255u8,
    ]
}

/// The pixel that a packed 4-4-4-4 word stands for: alpha in bits 12 to 15,
/// red in bits 8 to 11, green in bits 4 to 7, blue in bits 0 to 3.
pub open spec fn a4r4g4b4_pixel(word: u16) -> Seq<u8> {
    seq![
        scale(((word >> 8) & 0xf) as int, 15) as u8,
        scale(((word >> 4) & 0xf) as int, 15) as u8,
        scale((word & 0xf) as int, 15) as u8,
        scale(((word >> 12) & 0xf) as int, 15) as u8,
    ]
}

/// The image held by a payload of three bytes per pixel.
pub open spec fn rgb24_image(raw: Seq<u8>) -> Seq<Seq<u8>> {
    Seq::new(raw.len() / 3, |i: int| seq![raw[3 * i], raw[3 * i + 1], raw[3 * i + 2], 255u8])
}

/// The image held by a payload of four bytes per pixel: the bytes of each
/// group come out in the order third, second, first, fourth.
pub open spec fn argb32_image(raw: Seq<u8>) -> Seq<Seq<u8>> {
    Seq::new(
        raw.len() / 4,
        |i: int| seq![raw[4 * i + 2], raw[4 * i + 1], raw[4 * i], raw[4 * i + 3]],
    )
}

/// The image held by a payload of one packed 5-6-5 word per pixel.
pub open spec fn r5g6b5_image(raw: Seq<u8>) -> Seq<Seq<u8>> {
    Seq::new(raw.len() / 2, |i: int| r5g6b5_pixel(u16_le(raw, 2 * i) as u16))
}

/// The image held by a payload of one packed 4-4-4-4 word per pixel.
pub open spec fn a4r4g4b4_image(raw: Seq<u8>) -> Seq<Seq<u8>> {
    Seq::new(raw.len() / 2, |i: int| a4r4g4b4_pixel(u16_le(raw, 2 * i) as u16))
}

/// Stretches a channel of at most six bits to eight.
fn stretch(value: u16, max: u16) -> (channel: u8)
    requires
        0 < max <= 63,
        value <= max,
    ensures
        channel == scale(value as int, max as int),
{
    assert(value * 255 <= max * 255) by (nonlinear_arith)
        requires
            value <= max,
    ;
    let wide: u16 = value * 255;
    let scaled: u16 = wide / max;
    assert(scaled <= 255) by (nonlinear_arith)
        requires
            scaled == wide / max,
            wide <= max * 255,
            0 < max,
    ;
    scaled as u8
}

/// Decodes a payload of three bytes per pixel (red, green, blue); every pixel
/// is opaque.
pub fn save_rgb24(buf: &[u8]) -> (colors: Vec<[u8; 4]>)
    ensures
        pixels(colors@) == rgb24_image(buf@),
{
    let count: usize = buf.len() / 3;
    let mut colors: Vec<[u8; 4]> = Vec::new();
    let mut i: usize = 0;
    while i < count
        invariant
            count == buf.len() / 3,
            i <= count,
            colors.len() == i,
            forall|j: int| 0 <= j < i ==> (#[trigger] colors@[j])@ == rgb24_image(buf@)[j],
        decreases count - i,
    {
        let color: [u8; 4] = [buf[3 * i], buf[3 * i + 1], buf[3 * i + 2], 255];
        assert(color@ =~= rgb24_image(buf@)[i as int]);
        colors.push(color);
        i += 1;
    }
    assert(pixels(colors@) =~= rgb24_image(buf@));
    colors
}

/// Decodes a payload of four bytes per pixel. The bytes of each group come
/// out as third, second, first, fourth: this is the order that existing
/// assets were observed to need, not the one the format's name suggests.
pub fn save_argb32(buf: &[u8]) -> (colors: Vec<[u8; 4]>)
    ensures
        pixels(colors@) == argb32_image(buf@),
{
    let count: usize = buf.len() / 4;
    let mut colors: Vec<[u8; 4]> = Vec::new();
    let mut i: usize = 0;
    while i < count
        invariant
            count == buf.len() / 4,
            i <= count,
            colors.len() == i,
            forall|j: int| 0 <= j < i ==> (#[trigger] colors@[j])@ == argb32_image(buf@)[j],
        decreases count - i,
    {
        let color: [u8; 4] = [buf[4 * i + 2], buf[4 * i + 1], buf[4 * i], buf[4 * i + 3]];
        assert(color@ =~= argb32_image(buf@)[i as int]);
        colors.push(color);
        i += 1;
    }
    assert(pixels(colors@) =~= argb32_image(buf@));
    colors
}

/// Decodes a payload of one little-endian 5-6-5 word per pixel; every pixel
/// is opaque.
pub fn save_r5g6b5(buf: &[u8]) -> (colors: Vec<[u8; 4]>)
    ensures
        pixels(colors@) == r5g6b5_image(buf@),
{
    let count: usize = buf.len() / 2;
    let mut colors: Vec<[u8; 4]> = Vec::new();
    let mut i: usize = 0;
    while i < count
        invariant
            count == buf.len() / 2,
            i <= count,
            colors.len() == i,
            forall|j: int| 0 <= j < i ==> (#[trigger] colors@[j])@ == r5g6b5_image(buf@)[j],
        decreases count - i,
    {
        let word: u16 = u16_at(buf, 2 * i);
        assert((word >> 11) & 0x1f <= 31 && (word >> 5) & 0x3f <= 63 && word & 0x1f <= 31)
            by (bit_vector);
        let r: u8 = stretch((word >> 11) & 0x1f, 31);
        let g: u8 = stretch((word >> 5) & 0x3f, 63);
        let b: u8 = stretch(word & 0x1f, 31);
        let color: [u8; 4] = [r, g, b, 255];
        assert(color@ =~= r5g6b5_image(buf@)[i as int]);
        colors.push(color);
        i += 1;
    }
    assert(pixels(colors@) =~= r5g6b5_image(buf@));
    colors
}

/// Decodes a payload of one little-endian 4-4-4-4 word per pixel. Alpha is
/// the high nibble of the word and the last byte of the pixel.
pub fn save_a4r4g4b4(buf: &[u8]) -> (colors: Vec<[u8; 4]>)
    ensures
        pixels(colors@) == a4r4g4b4_image(buf@),
{
    let count: usize = buf.len() / 2;
    let mut colors: Vec<[u8; 4]> = Vec::new();
    let mut i: usize = 0;
    while i < count
        invariant
            count == buf.len() / 2,
            i <= count,
            colors.len() == i,
            forall|j: int| 0 <= j < i ==> (#[trigger] colors@[j])@ == a4r4g4b4_image(buf@)[j],
        decreases count - i,
    {
        let word: u16 = u16_at(buf, 2 * i);
        assert((word >> 12) & 0xf <= 15 && (word >> 8) & 0xf <= 15 && (word >> 4) & 0xf <= 15
            && word & 0xf <= 15) by (bit_vector);
        let a: u8 = stretch((word >> 12) & 0xf, 15);
        let r: u8 = stretch((word >> 8) & 0xf, 15);
        let g: u8 = stretch((word >> 4) & 0xf, 15);
        let b: u8 = stretch(word & 0xf, 15);
        let color: [u8; 4] = [r, g, b, a];
        assert(color@ =~= a4r4g4b4_image(buf@)[i as int]);
        colors.push(color);
        i += 1;
    }
    assert(pixels(colors@) =~= a4r4g4b4_image(buf@));
    colors
}

} // verus!
