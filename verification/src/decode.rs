//! Dispatch from a declared format to its decoder.

use vstd::prelude::*;
use vstd::slice::slice_subrange;
use crate::block::{block_image, compressed_len, save_dxt1, save_dxt5};
use crate::format::TextureFormat;
use crate::pixel::{
    a4r4g4b4_image, argb32_image, pixels, r5g6b5_image, rgb24_image, save_a4r4g4b4, save_argb32,
    save_r5g6b5, save_rgb24,
};

verus! {

/// Why a payload was not decoded.
#[derive(Clone, Copy, Debug, PartialEq, Eq, Structural)]
pub enum DecodeError {
    /// No decoder exists for the declared format.
    UnsupportedFormat,
    /// The payload is shorter than an image of the declared size takes.
    MalformedPayload,
    /// An image of the declared size cannot be addressed on this machine.
    TooLarge,
}

/// Bytes that an image of the given size takes in the given format.
pub open spec fn payload_len(format: TextureFormat, width: nat, height: nat) -> nat {
    if format.spec_is_block_compressed() {
        compressed_len(format.spec_unit_size(), width, height)
    } else {
        width * height * format.spec_unit_size()
    }
}

/// Every pixel that a payload holds in the given format, however many the
/// header declares.
pub open spec fn payload_image(
    format: TextureFormat,
    raw: Seq<u8>,
    width: nat,
    height: nat,
) -> Seq<Seq<u8>> {
    match format {
        TextureFormat::Dxt1 => block_image(false, raw, width, height),
        TextureFormat::Dxt5 => block_image(true, raw, width, height),
        TextureFormat::Rgb24 => rgb24_image(raw),
        TextureFormat::Argb32 => argb32_image(raw),
        TextureFormat::R5g6b5 => r5g6b5_image(raw),
        TextureFormat::A4r4g4b4 => a4r4g4b4_image(raw),
        TextureFormat::Acf => Seq::empty(),
        TextureFormat::Unknow => Seq::empty(),
    }
}

/// The decoded image: the first `width * height` pixels of the payload, in
/// row-major order.
pub open spec fn decoded(
    format: TextureFormat,
    raw: Seq<u8>,
    width: nat,
    height: nat,
) -> Seq<Seq<u8>> {
    Seq::new(width * height, |i: int| payload_image(format, raw, width, height)[i])
}

/// Whether four bytes per pixel of an image of this size can be addressed.
pub open spec fn addressable(width: nat, height: nat) -> bool {
    4 * width * height <= usize::MAX
}

/// What `decode` returns for a payload of `len` bytes, but for the pixels.
pub open spec fn decode_outcome(
    format: TextureFormat,
    len: nat,
    width: nat,
    height: nat,
) -> Result<(), DecodeError> {
    if !format.spec_is_supported() {
        Err(DecodeError::UnsupportedFormat)
    } else if !addressable(width, height) {
        Err(DecodeError::TooLarge)
    } else if len < payload_len(format, width, height) {
        Err(DecodeError::MalformedPayload)
    } else {
        Ok(())
    }
}

/// A payload of exactly the length that an addressable image takes in a
/// supported format is decoded, to one quadruplet for each pixel.
pub proof fn lemma_exact_payload_gives_every_pixel(
    format: TextureFormat,
    raw: Seq<u8>,
    width: nat,
    height: nat,
)
    requires
        format.spec_is_supported(),
        addressable(width, height),
        raw.len() == payload_len(format, width, height),
    ensures
        decode_outcome(format, raw.len(), width, height) is Ok,
        decoded(format, raw, width, height).len() == width * height,
{
}

/// Bytes after those that the image takes change nothing.
pub proof fn lemma_trailing_bytes_are_ignored(
    format: TextureFormat,
    raw: Seq<u8>,
    extra: Seq<u8>,
    width: nat,
    height: nat,
)
    requires
        format.spec_is_supported(),
        raw.len() >= payload_len(format, width, height),
    ensures
        decoded(format, raw + extra, width, height) == decoded(format, raw, width, height),
{
    let count = width * height;
    let long = raw + extra;
    if format.spec_is_block_compressed() {
        let need = payload_len(format, width, height) as int;
        assert(long.subrange(0, need) =~= raw.subrange(0, need));
    } else {
        let unit = format.spec_unit_size() as int;
        let len = raw.len() as int;
        assert(len / unit >= count) by (nonlinear_arith)
            requires
                len >= count * unit,
                unit > 0,
        ;
        assert(long.len() as int / unit >= len / unit) by (nonlinear_arith)
            requires
                long.len() >= len,
                len >= 0,
                unit > 0,
        ;
        assert forall|i: int| 0 <= i < count implies decoded(format, long, width, height)[i]
            =~= decoded(format, raw, width, height)[i] by {
            assert(unit * i + unit <= unit * count) by (nonlinear_arith)
                requires
                    0 <= i < count,
                    unit > 0,
            ;
            assert(forall|k: int| 0 <= k < len ==> long[k] == raw[k]);
        }
        assert(decoded(format, long, width, height) =~~= decoded(format, raw, width, height));
    }
}

/// Bytes that an image of the given size takes, or `None` if four bytes per
/// pixel of it cannot be addressed.
fn needed_len(format: TextureFormat, width: u32, height: u32) -> (need: Option<u128>)
    requires
        format.spec_is_supported(),
    ensures
        need is Some <==> addressable(width as nat, height as nat),
        need matches Some(n) ==> n == payload_len(format, width as nat, height as nat),
{
    let w: u128 = width as u128;
    let h: u128 = height as u128;
    assert(w * h <= 0xffff_ffff * 0xffff_ffff) by (nonlinear_arith)
        requires
            w <= 0xffff_ffff,
            h <= 0xffff_ffff,
    ;
    let area: u128 = w * h;
    assert(4 * width * height == 4 * (w * h)) by (nonlinear_arith)
        requires
            w == width,
            h == height,
    ;
    if 4 * area > usize::MAX as u128 {
        return None;
    }
    let unit: u128 = format.unit_size() as u128;
    if format.is_block_compressed() {
        let bw: u128 = (w + 3) / 4;
        let bh: u128 = (h + 3) / 4;
        assert(bw * bh <= 0x4000_0000 * 0x4000_0000) by (nonlinear_arith)
            requires
                bw <= 0x4000_0000,
                bh <= 0x4000_0000,
        ;
        assert(bw * bh * unit <= 0x4000_0000 * 0x4000_0000 * 16) by (nonlinear_arith)
            requires
                bw * bh <= 0x4000_0000 * 0x4000_0000,
                unit <= 16,
        ;
        Some(bw * bh * unit)
    } else {
        assert(area * unit <= 0xffff_ffff * 0xffff_ffff * 4) by (nonlinear_arith)
            requires
                area <= 0xffff_ffff * 0xffff_ffff,
                unit <= 4,
        ;
        Some(area * unit)
    }
}

/// Decodes a payload into `width * height` RGBA quadruplets, row-major.
///
/// A format without a decoder is reported as such. A payload shorter than
/// the image takes is malformed; bytes beyond what the image takes are
/// ignored.
pub fn decode(format: TextureFormat, raw: &[u8], width: u32, height: u32) -> (result: Result<
    Vec<[u8; 4]>,
    DecodeError,
>)
    ensures
        match result {
            Ok(colors) => {
                &&& decode_outcome(format, raw@.len(), width as nat, height as nat) is Ok
                &&& colors.len() == width * height
                &&& pixels(colors@) == decoded(format, raw@, width as nat, height as nat)
            },
            Err(e) => decode_outcome(format, raw@.len(), width as nat, height as nat) == Err::<
                (),
                DecodeError,
            >(e),
        },
{
    if !format.is_supported() {
        return Err(DecodeError::UnsupportedFormat);
    }
    let need: u128 = match needed_len(format, width, height) {
        Some(n) => n,
        None => {
            return Err(DecodeError::TooLarge);
        },
    };
    if (raw.len() as u128) < need {
        return Err(DecodeError::MalformedPayload);
    }
    let take: usize = need as usize;
    let ghost count: nat = (width * height) as nat;
    let ghost want = decoded(format, raw@, width as nat, height as nat);
    let colors = match format {
        TextureFormat::Dxt1 => save_dxt1(raw, width, height),
        TextureFormat::Dxt5 => save_dxt5(raw, width, height),
        TextureFormat::Rgb24 => save_rgb24(slice_subrange(raw, 0, take)),
        TextureFormat::Argb32 => save_argb32(slice_subrange(raw, 0, take)),
        TextureFormat::R5g6b5 => save_r5g6b5(slice_subrange(raw, 0, take)),
        _ => save_a4r4g4b4(slice_subrange(raw, 0, take)),
    };
    proof {
        if format.spec_is_block_compressed() {
            if width == 0 || height == 0 {
                assert(width * height == 0) by (nonlinear_arith)
                    requires
                        width == 0 || height == 0,
                ;
            }
            assert(pixels(colors@) =~~= want);
        } else {
            let unit = format.spec_unit_size();
            let part = raw@.subrange(0, take as int);
            let rest = raw@.subrange(take as int, raw@.len() as int);
            assert(count * unit / unit == count) by (nonlinear_arith)
                requires
                    unit > 0,
            ;
            assert(pixels(colors@) == payload_image(format, part, width as nat, height as nat));
            assert(pixels(colors@) =~~= decoded(format, part, width as nat, height as nat));
            assert(raw@ =~= part + rest);
            lemma_trailing_bytes_are_ignored(format, part, rest, width as nat, height as nat);
        }
    }
    Ok(colors)
}

} // verus!
