//! Decoders for the block-compressed encodings.
//!
//! The payload is a row-major sequence of compressed 4x4 blocks. The blocks
//! are decompressed by the `squish` crate into a buffer of four bytes per
//! pixel, which is then cut into RGBA quadruplets.

use vstd::prelude::*;
use crate::pixel::pixels;

verus! {

/// Number of 4x4 blocks needed to cover `size` pixels along one axis.
pub open spec fn blocks(size: nat) -> nat {
    (size + 3) / 4
}

/// Bytes a compressed image of the given size takes, at `unit` bytes per block.
pub open spec fn compressed_len(unit: nat, width: nat, height: nat) -> nat {
    blocks(width) * blocks(height) * unit
}

/// The bytes that `squish` decompresses the blocks of an image to: BC3 if
/// `with_alpha`, BC1 if not. The bytes are row-major, four per pixel, in the
/// order red, green, blue, alpha; pixels that pad the last blocks are left out.
pub uninterp spec fn squish_decompressed(
    with_alpha: bool,
    data: Seq<u8>,
    width: nat,
    height: nat,
) -> Seq<u8>;

/// Bytes per compressed block: sixteen with an alpha block, eight without.
pub open spec fn block_size(with_alpha: bool) -> nat {
    if with_alpha {
        16
    } else {
        8
    }
}

/// The blocks of an image: the bytes at the front of a payload that the
/// image takes.
pub open spec fn image_blocks(with_alpha: bool, data: Seq<u8>, width: nat, height: nat) -> Seq<u8> {
    data.subrange(0, compressed_len(block_size(with_alpha), width, height) as int)
}

/// The pixels of a block-compressed image.
pub open spec fn block_image(with_alpha: bool, data: Seq<u8>, width: nat, height: nat) -> Seq<
    Seq<u8>,
> {
    quads(squish_decompressed(with_alpha, image_blocks(with_alpha, data, width, height), width, height))
}

/// A byte buffer cut into consecutive groups of four.
pub open spec fn quads(bytes: Seq<u8>) -> Seq<Seq<u8>> {
    Seq::new(bytes.len() / 4, |i: int| bytes.subrange(4 * i, 4 * i + 4))
}

/// Calls `squish::Format::decompress`, as `Bc3` if `with_alpha` and as `Bc1`
/// if not. Trusted: given enough compressed blocks and an output buffer of
/// exactly four bytes per pixel, the call returns, leaves the buffer's length
/// as it was, and overwrites every byte of it with a value that depends on the
/// format, the dimensions and the blocks of the image alone; it reads no byte
/// of the data after those blocks.
#[verifier::external_body]
fn decompress_into(
    with_alpha: bool,
    data: &[u8],
    width: usize,
    height: usize,
    output: &mut Vec<u8>,
)
    requires
        width + 3 <= usize::MAX,
        height + 3 <= usize::MAX,
        data.len() >= compressed_len(block_size(with_alpha), width as nat, height as nat),
        old(output).len() == 4 * width * height,
    ensures
        final(output)@ == squish_decompressed(
            with_alpha,
            image_blocks(with_alpha, data@, width as nat, height as nat),
            width as nat,
            height as nat,
        ),
        final(output)@.len() == old(output)@.len(),
{
    let format = if with_alpha { squish::Format::Bc3 } else { squish::Format::Bc1 };
    format.decompress(data, width, height, output.as_mut_slice());
}

/// Cuts a buffer of RGBA bytes into quadruplets, in order. Bytes after the
/// last complete quadruplet are left out.
pub fn chunk_rgba(bytes: &[u8]) -> (colors: Vec<[u8; 4]>)
    ensures
        pixels(colors@) == quads(bytes@),
{
    let count: usize = bytes.len() / 4;
    let mut colors: Vec<[u8; 4]> = Vec::new();
    let mut i: usize = 0;
    while i < count
        invariant
            count == bytes.len() / 4,
            i <= count,
            colors.len() == i,
            forall|j: int| 0 <= j < i ==> (#[trigger] colors@[j])@ == quads(bytes@)[j],
        decreases count - i,
    {
        let color: [u8; 4] = [bytes[4 * i], bytes[4 * i + 1], bytes[4 * i + 2], bytes[4 * i + 3]];
        assert(color@ =~= quads(bytes@)[i as int]);
        colors.push(color);
        i += 1;
    }
    assert(pixels(colors@) =~= quads(bytes@));
    colors
}

/// Decompresses an image of `width` by `height` pixels and cuts it into
/// quadruplets.
fn save_blocks(with_alpha: bool, buf: &[u8], width: u32, height: u32) -> (colors: Vec<[u8; 4]>)
    requires
        buf.len() >= compressed_len(block_size(with_alpha), width as nat, height as nat),
        4 * width * height <= usize::MAX,
    ensures
        colors.len() == width * height,
        width > 0 && height > 0 ==> pixels(colors@) == block_image(
            with_alpha,
            buf@,
            width as nat,
            height as nat,
        ),
{
    if width == 0 || height == 0 {
        assert(width * height == 0) by (nonlinear_arith)
            requires
                width == 0 || height == 0,
        ;
        return Vec::new();
    }
    assert(4 * width <= 4 * width * height && 4 * height <= 4 * width * height
        && width * height > 0) by (nonlinear_arith)
        requires
            width >= 1,
            height >= 1,
    ;
    let w: usize = width as usize;
    let h: usize = height as usize;
    let size: usize = 4 * w * h;
    let mut output: Vec<u8> = vec![0u8; size];
    decompress_into(with_alpha, buf, w, h, &mut output);
    let colors = chunk_rgba(output.as_slice());
    assert(colors.len() == pixels(colors@).len());
    assert(4 * w * h == 4 * (width * height)) by (nonlinear_arith)
        requires
            w == width,
            h == height,
    ;
    colors
}

/// Decodes a BC1 payload. Sizes that are no multiple of four are covered by
/// whole blocks, whose surplus pixels are dropped.
pub fn save_dxt1(buf: &[u8], width: u32, height: u32) -> (colors: Vec<[u8; 4]>)
    requires
        buf.len() >= compressed_len(8, width as nat, height as nat),
        4 * width * height <= usize::MAX,
    ensures
        colors.len() == width * height,
        width > 0 && height > 0 ==> pixels(colors@) == block_image(
            false,
            buf@,
            width as nat,
            height as nat,
        ),
{
    save_blocks(false, buf, width, height)
}

/// Decodes a BC3 payload. Sizes that are no multiple of four are covered by
/// whole blocks, whose surplus pixels are dropped.
pub fn save_dxt5(buf: &[u8], width: u32, height: u32) -> (colors: Vec<[u8; 4]>)
    requires
        buf.len() >= compressed_len(16, width as nat, height as nat),
        4 * width * height <= usize::MAX,
    ensures
        colors.len() == width * height,
        width > 0 && height > 0 ==> pixels(colors@) == block_image(
            true,
            buf@,
            width as nat,
            height as nat,
        ),
{
    save_blocks(true, buf, width, height)
}

} // verus!
