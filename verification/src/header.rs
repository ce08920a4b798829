//! The fixed-size header that opens every texture container.

use vstd::prelude::*;
use crate::format::TextureFormat;
use crate::wire::{u16_at, u16_le, u32_at, u32_le};

verus! {

/// Number of bytes the header occupies on disk: two identification words,
/// six words of description, two half-words of frame data and nine reserved
/// words.
pub const TEXTURE_SIZE: usize = 72;

/// What a container says about its payload.
#[derive(Clone, Copy, Debug)]
pub struct Header {
    /// Total size the container declares for itself; informational.
    pub size: u32,
    /// Pixel encoding of the payload.
    pub format: TextureFormat,
    /// Exact byte length of the payload.
    pub data_size: u32,
    /// Width of the image in pixels.
    pub width: u32,
    /// Height of the image in pixels.
    pub height: u32,
    /// Number of mipmap levels.
    pub mipmap: u32,
    /// Number of extra frames; non-zero for animated textures.
    pub ex_frame_count: u16,
    /// Frame cycle of an animated texture.
    pub frame_circle: u16,
    /// Reserved words, kept as they are on disk.
    pub reserve: [u32; 9],
}

/// The whole fixed-size block: identification words, then the header.
#[derive(Clone, Copy, Debug)]
pub struct Texture {
    /// Resource tag.
    pub res: u32,
    /// Version of the container layout.
    pub version: u32,
    /// Description of the payload.
    pub head: Header,
}

impl Header {
    /// Whether the texture carries extra frames, as animated textures do.
    /// Such frames are detected and never decoded.
    pub open spec fn spec_has_extra_frames(&self) -> bool {
        self.ex_frame_count > 0
    }

    /// Whether the texture carries extra frames, as animated textures do.
    /// Such frames are detected and never decoded.
    #[verifier::when_used_as_spec(spec_has_extra_frames)]
    pub fn has_extra_frames(&self) -> (extra: bool)
        ensures
            extra == self.spec_has_extra_frames(),
    {
        self.ex_frame_count > 0
    }
}

/// Whether `head` is the description that the header block `bytes` holds:
/// every field read little-endian at its fixed offset, in declaration order.
pub open spec fn holds_header(bytes: Seq<u8>, head: Header) -> bool {
    &&& head.size == u32_le(bytes, 8)
    &&& head.format == TextureFormat::spec_from_ordinal(u32_le(bytes, 12) as u32)
    &&& head.data_size == u32_le(bytes, 16)
    &&& head.width == u32_le(bytes, 20)
    &&& head.height == u32_le(bytes, 24)
    &&& head.mipmap == u32_le(bytes, 28)
    &&& head.ex_frame_count == u16_le(bytes, 32)
    &&& head.frame_circle == u16_le(bytes, 34)
    &&& forall|k: int| 0 <= k < 9 ==> #[trigger] head.reserve@[k] == u32_le(bytes, 36 + 4 * k)
}

/// Whether `tex` is what the header block `bytes` holds: the two
/// identification words, then the description.
pub open spec fn holds_texture(bytes: Seq<u8>, tex: Texture) -> bool {
    &&& tex.res == u32_le(bytes, 0)
    &&& tex.version == u32_le(bytes, 4)
    &&& holds_header(bytes, tex.head)
}

/// A header block holds one texture and no other.
pub proof fn lemma_header_block_holds_one_texture(bytes: Seq<u8>, a: Texture, b: Texture)
    requires
        holds_texture(bytes, a),
        holds_texture(bytes, b),
    ensures
        a == b,
{
    assert(a.head.reserve =~= b.head.reserve) by {
        assert forall|k: int| 0 <= k < 9 implies a.head.reserve[k] == b.head.reserve[k] by {
            assert(a.head.reserve@[k] == u32_le(bytes, 36 + 4 * k));
            assert(b.head.reserve@[k] == u32_le(bytes, 36 + 4 * k));
        }
    }
}

/// Parses a header block. No field is checked against any other: the block
/// only has to have the header's size.
pub fn parse_tex(buf: &[u8]) -> (tex: Texture)
    requires
        buf.len() == TEXTURE_SIZE,
    ensures
        holds_texture(buf@, tex),
{
    let reserve: [u32; 9] = [
        u32_at(buf, 36),
        u32_at(buf, 40),
        u32_at(buf, 44),
        u32_at(buf, 48),
        u32_at(buf, 52),
        u32_at(buf, 56),
        u32_at(buf, 60),
        u32_at(buf, 64),
        u32_at(buf, 68),
    ];
    Texture {
        res: u32_at(buf, 0),
        version: u32_at(buf, 4),
        head: Header {
            size: u32_at(buf, 8),
            format: TextureFormat::from_ordinal(u32_at(buf, 12)),
            data_size: u32_at(buf, 16),
            width: u32_at(buf, 20),
            height: u32_at(buf, 24),
            mipmap: u32_at(buf, 28),
            ex_frame_count: u16_at(buf, 32),
            frame_circle: u16_at(buf, 34),
            reserve,
        },
    }
}

} // verus!
