//! The pixel encodings a texture container can declare.

use vstd::prelude::*;

verus! {

/// Pixel encoding of a texture payload, stored on disk as a 32-bit ordinal.
#[derive(Clone, Copy, Debug, PartialEq, Eq, Structural)]
pub enum TextureFormat {
    /// BC1 block compression, eight bytes per 4x4 block.
    Dxt1,
    /// BC3 block compression, sixteen bytes per 4x4 block.
    Dxt5,
    /// Three bytes per pixel: red, green, blue.
    Rgb24,
    /// Four bytes per pixel.
    Argb32,
    /// One little-endian 16-bit word per pixel: 5 bits red, 6 green, 5 blue.
    R5g6b5,
    /// One little-endian 16-bit word per pixel: 4 bits each of alpha, red, green, blue.
    A4r4g4b4,
    /// Recognised but not decodable.
    Acf,
    /// Any ordinal outside the known set.
    Unknow,
}

impl TextureFormat {
    /// The format that an on-disk ordinal stands for.
    pub open spec fn spec_from_ordinal(ordinal: u32) -> TextureFormat {
        if ordinal == 0 {
            TextureFormat::Dxt1
        } else if ordinal == 1 {
            TextureFormat::Dxt5
        } else if ordinal == 2 {
            TextureFormat::Rgb24
        } else if ordinal == 3 {
            TextureFormat::Argb32
        } else if ordinal == 4 {
            TextureFormat::R5g6b5
        } else if ordinal == 5 {
            TextureFormat::A4r4g4b4
        } else if ordinal == 6 {
            TextureFormat::Acf
        } else {
            TextureFormat::Unknow
        }
    }

    /// Whether a decoder exists for this format.
    pub open spec fn spec_is_supported(self) -> bool {
        self != TextureFormat::Acf && self != TextureFormat::Unknow
    }

    /// Whether the payload is a sequence of compressed 4x4 blocks.
    pub open spec fn spec_is_block_compressed(self) -> bool {
        self == TextureFormat::Dxt1 || self == TextureFormat::Dxt5
    }

    /// Payload bytes per pixel of a raw format, per 4x4 block of a compressed
    /// one, and 0 where no decoder exists.
    pub open spec fn spec_unit_size(self) -> nat {
        match self {
            TextureFormat::Dxt1 => 8,
            TextureFormat::Dxt5 => 16,
            TextureFormat::Rgb24 => 3,
            TextureFormat::Argb32 => 4,
            TextureFormat::R5g6b5 => 2,
            TextureFormat::A4r4g4b4 => 2,
            TextureFormat::Acf => 0,
            TextureFormat::Unknow => 0,
        }
    }

    /// Decodes an on-disk ordinal; every value outside 0..=6 is `Unknow`.
    pub fn from_ordinal(ordinal: u32) -> (format: TextureFormat)
        ensures
            format == Self::spec_from_ordinal(ordinal),
    {
        match ordinal {
            0 => TextureFormat::Dxt1,
            1 => TextureFormat::Dxt5,
            2 => TextureFormat::Rgb24,
            3 => TextureFormat::Argb32,
            4 => TextureFormat::R5g6b5,
            5 => TextureFormat::A4r4g4b4,
            6 => TextureFormat::Acf,
            _ => TextureFormat::Unknow,
        }
    }

    /// Whether a decoder exists for this format.
    #[verifier::when_used_as_spec(spec_is_supported)]
    pub fn is_supported(self) -> (supported: bool)
        ensures
            supported == self.spec_is_supported(),
    {
        match self {
            TextureFormat::Acf => false,
            TextureFormat::Unknow => false,
            _ => true,
        }
    }

    /// Whether the payload is a sequence of compressed 4x4 blocks.
    #[verifier::when_used_as_spec(spec_is_block_compressed)]
    pub fn is_block_compressed(self) -> (compressed: bool)
        ensures
            compressed == self.spec_is_block_compressed(),
    {
        match self {
            TextureFormat::Dxt1 => true,
            TextureFormat::Dxt5 => true,
            _ => false,
        }
    }

    /// Payload bytes per pixel of a raw format, per 4x4 block of a compressed
    /// one, and 0 where no decoder exists.
    pub fn unit_size(self) -> (size: usize)
        ensures
            size == self.spec_unit_size(),
    {
        match self {
            TextureFormat::Dxt1 => 8,
            TextureFormat::Dxt5 => 16,
            TextureFormat::Rgb24 => 3,
            TextureFormat::Argb32 => 4,
            TextureFormat::R5g6b5 => 2,
            TextureFormat::A4r4g4b4 => 2,
            TextureFormat::Acf => 0,
            TextureFormat::Unknow => 0,
        }
    }
}

} // verus!
