//! Decoding of fixed-layout texture containers into RGBA pixels.
//!
//! A container is a 72-byte header, a four-byte little-endian payload length
//! and the payload itself. The modules below parse the header, decode each
//! pixel encoding into RGBA quadruplets, drive the per-file state machine and
//! decide which entries of a directory tree are textures.

pub mod block;
pub mod decode;
pub mod format;
pub mod header;
pub mod pipeline;
pub mod pixel;
pub mod walk;
pub mod wire;
