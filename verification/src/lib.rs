//! Conversion of an RGB raster image into per-pixel hexadecimal text lines.
//!
//! Each pixel's three 8-bit channels are quantized to a reduced bit depth
//! (2, 4, or 8 bits per channel), then the top `depth` bits of each channel
//! are packed into one integer and rendered as a lowercase hexadecimal line,
//! zero-padded to exactly `depth` digits.

pub mod buffer;
pub mod depth;
pub mod encode;
pub mod program_args;

pub use buffer::DynamicImageBuffer;
pub use depth::Depth;
pub use depth::InvalidDepth;
pub use program_args::ProgramArgs;
