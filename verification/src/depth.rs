//! The validated bit depth and the per-channel quantization rule.

use vstd::prelude::*;

verus! {

/// Bits of precision retained per color channel after quantization.
#[derive(Clone, Copy, PartialEq, Eq, Structural, Debug)]
pub enum Depth {
    B2,
    B4,
    B8,
}

/// Rejection of a raw depth argument outside {2, 4, 8}; carries the
/// offending input.
#[derive(Clone, Copy, PartialEq, Eq, Structural, Debug)]
pub struct InvalidDepth {
    pub value: u8,
}

/// The numeric depth represented by each variant.
pub open spec fn spec_depth_bits(d: Depth) -> u8 {
    match d {
        Depth::B2 => 2,
        Depth::B4 => 4,
        Depth::B8 => 8,
    }
}

/// The span of channel values that quantize to one output value: 2^(8 - depth).
pub open spec fn spec_bucket(d: Depth) -> u8 {
    match d {
        Depth::B2 => 64,
        Depth::B4 => 16,
        Depth::B8 => 1,
    }
}

/// The top `depth` bits of a channel value: `c >> (8 - depth)`.
pub open spec fn spec_top_bits(c: u8, d: Depth) -> u8 {
    c >> ((8 - spec_depth_bits(d)) as u8)
}

/// The centered-bucket quantization rule:
/// `(v / bucket) * bucket + bucket / 2`, with `bucket = 2^(8 - depth)`.
/// For depth 8 the bucket is 1 and the rule degenerates to the identity.
pub open spec fn spec_quantize(v: u8, d: Depth) -> u8 {
    match d {
        Depth::B2 => ((v / 64) * 64 + 32) as u8,
        Depth::B4 => ((v / 16) * 16 + 8) as u8,
        Depth::B8 => v,
    }
}

impl Depth {
    /// The depth as its numeric value: 2, 4, or 8.
    pub fn as_u8(&self) -> (r: u8)
        ensures
            r == spec_depth_bits(*self),
    {
        match self {
            Depth::B2 => 2,
            Depth::B4 => 4,
            Depth::B8 => 8,
        }
    }

    /// Validates a raw numeric depth: exactly 2, 4 and 8 are accepted;
    /// any other value is rejected, the error carrying the input.
    pub fn from_u8(depth: u8) -> (r: Result<Depth, InvalidDepth>)
        ensures
            r is Ok <==> (depth == 2 || depth == 4 || depth == 8),
            r is Ok ==> spec_depth_bits(r->Ok_0) == depth,
            r is Err ==> r->Err_0 == (InvalidDepth { value: depth }),
    {
        match depth {
            2 => Ok(Depth::B2),
            4 => Ok(Depth::B4),
            8 => Ok(Depth::B8),
            _ => Err(InvalidDepth { value: depth }),
        }
    }
}

/// Quantizes one 8-bit channel value to `2^depth` evenly spaced, centered
/// levels, following the centered-bucket rule exactly.
pub fn quantize(v: u8, d: Depth) -> (r: u8)
    ensures
        r == spec_quantize(v, d),
{
    match d {
        Depth::B2 => (v / 64) * 64 + 32,
        Depth::B4 => (v / 16) * 16 + 8,
        Depth::B8 => v,
    }
}

/// The quantized value follows one uniform rule at every depth:
/// `(v / bucket) * bucket + bucket / 2` with `bucket = 2^(8 - depth)`.
/// At depth 8 the bucket is 1, so the rule is the identity and the
/// quantizer may be skipped.
pub proof fn lemma_quantize_formula(v: u8, d: Depth)
    ensures
        spec_quantize(v, d) == (v / spec_bucket(d)) * spec_bucket(d) + spec_bucket(d) / 2,
{
    match d {
        Depth::B2 => {
            assert((v / 64) * 64 + 32 < 256) by (bit_vector);
        },
        Depth::B4 => {
            assert((v / 16) * 16 + 8 < 256) by (bit_vector);
        },
        Depth::B8 => {
            assert(v / 1 == v) by (bit_vector);
        },
    }
}

/// Quantization is idempotent: re-quantizing an already-quantized channel
/// value at the same depth leaves it unchanged.
pub proof fn lemma_quantize_idempotent(v: u8, d: Depth)
    ensures
        spec_quantize(spec_quantize(v, d), d) == spec_quantize(v, d),
{
    match d {
        Depth::B2 => {
            assert(((((v / 64) * 64 + 32) as u8) / 64) * 64 + 32 == (v / 64) * 64 + 32)
                by (bit_vector);
        },
        Depth::B4 => {
            assert(((((v / 16) * 16 + 8) as u8) / 16) * 16 + 8 == (v / 16) * 16 + 8)
                by (bit_vector);
        },
        Depth::B8 => {},
    }
}

/// Quantization never moves a value out of its bucket: the top `depth` bits
/// of the quantized value equal the top `depth` bits of the input.
pub proof fn lemma_quantize_preserves_top_bits(v: u8, d: Depth)
    ensures
        spec_top_bits(spec_quantize(v, d), d) == spec_top_bits(v, d),
{
    match d {
        Depth::B2 => {
            assert((((v / 64) * 64 + 32) as u8) >> 6u8 == v >> 6u8) by (bit_vector);
        },
        Depth::B4 => {
            assert((((v / 16) * 16 + 8) as u8) >> 4u8 == v >> 4u8) by (bit_vector);
        },
        Depth::B8 => {
            assert(v >> 0u8 == v) by (bit_vector);
        },
    }
}

/// The quantized value is a function of the top `depth` bits alone: two
/// channel values that share their top `depth` bits quantize identically.
pub proof fn lemma_quantize_depends_on_top_bits(v1: u8, v2: u8, d: Depth)
    requires
        spec_top_bits(v1, d) == spec_top_bits(v2, d),
    ensures
        spec_quantize(v1, d) == spec_quantize(v2, d),
{
    match d {
        Depth::B2 => {
            assert(v1 >> 6u8 == v2 >> 6u8 ==> (v1 / 64) * 64 + 32 == (v2 / 64) * 64 + 32)
                by (bit_vector);
        },
        Depth::B4 => {
            assert(v1 >> 4u8 == v2 >> 4u8 ==> (v1 / 16) * 16 + 8 == (v2 / 16) * 16 + 8)
                by (bit_vector);
        },
        Depth::B8 => {
            assert(v1 >> 0u8 == v2 >> 0u8 ==> v1 == v2) by (bit_vector);
        },
    }
}

} // verus!
