//! The in-memory image: a row-major grid of RGB pixels together with the
//! validated depth the pipeline runs at.

use vstd::prelude::*;

use crate::depth::Depth;
use crate::depth::quantize;
use crate::depth::spec_quantize;

verus! {

/// A decoded RGB image held as raw bytes in row-major order, three bytes per
/// pixel (red, green, blue), paired with the validated depth selected for
/// the run.
pub struct DynamicImageBuffer {
    width: u32,
    height: u32,
    depth: Depth,
    bytes: Vec<u8>,
}

impl DynamicImageBuffer {
    /// The raw channel bytes, row-major, three per pixel.
    pub closed spec fn spec_bytes(&self) -> Seq<u8> {
        self.bytes@
    }

    /// The depth the buffer was built for.
    pub closed spec fn spec_depth(&self) -> Depth {
        self.depth
    }

    pub closed spec fn spec_width(&self) -> u32 {
        self.width
    }

    pub closed spec fn spec_height(&self) -> u32 {
        self.height
    }

    /// The buffer holds exactly three channel bytes for every pixel of the
    /// grid.
    pub open spec fn wf(&self) -> bool {
        self.spec_bytes().len() == 3 * (self.spec_width() as int) * (self.spec_height() as int)
    }

    /// Builds a buffer from decoded raw bytes; accepted exactly when the
    /// byte count matches three channels per pixel of a `width` x `height`
    /// grid.
    pub fn from_raw(width: u32, height: u32, depth: Depth, bytes: Vec<u8>) -> (r: Option<
        DynamicImageBuffer,
    >)
        ensures
            r is Some <==> bytes@.len() == 3 * (width as int) * (height as int),
            r is Some ==> {
                &&& r->0.wf()
                &&& r->0.spec_bytes() == bytes@
                &&& r->0.spec_depth() == depth
                &&& r->0.spec_width() == width
                &&& r->0.spec_height() == height
            },
    {
        proof {
            assert(3 * (width as int) * (height as int) <= 3 * 0xffff_ffff * 0xffff_ffff)
                by (nonlinear_arith);
        }
        let expected: u128 = 3u128 * (width as u128) * (height as u128);
        if (bytes.len() as u128) == expected {
            Some(DynamicImageBuffer { width, height, depth, bytes })
        } else {
            None
        }
    }

    /// The raw channel bytes, row-major, three per pixel.
    pub fn as_bytes(&self) -> (r: &[u8])
        ensures
            r@ == self.spec_bytes(),
    {
        self.bytes.as_slice()
    }

    /// The depth the buffer was built for.
    pub fn depth(&self) -> (r: Depth)
        ensures
            r == self.spec_depth(),
    {
        self.depth
    }
}

/// Quantizes every channel byte of the buffer in place, each independently
/// of all others, following the centered-bucket rule at the buffer's depth.
/// At depth 8 the rule is the identity and the buffer comes back unchanged.
pub fn down_sample(buffer: DynamicImageBuffer) -> (r: DynamicImageBuffer)
    ensures
        r.spec_depth() == buffer.spec_depth(),
        r.spec_width() == buffer.spec_width(),
        r.spec_height() == buffer.spec_height(),
        r.spec_bytes().len() == buffer.spec_bytes().len(),
        forall|j: int|
            0 <= j < buffer.spec_bytes().len() ==> r.spec_bytes()[j] == spec_quantize(
                buffer.spec_bytes()[j],
                buffer.spec_depth(),
            ),
{
    let mut b = buffer;
    let d = b.depth;
    let n = b.bytes.len();
    let mut i: usize = 0;
    while i < n
        invariant
            n == b.bytes@.len(),
            i <= n,
            b.depth == buffer.spec_depth(),
            b.width == buffer.spec_width(),
            b.height == buffer.spec_height(),
            d == b.depth,
            forall|j: int| 0 <= j < i ==> b.bytes@[j] == spec_quantize(buffer.spec_bytes()[j], d),
            forall|j: int| i <= j < n ==> b.bytes@[j] == buffer.spec_bytes()[j],
        decreases n - i,
    {
        let v = b.bytes[i];
        b.bytes.set(i, quantize(v, d));
        i = i + 1;
    }
    b
}

} // verus!
