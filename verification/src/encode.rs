//! Packing the top `depth` bits of the three channels of a pixel into one
//! integer and rendering it as a zero-padded lowercase hexadecimal line.

use vstd::prelude::*;

use crate::buffer::DynamicImageBuffer;
use crate::buffer::down_sample;
use crate::depth::Depth;
use crate::depth::lemma_quantize_preserves_top_bits;
use crate::depth::spec_depth_bits;
use crate::depth::spec_quantize;
use crate::depth::spec_top_bits;

verus! {

/// The packed value of a pixel: the top `depth` bits of red, green and blue
/// concatenated in that order, red most significant, accumulated as
/// `acc = (acc << depth) | top_bits(channel)`.
pub open spec fn spec_pack(r: u8, g: u8, b: u8, d: Depth) -> u32 {
    (((((spec_top_bits(r, d) as u32) << (spec_depth_bits(d) as u32)) | (spec_top_bits(g, d)
        as u32)) << (spec_depth_bits(d) as u32)) | (spec_top_bits(b, d) as u32))
}

/// The hexadecimal digit character for a value below 16, lowercase.
pub open spec fn spec_hex_digit(n: u32) -> char {
    if n == 0 {
        '0'
    } else if n == 1 {
        '1'
    } else if n == 2 {
        '2'
    } else if n == 3 {
        '3'
    } else if n == 4 {
        '4'
    } else if n == 5 {
        '5'
    } else if n == 6 {
        '6'
    } else if n == 7 {
        '7'
    } else if n == 8 {
        '8'
    } else if n == 9 {
        '9'
    } else if n == 10 {
        'a'
    } else if n == 11 {
        'b'
    } else if n == 12 {
        'c'
    } else if n == 13 {
        'd'
    } else if n == 14 {
        'e'
    } else {
        'f'
    }
}

/// The hexadecimal digit of `v` at position `i` of a rendering `width`
/// digits wide, position 0 being the most significant.
pub open spec fn spec_nibble(v: u32, width: nat, i: int) -> u32 {
    (v >> ((4 * (width - 1 - i)) as u32)) & 0xf
}

/// The rendering of `v` as exactly `width` lowercase hexadecimal digits,
/// most significant first, zero-padded on the left.
pub open spec fn spec_hex_line(v: u32, width: nat) -> Seq<char> {
    Seq::new(width, |i: int| spec_hex_digit(spec_nibble(v, width, i)))
}

/// The text line emitted for a pixel: its packed value rendered as exactly
/// `depth` hexadecimal digits. The padding width is deliberately `depth`
/// itself, not the packed bit width over four: the output format keys the
/// line width to the depth.
pub open spec fn spec_pixel_line(r: u8, g: u8, b: u8, d: Depth) -> Seq<char> {
    spec_hex_line(spec_pack(r, g, b, d), spec_depth_bits(d) as nat)
}

/// A lowercase hexadecimal digit character.
pub open spec fn is_hex_char(c: char) -> bool {
    ('0' <= c && c <= '9') || ('a' <= c && c <= 'f')
}

/// The lowercase hexadecimal digit for a value below 16, as a one-character
/// string slice.
fn hex_digit_str(n: u32) -> (r: &'static str)
    requires
        n < 16,
    ensures
        r@ == seq![spec_hex_digit(n)],
{
    proof {
        reveal_strlit("0");
        reveal_strlit("1");
        reveal_strlit("2");
        reveal_strlit("3");
        reveal_strlit("4");
        reveal_strlit("5");
        reveal_strlit("6");
        reveal_strlit("7");
        reveal_strlit("8");
        reveal_strlit("9");
        reveal_strlit("a");
        reveal_strlit("b");
        reveal_strlit("c");
        reveal_strlit("d");
        reveal_strlit("e");
        reveal_strlit("f");
    }
    match n {
        0 => "0",
        1 => "1",
        2 => "2",
        3 => "3",
        4 => "4",
        5 => "5",
        6 => "6",
        7 => "7",
        8 => "8",
        9 => "9",
        10 => "a",
        11 => "b",
        12 => "c",
        13 => "d",
        14 => "e",
        _ => "f",
    }
}

/// Encodes one pixel at the given depth: packs the top `depth` bits of each
/// channel, red first, and renders the packed value as exactly `depth`
/// lowercase hexadecimal digits.
pub fn encode_pixel(r: u8, g: u8, b: u8, d: Depth) -> (line: String)
    ensures
        line@ == spec_pixel_line(r, g, b, d),
{
    let bits: u8 = d.as_u8();
    let shift: u8 = 8 - bits;
    let tr: u32 = (r >> shift) as u32;
    let tg: u32 = (g >> shift) as u32;
    let tb: u32 = (b >> shift) as u32;
    let packed: u32 = (((tr << (bits as u32)) | tg) << (bits as u32)) | tb;
    let width: usize = bits as usize;
    let ghost w: nat = width as nat;
    let mut line = String::new();
    let mut i: usize = 0;
    while i < width
        invariant
            i <= width,
            width <= 8,
            w == width as nat,
            line@ =~= spec_hex_line(packed, w).subrange(0, i as int),
        decreases width - i,
    {
        let sh: u32 = (4 * (width - 1 - i)) as u32;
        let nib: u32 = (packed >> sh) & 0xf;
        assert((packed >> sh) & 0xf < 16) by (bit_vector);
        let ds = hex_digit_str(nib);
        line.append(ds);
        proof {
            assert(line@ =~= spec_hex_line(packed, w).subrange(0, i + 1));
        }
        i = i + 1;
    }
    proof {
        assert(line@ =~= spec_hex_line(packed, w));
    }
    line
}

/// Encodes every pixel of the buffer, one line per pixel in row-major
/// order, at the buffer's depth.
pub fn encode_lines(buffer: &DynamicImageBuffer) -> (lines: Vec<String>)
    requires
        buffer.wf(),
    ensures
        3 * lines@.len() == buffer.spec_bytes().len(),
        forall|p: int|
            0 <= p < lines@.len() ==> lines@[p]@ == spec_pixel_line(
                buffer.spec_bytes()[3 * p],
                buffer.spec_bytes()[3 * p + 1],
                buffer.spec_bytes()[3 * p + 2],
                buffer.spec_depth(),
            ),
{
    let bytes = buffer.as_bytes();
    let d = buffer.depth();
    let n = bytes.len();
    proof {
        let wd = buffer.spec_width() as int;
        let ht = buffer.spec_height() as int;
        let q = wd * ht;
        assert(3 * wd * ht == 3 * (wd * ht)) by (nonlinear_arith);
        assert(n == 3 * q);
        assert(n / 3 == q);
    }
    let npix: usize = n / 3;
    let mut lines: Vec<String> = Vec::new();
    let mut p: usize = 0;
    while p < npix
        invariant
            3 * npix == n,
            n == bytes@.len(),
            bytes@ == buffer.spec_bytes(),
            d == buffer.spec_depth(),
            p <= npix,
            lines@.len() == p,
            forall|j: int|
                0 <= j < p ==> lines@[j]@ == spec_pixel_line(
                    bytes@[3 * j],
                    bytes@[3 * j + 1],
                    bytes@[3 * j + 2],
                    d,
                ),
        decreases npix - p,
    {
        let r = bytes[3 * p];
        let g = bytes[3 * p + 1];
        let b = bytes[3 * p + 2];
        let line = encode_pixel(r, g, b, d);
        lines.push(line);
        p = p + 1;
    }
    lines
}

/// The whole pure pipeline: quantizes every channel of the buffer at its
/// depth, then encodes one line per pixel in row-major order. Because
/// quantization preserves the top `depth` bits of every channel, the lines
/// also equal the direct encoding of the unquantized buffer.
pub fn convert(buffer: DynamicImageBuffer) -> (lines: Vec<String>)
    requires
        buffer.wf(),
    ensures
        3 * lines@.len() == buffer.spec_bytes().len(),
        forall|p: int|
            0 <= p < lines@.len() ==> lines@[p]@ == spec_pixel_line(
                spec_quantize(buffer.spec_bytes()[3 * p], buffer.spec_depth()),
                spec_quantize(buffer.spec_bytes()[3 * p + 1], buffer.spec_depth()),
                spec_quantize(buffer.spec_bytes()[3 * p + 2], buffer.spec_depth()),
                buffer.spec_depth(),
            ),
        forall|p: int|
            0 <= p < lines@.len() ==> lines@[p]@ == spec_pixel_line(
                buffer.spec_bytes()[3 * p],
                buffer.spec_bytes()[3 * p + 1],
                buffer.spec_bytes()[3 * p + 2],
                buffer.spec_depth(),
            ),
{
    let ghost orig = buffer.spec_bytes();
    let ghost d = buffer.spec_depth();
    let quantized = down_sample(buffer);
    let lines = encode_lines(&quantized);
    proof {
        assert forall|p: int| 0 <= p < lines@.len() implies lines@[p]@ == spec_pixel_line(
            orig[3 * p],
            orig[3 * p + 1],
            orig[3 * p + 2],
            d,
        ) by {
            lemma_encode_quantized(orig[3 * p], orig[3 * p + 1], orig[3 * p + 2], d);
        }
    }
    lines
}

/// A nibble extracted by shift and mask is below 16.
proof fn lemma_nibble_bound(v: u32, sh: u32)
    ensures
        (v >> sh) & 0xf < 16,
{
    assert((v >> sh) & 0xf < 16) by (bit_vector);
}

/// Every emitted line is exactly `depth` characters long and holds only
/// lowercase hexadecimal digit characters.
pub proof fn lemma_line_well_formed(r: u8, g: u8, b: u8, d: Depth)
    ensures
        spec_pixel_line(r, g, b, d).len() == spec_depth_bits(d),
        forall|i: int|
            0 <= i < spec_pixel_line(r, g, b, d).len() ==> is_hex_char(
                #[trigger] spec_pixel_line(r, g, b, d)[i],
            ),
{
    let v = spec_pack(r, g, b, d);
    let w = spec_depth_bits(d) as nat;
    assert forall|i: int| 0 <= i < spec_pixel_line(r, g, b, d).len() implies is_hex_char(
        #[trigger] spec_pixel_line(r, g, b, d)[i],
    ) by {
        lemma_nibble_bound(v, (4 * (w - 1 - i)) as u32);
        assert(spec_nibble(v, w, i) < 16);
    }
}

/// Quantizing a pixel before encoding does not change its emitted line:
/// the packed value reads only the top `depth` bits of each channel, and
/// quantization preserves them.
pub proof fn lemma_encode_quantized(r: u8, g: u8, b: u8, d: Depth)
    ensures
        spec_pixel_line(
            spec_quantize(r, d),
            spec_quantize(g, d),
            spec_quantize(b, d),
            d,
        ) == spec_pixel_line(r, g, b, d),
{
    lemma_quantize_preserves_top_bits(r, d);
    lemma_quantize_preserves_top_bits(g, d);
    lemma_quantize_preserves_top_bits(b, d);
}

} // verus!
