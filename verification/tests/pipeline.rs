use pixhex::buffer::down_sample;
use pixhex::depth::quantize;
use pixhex::encode::convert;
use pixhex::encode::encode_lines;
use pixhex::encode::encode_pixel;
use pixhex::Depth;
use pixhex::DynamicImageBuffer;
use pixhex::InvalidDepth;

#[test]
fn depth_as_u8_values() {
    assert_eq!(Depth::B2.as_u8(), 2);
    assert_eq!(Depth::B4.as_u8(), 4);
    assert_eq!(Depth::B8.as_u8(), 8);
}

#[test]
fn depth_from_u8_accepts_only_2_4_8() {
    assert_eq!(Depth::from_u8(2), Ok(Depth::B2));
    assert_eq!(Depth::from_u8(4), Ok(Depth::B4));
    assert_eq!(Depth::from_u8(8), Ok(Depth::B8));
    for bad in [0u8, 1, 3, 5, 7, 9, 16, 24, 32] {
        assert_eq!(Depth::from_u8(bad), Err(InvalidDepth { value: bad }));
    }
}

#[test]
fn depth_from_u8_rejects_every_other_byte() {
    for v in 0u8..=255 {
        let r = Depth::from_u8(v);
        if v == 2 || v == 4 || v == 8 {
            assert!(r.is_ok());
            assert_eq!(r.unwrap().as_u8(), v);
        } else {
            assert_eq!(r, Err(InvalidDepth { value: v }));
        }
    }
}

#[test]
fn quantize_matches_centered_bucket_rule() {
    for v in 0u8..=255 {
        let b2 = quantize(v, Depth::B2);
        assert_eq!(b2, (v / 64) * 64 + 32);
        let b4 = quantize(v, Depth::B4);
        assert_eq!(b4, (v / 16) * 16 + 8);
        assert_eq!(quantize(v, Depth::B8), v);
    }
}

#[test]
fn quantize_exact_samples() {
    assert_eq!(quantize(0, Depth::B2), 32);
    assert_eq!(quantize(63, Depth::B2), 32);
    assert_eq!(quantize(64, Depth::B2), 96);
    assert_eq!(quantize(200, Depth::B2), 224);
    assert_eq!(quantize(255, Depth::B2), 224);
    assert_eq!(quantize(0, Depth::B4), 8);
    assert_eq!(quantize(200, Depth::B4), 200);
    assert_eq!(quantize(255, Depth::B4), 248);
    assert_eq!(quantize(123, Depth::B8), 123);
}

#[test]
fn quantize_is_idempotent() {
    for v in 0u8..=255 {
        for d in [Depth::B2, Depth::B4, Depth::B8] {
            let once = quantize(v, d);
            assert_eq!(quantize(once, d), once);
        }
    }
}

#[test]
fn quantize_preserves_top_bits() {
    for v in 0u8..=255 {
        for d in [Depth::B2, Depth::B4, Depth::B8] {
            let shift = 8 - d.as_u8();
            assert_eq!(quantize(v, d) >> shift, v >> shift);
        }
    }
}

#[test]
fn line_is_depth_chars_of_hex() {
    for (r, g, b) in [(0u8, 0u8, 0u8), (255, 255, 255), (200, 100, 50), (1, 2, 3)] {
        for d in [Depth::B2, Depth::B4, Depth::B8] {
            let line = encode_pixel(r, g, b, d);
            assert_eq!(line.len(), d.as_u8() as usize);
            assert!(line.chars().all(|c| c.is_ascii_hexdigit() && !c.is_ascii_uppercase()));
        }
    }
}

#[test]
fn white_pixel_depth_8_encodes_padded_to_8_digits() {
    assert_eq!(encode_pixel(255, 255, 255, Depth::B8), "00ffffff");
    let buffer = DynamicImageBuffer::from_raw(1, 1, Depth::B8, vec![255, 255, 255]).unwrap();
    assert_eq!(convert(buffer), vec!["00ffffff".to_string()]);
}

#[test]
fn black_pixel_depth_2_encodes_to_00() {
    assert_eq!(encode_pixel(0, 0, 0, Depth::B2), "00");
    let buffer = DynamicImageBuffer::from_raw(1, 1, Depth::B2, vec![0, 0, 0]).unwrap();
    assert_eq!(convert(buffer), vec!["00".to_string()]);
}

#[test]
fn mixed_pixel_depth_4_encodes_to_0c63() {
    assert_eq!(encode_pixel(200, 100, 50, Depth::B4), "0c63");
    let buffer = DynamicImageBuffer::from_raw(1, 1, Depth::B4, vec![200, 100, 50]).unwrap();
    assert_eq!(convert(buffer), vec!["0c63".to_string()]);
}

#[test]
fn encode_pixel_depth_2_samples() {
    // Top-2 bits: 255 -> 3, 128 -> 2, 64 -> 1, 0 -> 0; packed (r,g,b) red first.
    assert_eq!(encode_pixel(255, 255, 255, Depth::B2), "3f");
    assert_eq!(encode_pixel(255, 0, 0, Depth::B2), "30");
    assert_eq!(encode_pixel(0, 0, 255, Depth::B2), "03");
    assert_eq!(encode_pixel(64, 128, 255, Depth::B2), "1b");
}

#[test]
fn from_raw_rejects_wrong_byte_count() {
    assert!(DynamicImageBuffer::from_raw(1, 1, Depth::B8, vec![0, 0]).is_none());
    assert!(DynamicImageBuffer::from_raw(2, 1, Depth::B8, vec![0, 0, 0]).is_none());
    assert!(DynamicImageBuffer::from_raw(0, 5, Depth::B8, vec![1]).is_none());
    assert!(DynamicImageBuffer::from_raw(0, 5, Depth::B8, vec![]).is_some());
    assert!(DynamicImageBuffer::from_raw(2, 2, Depth::B2, vec![7; 12]).is_some());
}

#[test]
fn buffer_getters_report_bytes_and_depth() {
    let buffer = DynamicImageBuffer::from_raw(2, 1, Depth::B4, vec![1, 2, 3, 4, 5, 6]).unwrap();
    assert_eq!(buffer.as_bytes(), &[1, 2, 3, 4, 5, 6]);
    assert_eq!(buffer.depth(), Depth::B4);
}

#[test]
fn down_sample_quantizes_every_byte_in_place() {
    let buffer = DynamicImageBuffer::from_raw(2, 1, Depth::B2, vec![0, 63, 64, 128, 200, 255])
        .unwrap();
    let q = down_sample(buffer);
    assert_eq!(q.as_bytes(), &[32, 32, 96, 160, 224, 224]);
    assert_eq!(q.depth(), Depth::B2);

    let buffer8 = DynamicImageBuffer::from_raw(1, 2, Depth::B8, vec![0, 63, 64, 128, 200, 255])
        .unwrap();
    let q8 = down_sample(buffer8);
    assert_eq!(q8.as_bytes(), &[0, 63, 64, 128, 200, 255]);
}

#[test]
fn lines_come_out_in_row_major_pixel_order() {
    // 2x2 image, depth 4: pixels (255,0,0), (0,255,0), (0,0,255), (16,32,48).
    let bytes = vec![255, 0, 0, 0, 255, 0, 0, 0, 255, 16, 32, 48];
    let buffer = DynamicImageBuffer::from_raw(2, 2, Depth::B4, bytes).unwrap();
    let lines = convert(buffer);
    assert_eq!(
        lines,
        vec!["0f00", "00f0", "000f", "0123"].into_iter().map(String::from).collect::<Vec<_>>()
    );
}

#[test]
fn encode_lines_reads_the_buffer_as_given() {
    // encode_lines does not quantize; it packs the top bits of the bytes as they stand.
    let bytes = vec![200, 100, 50, 255, 255, 255];
    let buffer = DynamicImageBuffer::from_raw(2, 1, Depth::B4, bytes).unwrap();
    let lines = encode_lines(&buffer);
    assert_eq!(lines, vec!["0c63".to_string(), "0fff".to_string()]);
}

#[test]
fn convert_equals_encode_of_unquantized_buffer() {
    let bytes = vec![10u8, 77, 145, 201, 255, 0];
    for d in [Depth::B2, Depth::B4, Depth::B8] {
        let direct = encode_lines(&DynamicImageBuffer::from_raw(2, 1, d, bytes.clone()).unwrap());
        let converted = convert(DynamicImageBuffer::from_raw(2, 1, d, bytes.clone()).unwrap());
        assert_eq!(direct, converted);
    }
}
