use lcms2::error::CodecError;
use lcms2::fixed::Fixed;
use lcms2::stream::ByteReader;
use lcms2::stream::ByteWriter;
use lcms2::stream::XyzNumber;
use lcms2::stream::read_s15f16;
use lcms2::stream::read_u16;
use lcms2::stream::read_u16_array;
use lcms2::stream::read_u32;
use lcms2::stream::read_u64;
use lcms2::stream::read_u8;
use lcms2::stream::read_xyz;
use lcms2::stream::write_s15f16;
use lcms2::stream::write_u16;
use lcms2::stream::write_u16_array;
use lcms2::stream::write_u32;
use lcms2::stream::write_u64;
use lcms2::stream::write_u8;
use lcms2::stream::write_xyz;
use lcms2::types::DecodedTag;
use lcms2::types::ICCData;
use lcms2::types::TagTypeKind;
use lcms2::types::chromaticity_read;
use lcms2::types::chromaticity_write;
use lcms2::types::colorant_order_read;
use lcms2::types::colorant_order_write;
use lcms2::types::data_read;
use lcms2::types::data_write;
use lcms2::types::find_tag_type_handler;
use lcms2::types::s15_f16_read;
use lcms2::types::s15_f16_write;
use lcms2::types::signature_read;
use lcms2::types::signature_write;
use lcms2::types::supported_tag_types;
use lcms2::types::text_description_read;
use lcms2::types::text_read;
use lcms2::types::text_write;
use lcms2::types::u16_f16_read;
use lcms2::types::u16_f16_write;
use lcms2::types::xyz_read;
use lcms2::types::xyz_write;
use lcms2::Signature;

fn fx(v: f64) -> Fixed {
    Fixed { raw: (v * 65536.0).round() as i64 }
}

#[test]
fn primitive_words_round_trip_big_endian() {
    let mut w = ByteWriter::new();
    write_u8(&mut w, 0xAB).unwrap();
    write_u16(&mut w, 0x1234).unwrap();
    write_u32(&mut w, 0x89AB_CDEF).unwrap();
    write_u64(&mut w, 0x0102_0304_0506_0708).unwrap();
    assert_eq!(
        w.data,
        vec![0xAB, 0x12, 0x34, 0x89, 0xAB, 0xCD, 0xEF, 1, 2, 3, 4, 5, 6, 7, 8]
    );
    let mut r = ByteReader::new(w.data);
    assert_eq!(read_u8(&mut r).unwrap(), 0xAB);
    assert_eq!(read_u16(&mut r).unwrap(), 0x1234);
    assert_eq!(read_u32(&mut r).unwrap(), 0x89AB_CDEF);
    assert_eq!(read_u64(&mut r).unwrap(), 0x0102_0304_0506_0708);
}

#[test]
fn primitive_reads_fail_on_short_stream() {
    let mut r = ByteReader::new(vec![0x12]);
    assert_eq!(read_u16(&mut r), Err(CodecError::UnexpectedEof));
    assert_eq!(read_u32(&mut r), Err(CodecError::UnexpectedEof));
    assert_eq!(read_u64(&mut r), Err(CodecError::UnexpectedEof));
    assert_eq!(read_u8(&mut r).unwrap(), 0x12);
    assert_eq!(read_u8(&mut r), Err(CodecError::UnexpectedEof));
}

#[test]
fn u16_array_round_trips() {
    let mut w = ByteWriter::new();
    write_u16_array(&mut w, &[1, 2, 515]).unwrap();
    let mut r = ByteReader::new(w.data);
    assert_eq!(read_u16_array(&mut r, 3).unwrap(), vec![1, 2, 515]);
}

#[test]
fn s15f16_fixed_point_wire_values() {
    // 2.5 is 0x00028000 in signed 15.16; -1.0 is -0x00010000.
    assert_eq!(fx(2.5).to_s15f16(), 0x0002_8000);
    assert_eq!(Fixed::from_s15f16(0x0002_8000), fx(2.5));
    assert_eq!(fx(-1.0).to_s15f16(), -0x0001_0000);
    assert_eq!(Fixed::from_s15f16(-0x0001_0000), fx(-1.0));
    assert_eq!(fx(42.0).to_s15f16(), 0x002A_0000);
}

#[test]
fn s15f16_stream_round_trip() {
    let mut w = ByteWriter::new();
    write_s15f16(&mut w, fx(2.5)).unwrap();
    write_s15f16(&mut w, fx(-1.0)).unwrap();
    let mut r = ByteReader::new(w.data);
    assert_eq!(read_s15f16(&mut r).unwrap(), fx(2.5));
    assert_eq!(read_s15f16(&mut r).unwrap(), fx(-1.0));
}

#[test]
fn u8f8_round_trip_is_exact() {
    for v in [0u16, 1, 0x0180, 0xFFFF] {
        assert_eq!(Fixed::from_u8f8(v).to_u8f8(), v);
    }
    assert_eq!(Fixed::from_u8f8(0x0180), fx(1.5));
}

#[test]
fn u16f16_round_trip_is_exact() {
    for v in [0u32, 1, 0x0001_8000, 0xFFFF_FFFF] {
        assert_eq!(Fixed::from_u16f16(v).to_u16f16(), v);
    }
    assert_eq!(Fixed::from_u16f16(0x0002_8000), fx(2.5));
}

#[test]
fn xyz_round_trips_exactly() {
    let value = XyzNumber { x: fx(2.5), y: fx(42.0), z: fx(-1.0) };
    let mut w = ByteWriter::new();
    write_xyz(&mut w, value).unwrap();
    assert_eq!(w.data.len(), 12);
    let mut r = ByteReader::new(w.data);
    assert_eq!(read_xyz(&mut r).unwrap(), value);
}

#[test]
fn xyz_tag_round_trips_exactly() {
    let value = XyzNumber { x: fx(2.5), y: fx(42.0), z: fx(-1.0) };
    let mut w = ByteWriter::new();
    xyz_write(&mut w, &value, 1).unwrap();
    let mut r = ByteReader::new(w.data);
    let (n, decoded) = xyz_read(&mut r, 12).unwrap();
    assert_eq!(n, 1);
    assert_eq!(decoded, value);
}

#[test]
fn xyz_read_fails_on_short_stream() {
    let mut r = ByteReader::new(vec![0; 11]);
    assert_eq!(xyz_read(&mut r, 12), Err(CodecError::UnexpectedEof));
}

#[test]
fn chromaticity_rejects_channel_count_other_than_three() {
    let mut w = ByteWriter::new();
    write_u16(&mut w, 2).unwrap();
    write_u16(&mut w, 0).unwrap();
    for _ in 0..6 {
        write_s15f16(&mut w, fx(0.5)).unwrap();
    }
    let mut r = ByteReader::new(w.data);
    assert_eq!(chromaticity_read(&mut r, 1), Err(CodecError::InvalidData));
}

#[test]
fn chromaticity_reads_and_forces_unit_luminance() {
    let mut w = ByteWriter::new();
    write_u16(&mut w, 3).unwrap();
    write_u16(&mut w, 0).unwrap();
    for v in [0.64, 0.33, 0.3, 0.6, 0.15, 0.06] {
        write_s15f16(&mut w, fx(v)).unwrap();
    }
    let mut r = ByteReader::new(w.data);
    let (n, t) = chromaticity_read(&mut r, 1).unwrap();
    assert_eq!(n, 1);
    assert_eq!(t.red.x, fx(0.64));
    assert_eq!(t.blue.y, fx(0.06));
    assert_eq!(t.red.big_y, fx(1.0));
    assert_eq!(t.green.big_y, fx(1.0));
    assert_eq!(t.blue.big_y, fx(1.0));
}

#[test]
fn chromaticity_write_emits_count_and_reserved() {
    let one = fx(1.0);
    let t = lcms2::types::XyYTriple {
        red: lcms2::types::XyYNumber { x: fx(0.5), y: fx(0.25), big_y: one },
        green: lcms2::types::XyYNumber { x: fx(0.125), y: fx(0.75), big_y: one },
        blue: lcms2::types::XyYNumber { x: fx(1.5), y: fx(2.0), big_y: one },
    };
    let mut w = ByteWriter::new();
    chromaticity_write(&mut w, &t, 1).unwrap();
    let mut r = ByteReader::new(w.data);
    assert_eq!(read_u16(&mut r).unwrap(), 3);
    assert_eq!(read_u16(&mut r).unwrap(), 0);
    let (_, back) = {
        let mut r2 = ByteReader::new({
            let mut w2 = ByteWriter::new();
            chromaticity_write(&mut w2, &t, 1).unwrap();
            w2.data
        });
        chromaticity_read(&mut r2, 1).unwrap()
    };
    assert_eq!(back, t);
}

#[test]
fn colorant_order_round_trips() {
    let decoded: Vec<u8> = vec![2, 0, 1, 0xFF, 0xFF, 0xFF, 0xFF, 0xFF, 0xFF, 0xFF, 0xFF, 0xFF, 0xFF, 0xFF, 0xFF, 0xFF];
    let mut w = ByteWriter::new();
    colorant_order_write(&mut w, &decoded, 1).unwrap();
    assert_eq!(w.data, vec![0, 0, 0, 3, 2, 0, 1]);
    let mut r = ByteReader::new(w.data);
    let (count, buf) = colorant_order_read(&mut r, 1).unwrap();
    assert_eq!(count, 3);
    assert_eq!(&buf[..3], &[2, 0, 1]);
    assert!(buf[3..].iter().all(|b| *b == 0xFF));
}

#[test]
fn colorant_order_write_rejects_seventeen_entries() {
    let decoded: Vec<u8> = (0..17).collect();
    let mut w = ByteWriter::new();
    assert_eq!(
        colorant_order_write(&mut w, &decoded, 1),
        Err(CodecError::InvalidData)
    );
}

#[test]
fn colorant_order_read_rejects_count_over_sixteen() {
    let mut w = ByteWriter::new();
    write_u32(&mut w, 17).unwrap();
    for i in 0..17u8 {
        write_u8(&mut w, i).unwrap();
    }
    let mut r = ByteReader::new(w.data);
    assert_eq!(colorant_order_read(&mut r, 1), Err(CodecError::InvalidData));
}

#[test]
fn s15_fixed16_array_round_trips() {
    let values = [fx(1.0), fx(-2.5), fx(0.25), fx(100.0)];
    let mut w = ByteWriter::new();
    s15_f16_write(&mut w, &values, 4).unwrap();
    assert_eq!(w.data.len(), 16);
    let mut r = ByteReader::new(w.data);
    let (n, back) = s15_f16_read(&mut r, 16).unwrap();
    assert_eq!(n, 4);
    assert_eq!(back, values.to_vec());
}

#[test]
fn u16_fixed16_array_round_trips() {
    let values = [fx(0.0), fx(2.5), fx(65535.0)];
    let mut w = ByteWriter::new();
    u16_f16_write(&mut w, &values, 3).unwrap();
    let mut r = ByteReader::new(w.data);
    let (n, back) = u16_f16_read(&mut r, 12).unwrap();
    assert_eq!(n, 3);
    assert_eq!(back, values.to_vec());
}

#[test]
fn signature_tag_round_trips() {
    let sig = Signature::new(b"scnr");
    let mut w = ByteWriter::new();
    signature_write(&mut w, &sig, 1).unwrap();
    let mut r = ByteReader::new(w.data);
    let (n, back) = signature_read(&mut r, 1).unwrap();
    assert_eq!(n, 1);
    assert_eq!(back, sig);
}

#[test]
fn text_round_trips_and_is_zero_terminated() {
    let mut w = ByteWriter::new();
    text_write(&mut w, b"hello", 1).unwrap();
    assert_eq!(w.data, b"hello\0");
    let mut r = ByteReader::new(w.data);
    let (n, back) = text_read(&mut r, 6).unwrap();
    assert_eq!(n, 1);
    assert_eq!(back, b"hello\0\0");
}

#[test]
fn text_rejects_non_ascii() {
    let mut r = ByteReader::new(vec![b'h', 0x80, b'i']);
    assert_eq!(text_read(&mut r, 3), Err(CodecError::InvalidData));
    let mut w = ByteWriter::new();
    assert_eq!(text_write(&mut w, &[b'h', 0x80], 1), Err(CodecError::InvalidData));
    assert!(w.data.is_empty());
}

#[test]
fn data_tag_round_trips() {
    let value = ICCData { length: 3, flag: 1, data: vec![9, 8, 7] };
    let mut w = ByteWriter::new();
    data_write(&mut w, &value, 1).unwrap();
    assert_eq!(w.data, vec![0, 0, 0, 1, 9, 8, 7]);
    let mut r = ByteReader::new(w.data);
    let (n, back) = data_read(&mut r, 7).unwrap();
    assert_eq!(n, 1);
    assert_eq!(back, value);
}

#[test]
fn data_write_rejects_length_mismatch() {
    let value = ICCData { length: 5, flag: 1, data: vec![9, 8, 7] };
    let mut w = ByteWriter::new();
    assert_eq!(data_write(&mut w, &value, 1), Err(CodecError::InvalidData));
}

#[test]
fn data_read_rejects_tag_size_under_four() {
    let mut r = ByteReader::new(vec![0, 0, 0]);
    assert_eq!(data_read(&mut r, 3), Err(CodecError::InvalidData));
}

#[test]
fn text_description_reads_mandatory_section_alone() {
    let mut w = ByteWriter::new();
    write_u32(&mut w, 5).unwrap();
    for b in b"hello" {
        write_u8(&mut w, *b).unwrap();
    }
    let mut r = ByteReader::new(w.data);
    let (n, text) = text_description_read(&mut r, 9).unwrap();
    assert_eq!(n, 1);
    assert_eq!(text, b"hello\0");
}

#[test]
fn text_description_fails_when_truncated_mid_ascii() {
    let mut w = ByteWriter::new();
    write_u32(&mut w, 5).unwrap();
    for b in b"hel" {
        write_u8(&mut w, *b).unwrap();
    }
    let mut r = ByteReader::new(w.data);
    assert_eq!(
        text_description_read(&mut r, 9),
        Err(CodecError::UnexpectedEof)
    );
}

#[test]
fn text_description_discards_whole_unicode_trailer() {
    let mut w = ByteWriter::new();
    write_u32(&mut w, 2).unwrap();
    write_u8(&mut w, b'h').unwrap();
    write_u8(&mut w, b'i').unwrap();
    write_u32(&mut w, 0).unwrap(); // unicode code
    write_u32(&mut w, 2).unwrap(); // unicode count
    write_u16(&mut w, 0x0068).unwrap();
    write_u16(&mut w, 0x0069).unwrap();
    let mut r = ByteReader::new(w.data);
    let (_, text) = text_description_read(&mut r, 18).unwrap();
    assert_eq!(text, b"hi\0");
    assert_eq!(r.remaining(), 0);
}

#[test]
fn handler_registry_resolves_first_match() {
    let handlers = supported_tag_types();
    assert_eq!(handlers.len(), 9);
    let xyz = Signature::new(b"XYZ ");
    let idx = find_tag_type_handler(&handlers, xyz).unwrap();
    assert_eq!(handlers[idx].signature, xyz);
    assert_eq!(handlers[idx].kind, TagTypeKind::Xyz);
    assert!(find_tag_type_handler(&handlers, Signature::new(b"none")).is_none());
}

#[test]
fn broken_vendor_xyz_signature_decodes_identically() {
    let handlers = supported_tag_types();
    let value = XyzNumber { x: fx(2.5), y: fx(42.0), z: fx(-1.0) };
    let mut w = ByteWriter::new();
    xyz_write(&mut w, &value, 1).unwrap();
    let wire = w.data;

    let good = find_tag_type_handler(&handlers, Signature::new(b"XYZ ")).unwrap();
    let broken = find_tag_type_handler(
        &handlers,
        Signature::new(&[0x17, 0xA5, 0x05, 0xB8]),
    )
    .unwrap();
    assert_ne!(good, broken);

    let mut r1 = ByteReader::new(wire.clone());
    let mut r2 = ByteReader::new(wire);
    let (n1, d1) = handlers[good].read(&mut r1, 12).unwrap();
    let (n2, d2) = handlers[broken].read(&mut r2, 12).unwrap();
    assert_eq!(n1, n2);
    assert_eq!(d1, DecodedTag::Xyz(value));
    assert_eq!(d2, DecodedTag::Xyz(value));
}

#[test]
fn handler_write_refuses_mismatched_decoded_value() {
    let handlers = supported_tag_types();
    let text_idx = find_tag_type_handler(&handlers, Signature::new(b"text")).unwrap();
    let value = XyzNumber { x: fx(1.0), y: fx(1.0), z: fx(1.0) };
    let mut w = ByteWriter::new();
    assert_eq!(
        handlers[text_idx].write(&mut w, &DecodedTag::Xyz(value), 1),
        Err(CodecError::InvalidData)
    );
}

#[test]
fn fixed_point_round_trip_stays_within_one_step() {
    // For doubles in the representable range, encoding by round-half-up
    // and decoding the wire word lands within 1/65536 of the original.
    let samples: [f64; 12] = [
        0.0, 1.0, -1.0, 2.5, 42.0, 0.1, -0.1, 3.14159, -2.71828, 100.25, -32767.9, 32766.5,
    ];
    for v in samples {
        let encoded: i32 = (v * 65536.0 + 0.5).floor() as i32;
        let decoded = Fixed::from_s15f16(encoded);
        // The wire word itself survives the library round trip exactly.
        assert_eq!(decoded.to_s15f16(), encoded);
        let mut w = ByteWriter::new();
        write_s15f16(&mut w, decoded).unwrap();
        let mut r = ByteReader::new(w.data);
        assert_eq!(read_s15f16(&mut r).unwrap(), decoded);
        // And the decoded value is within one step of the original double.
        let back = decoded.raw as f64 / 65536.0;
        assert!((back - v).abs() <= 1.0 / 65536.0);
    }
}

#[test]
fn s15f16_conversion_saturates_out_of_range_values() {
    let too_big = Fixed { raw: i64::MAX - 1 };
    assert_eq!(too_big.to_s15f16(), i32::MAX);
    let too_small = Fixed { raw: i64::MIN + 1 };
    assert_eq!(too_small.to_s15f16(), i32::MIN);
    let negative = Fixed { raw: -5 };
    assert_eq!(negative.to_u16f16(), 0);
}

#[test]
fn text_description_rejects_non_ascii_mandatory_bytes() {
    let mut w = ByteWriter::new();
    write_u32(&mut w, 2).unwrap();
    write_u8(&mut w, b'h').unwrap();
    write_u8(&mut w, 0x80).unwrap();
    let mut r = ByteReader::new(w.data);
    assert_eq!(
        text_description_read(&mut r, 6),
        Err(CodecError::InvalidData)
    );
    // A failed read leaves the position where it stood.
    assert_eq!(r.pos, 0);
}

#[test]
fn handler_read_fails_exactly_when_its_codec_does() {
    let handlers = supported_tag_types();
    let text_idx = find_tag_type_handler(&handlers, Signature::new(b"text")).unwrap();
    let mut r = ByteReader::new(vec![b'h', b'i']);
    // Too few bytes for the declared size: end of stream, position unmoved.
    assert_eq!(
        handlers[text_idx].read(&mut r, 5),
        Err(CodecError::UnexpectedEof)
    );
    assert_eq!(r.pos, 0);
    // Enough bytes: the read succeeds.
    let (n, v) = handlers[text_idx].read(&mut r, 2).unwrap();
    assert_eq!(n, 1);
    assert_eq!(v, DecodedTag::Text(b"hi\0".to_vec()));
}
