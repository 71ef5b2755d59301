use lcms2::endian::adjust_endianness_16;
use lcms2::endian::adjust_endianness_32;
use lcms2::endian::adjust_endianness_64;
use lcms2::error::CodecError;
use lcms2::mlu::Mlu;
use lcms2::mlu::str_from_u16;
use lcms2::mlu::str_to_u16;
use lcms2::named_color_list::NamedColorList;
use lcms2::pixel_type::PixelType;
use lcms2::stream::ByteReader;
use lcms2::stream::ByteWriter;
use lcms2::tag_base::CmsTagBase;
use lcms2::ColorSpace;
use lcms2::Signature;

#[test]
fn endianness_adjustment_reverses_bytes() {
    assert_eq!(adjust_endianness_16(0x1234), 0x3412);
    assert_eq!(adjust_endianness_32(0x1234_5678), 0x7856_3412);
    assert_eq!(adjust_endianness_64(0x0102_0304_0506_0708), 0x0807_0605_0403_0201);
    assert_eq!(adjust_endianness_16(adjust_endianness_16(0xBEEF)), 0xBEEF);
}

#[test]
fn signature_construction_and_padding() {
    assert_eq!(Signature::new(b"acsp").to_u32(), 0x6163_7370);
    assert_eq!(Signature::from_slice(b"ab"), Signature::new(b"ab  "));
    assert_eq!(Signature::from_slice(b""), Signature::from_u32(0));
    assert_eq!(Signature::from_slice(b"abcdef"), Signature::new(b"abcd"));
    assert_eq!(Signature::default(), Signature::new(b"    "));
    let bytes = Signature::new(b"XYZ ").to_bytes();
    assert_eq!(&bytes, b"XYZ ");
}

#[test]
fn tag_base_round_trips() {
    let base = CmsTagBase { signature: Signature::new(b"curv"), reserved: [1, 2, 3, 4] };
    let mut w = ByteWriter::new();
    base.write(&mut w).unwrap();
    let mut r = ByteReader::new(w.data);
    let back = CmsTagBase::read(&mut r).unwrap();
    assert_eq!(back, base);
}

#[test]
fn tag_base_type_read_gives_zero_on_short_stream() {
    let mut r = ByteReader::new(vec![1, 2, 3]);
    assert_eq!(CmsTagBase::read_type_base(&mut r), Signature::from_u32(0));
    assert_eq!(CmsTagBase::read(&mut r), Err(CodecError::UnexpectedEof));
}

#[test]
fn pixel_type_color_space_field_round_trips() {
    let mut p = PixelType(0);
    p.set_color_space(ColorSpace::Cmyk);
    assert_eq!(p.color_space(), ColorSpace::Cmyk);
    // The other fields stay put.
    let mut q = PixelType(0xFFFF_FFFF);
    q.set_color_space(ColorSpace::Gray);
    assert_eq!(q.color_space(), ColorSpace::Gray);
    assert_eq!(q.0 & 0xFFE0_FFFF, 0xFFE0_FFFF);
    assert_eq!(PixelType(0).color_space(), ColorSpace::Any);
}

#[test]
fn mlu_stores_and_finds_translations() {
    let mut mlu = Mlu::new();
    mlu.set_ascii(Some(*b"en"), Some(*b"US"), "hello".to_string()).unwrap();
    mlu.set_unicode(Some(*b"de"), Some(*b"DE"), "hallo".to_string()).unwrap();
    assert_eq!(mlu.get_translation_count(), 2);

    let en = str_to_u16(Some(*b"en"));
    let us = str_to_u16(Some(*b"US"));
    let exact = mlu.get_unicode(en, us).unwrap();
    assert_eq!(exact.string, "hello");
    assert_eq!(exact.obtained_language, str_from_u16(en));

    // A pair stored once is refused the second time.
    assert_eq!(
        mlu.set_ascii(Some(*b"en"), Some(*b"US"), "again".to_string()),
        Err(CodecError::AlreadyExists)
    );
}

#[test]
fn mlu_falls_back_by_language_then_default() {
    let mut mlu = Mlu::new();
    mlu.set_ascii(Some(*b"en"), Some(*b"US"), "color".to_string()).unwrap();
    mlu.set_ascii(Some(*b"en"), Some(*b"GB"), "colour".to_string()).unwrap();

    let en = str_to_u16(Some(*b"en"));
    // A country with no entry falls back to the first entry in the
    // language.
    let fallback = mlu.get_unicode(en, 0x9999).unwrap();
    assert_eq!(fallback.string, "color");

    // An unknown language falls back to the default: the first entry
    // ever stored.
    let other = mlu.get_unicode(0x4142, 0x4142).unwrap();
    assert_eq!(other.string, "color");

    let empty = Mlu::new();
    assert!(empty.get_unicode(en, 0).is_none());
}

#[test]
fn mlu_ascii_lookup_rejects_non_ascii_text() {
    let mut mlu = Mlu::new();
    mlu.set_unicode(Some(*b"de"), Some(*b"DE"), "gr\u{00FC}n".to_string()).unwrap();
    let de = str_to_u16(Some(*b"de"));
    let cc = str_to_u16(Some(*b"DE"));
    assert!(matches!(mlu.get_ascii(de, cc), Err(CodecError::InvalidData)));
    assert!(mlu.get_unicode(de, cc).is_some());
    assert!(
        mlu.set_ascii(Some(*b"fr"), Some(*b"FR"), "caf\u{00E9}".to_string())
            == Err(CodecError::InvalidData)
    );
}

#[test]
fn mlu_reports_stored_codes_by_index() {
    let mut mlu = Mlu::new();
    mlu.set_ascii(Some(*b"en"), Some(*b"US"), "one".to_string()).unwrap();
    let entry = mlu.get_translation_codes(0).unwrap();
    assert_eq!(entry.string, "one");
    assert_eq!(entry.lang, str_from_u16(str_to_u16(Some(*b"en"))));
    assert!(mlu.get_translation_codes(1).is_none());
    let via_bytes = mlu.get_translation(*b"en", *b"US").unwrap();
    assert_eq!(via_bytes.string, "one");
}

#[test]
fn named_color_list_appends_and_reads_back() {
    let mut list = NamedColorList::new();
    list.append(b"ink".to_vec(), Some([1, 2, 3]), None);
    assert_eq!(list.count(), 1);
    let c = list.get(0).unwrap();
    assert_eq!(c.name, b"ink".to_vec());
    assert_eq!(c.pcs, [1, 2, 3]);
    assert_eq!(c.device_colorant, [0u16; 16]);
    assert!(list.get(1).is_none());
}

#[test]
fn named_color_list_cuts_long_names() {
    let mut list = NamedColorList::new();
    list.append(vec![b'x'; 300], None, Some([7u16; 16]));
    let c = list.get(0).unwrap();
    assert_eq!(c.name.len(), 256);
    assert_eq!(c.device_colorant, [7u16; 16]);
}

#[test]
fn signature_renders_printable_and_hex() {
    assert_eq!(Signature::new(b"XYZ ").to_text(), "XYZ ");
    assert_eq!(Signature::new(b"curv").to_text(), "curv");
    // The vendor-broken XYZ signature is not printable and reads as hex.
    assert_eq!(Signature::from_u32(0x17A5_05B8).to_text(), "17a505b8");
    assert_eq!(Signature::from_u32(0).to_text(), "00000000");
}
