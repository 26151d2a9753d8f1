use fiv::probe::{
    begin_data, begin_ifd_count, begin_offset, begin_size, byte_order_of, classify_probe,
    end_data, end_ifd_count, end_offset, end_size, push_ascii, push_ifd_entry, push_ifd_value,
    push_tiff_header, push_u16, push_u32, splice_value, test_image, ByteOrder, Count,
    NumberFormat, ProbeError, SizeFormat, TagType,
};

fn u16_bytes(bo: ByteOrder, v: u16) -> Vec<u8> {
    let hi = (v >> 8) as u8;
    let lo = (v & 0xFF) as u8;
    match bo {
        ByteOrder::BE => vec![hi, lo],
        ByteOrder::LE => vec![lo, hi],
    }
}

fn afinfo_payload(bo: ByteOrder) -> Vec<u8> {
    let mut payload = Vec::new();
    for v in [28u16, 0x4D49, 1, 0, 1, 1, 1, 1, 0, 0, 0, 0, 0, 0] {
        payload.extend(u16_bytes(bo, v));
    }
    payload
}

fn u32_bytes(bo: ByteOrder, v: u32) -> Vec<u8> {
    match bo {
        ByteOrder::BE => v.to_be_bytes().to_vec(),
        ByteOrder::LE => v.to_le_bytes().to_vec(),
    }
}

fn tiff_header(bo: ByteOrder) -> Vec<u8> {
    let mut h = match bo {
        ByteOrder::BE => vec![b'M', b'M'],
        ByteOrder::LE => vec![b'I', b'I'],
    };
    h.extend(u16_bytes(bo, 0x2A));
    h
}

fn ifd_entry(bo: ByteOrder, tag: u16, tag_type: u16, count: u32, offset: u32) -> Vec<u8> {
    let mut e = u16_bytes(bo, tag);
    e.extend(u16_bytes(bo, tag_type));
    e.extend(u32_bytes(bo, count));
    e.extend(u32_bytes(bo, offset));
    e
}

/// The complete test image: SOI; APP1 with big-endian size 164 and the
/// Exif header; a TIFF header of order `bo`; IFD0 at offset 8 with Make
/// (6 bytes at 50), Model (10 bytes at 56) and the Exif SubIFD pointer
/// (at 72); IFD1 at 66, empty; the SubIFD with an inline Version and the
/// MakerNote (54 bytes at 102); the MakerNote IFD with the AFInfo entry
/// (fourteen 16-bit values at 120); the AFInfo value; the MakerNote
/// footer (TIFF header and offset 102); EOI.
fn expected_test_image(bo: ByteOrder) -> Vec<u8> {
    let mut image = vec![0xFF, 0xD8, 0xFF, 0xE1];
    image.extend(u16_bytes(ByteOrder::BE, 164));
    image.extend(b"Exif\0\0");
    image.extend(tiff_header(bo));
    image.extend(u32_bytes(bo, 8));
    image.extend(u16_bytes(bo, 3));
    image.extend(ifd_entry(bo, 0x010F, 2, 6, 50));
    image.extend(ifd_entry(bo, 0x0110, 2, 10, 56));
    image.extend(ifd_entry(bo, 0x8769, 4, 1, 72));
    image.extend(u32_bytes(bo, 66));
    image.extend(b"Canon\0");
    image.extend(b"Canon EOS\0");
    image.extend(u16_bytes(bo, 0));
    image.extend(u32_bytes(bo, 0));
    image.extend(u16_bytes(bo, 2));
    image.extend(u16_bytes(bo, 0x9000));
    image.extend(u16_bytes(bo, 7));
    image.extend(u32_bytes(bo, 4));
    image.extend(b"0230");
    image.extend(ifd_entry(bo, 0x927C, 7, 54, 102));
    image.extend(u32_bytes(bo, 0));
    image.extend(u16_bytes(bo, 1));
    image.extend(ifd_entry(bo, 0x0026, 3, 14, 120));
    image.extend(u32_bytes(bo, 0));
    image.extend(afinfo_payload(bo));
    image.extend(tiff_header(bo));
    image.extend(u32_bytes(bo, 102));
    image.extend([0xFF, 0xD9]);
    image
}

#[test]
fn test_images_match_the_documented_structure_byte_for_byte() {
    for bo in [ByteOrder::BE, ByteOrder::LE] {
        assert_eq!(test_image(bo), expected_test_image(bo));
    }
}

#[test]
fn test_images_are_jpegs_with_the_probe_payload() {
    for bo in [ByteOrder::BE, ByteOrder::LE] {
        let image = test_image(bo);
        assert_eq!(&image[0..2], &[0xFF, 0xD8]);
        assert_eq!(&image[image.len() - 2..], &[0xFF, 0xD9]);
        let payload = afinfo_payload(bo);
        assert_eq!(&image[132..160], &payload[..]);
        // Byte 2 of the AFInfo value is the probe marker: 'M' when the
        // value was serialized big-endian, 'I' when little-endian.
        let marker = image[132 + 2];
        match bo {
            ByteOrder::BE => assert_eq!(marker, b'M'),
            ByteOrder::LE => assert_eq!(marker, b'I'),
        }
        assert_eq!(classify_probe(&payload), Ok(bo));
    }
}

#[test]
fn test_images_differ_only_in_byte_order() {
    let be = test_image(ByteOrder::BE);
    let le = test_image(ByteOrder::LE);
    assert_eq!(be.len(), le.len());
    assert_ne!(be, le);
}

#[test]
fn classify_reads_byte_two() {
    assert_eq!(classify_probe(&[0, 0, b'I', 9]), Ok(ByteOrder::LE));
    assert_eq!(classify_probe(&[0, 0, b'M']), Ok(ByteOrder::BE));
    assert_eq!(classify_probe(&[b'I', b'I']), Err(ProbeError::InvalidProbeImage));
    assert_eq!(classify_probe(&[0, 0, 0]), Err(ProbeError::InvalidProbeImage));
    assert_eq!(classify_probe(&[]), Err(ProbeError::InvalidProbeImage));
}

#[test]
fn byte_order_lookup_uses_the_matching_probe() {
    let le = Some(ByteOrder::BE); // what the library emitted for the LE image
    let be = Some(ByteOrder::BE);
    assert_eq!(byte_order_of(Some(b"II"), le, be), Ok(ByteOrder::BE));
    assert_eq!(byte_order_of(Some(b"MM"), le, be), Ok(ByteOrder::BE));
    assert_eq!(
        byte_order_of(Some(b"II"), None, be),
        Err(ProbeError::ProbeFailed)
    );
    assert_eq!(
        byte_order_of(Some(b"MM"), le, None),
        Err(ProbeError::ProbeFailed)
    );
    assert_eq!(
        byte_order_of(Some(b"XX"), le, be),
        Err(ProbeError::InvalidByteOrder)
    );
    assert_eq!(
        byte_order_of(Some(b"I"), le, be),
        Err(ProbeError::InvalidByteOrder)
    );
    assert_eq!(byte_order_of(None, le, be), Err(ProbeError::MissingByteOrder));
}

#[test]
fn numbers_serialize_in_both_byte_orders() {
    let mut buffer = Vec::new();
    push_u16(&mut buffer, ByteOrder::BE, 0x1234);
    push_u16(&mut buffer, ByteOrder::LE, 0x1234);
    assert_eq!(buffer, vec![0x12, 0x34, 0x34, 0x12]);
    let mut buffer = Vec::new();
    push_u32(&mut buffer, ByteOrder::BE, 0x0102_0304);
    push_u32(&mut buffer, ByteOrder::LE, 0x0102_0304);
    assert_eq!(buffer, vec![1, 2, 3, 4, 4, 3, 2, 1]);
}

#[test]
fn splice_overwrites_a_placeholder() {
    let mut buffer = vec![0xAA; 8];
    splice_value(&mut buffer, 1, ByteOrder::BE, NumberFormat::U16, 0x1234);
    splice_value(&mut buffer, 4, ByteOrder::LE, NumberFormat::U32, 5);
    assert_eq!(buffer, vec![0xAA, 0x12, 0x34, 0xAA, 5, 0, 0, 0]);
}

#[test]
fn offsets_record_positions_relative_to_a_base() {
    let mut buffer = vec![0xFF, 0xFF];
    let base = begin_data(&buffer);
    let offset = begin_offset(&mut buffer, ByteOrder::BE, NumberFormat::U32);
    assert_eq!(buffer.len(), 6);
    let data_start = begin_data(&buffer);
    buffer.push(0x55);
    let data = end_data(&buffer, data_start);
    let data = end_offset(&mut buffer, offset, &base, data);
    assert_eq!(data.position, 6);
    assert_eq!(data.length, 1);
    // The offset of the data relative to the base (position 2) is 4.
    assert_eq!(buffer, vec![0xFF, 0xFF, 0, 0, 0, 4, 0x55]);
}

#[test]
fn sizes_measure_their_data_region() {
    let mut buffer = Vec::new();
    let size = begin_size(&mut buffer, ByteOrder::BE, SizeFormat::U16, NumberFormat::U16);
    let start = begin_data(&buffer);
    for _ in 0..12 {
        buffer.push(0);
    }
    let data = end_data(&buffer, start);
    end_size(&mut buffer, size, data);
    // Twelve bytes measured in 16-bit units.
    assert_eq!(&buffer[0..2], &[0, 6]);
}

#[test]
fn counts_track_pushed_entries() {
    let mut buffer = Vec::new();
    let mut count = begin_ifd_count(&mut buffer, ByteOrder::BE);
    assert_eq!(count.value, 0);
    count.add();
    count.add();
    assert_eq!(count.value, 2);
    end_ifd_count(&mut buffer, count);
    assert_eq!(&buffer[0..2], &[0, 2]);
}

#[test]
fn ifd_entries_lay_out_tag_type_size_offset() {
    let mut buffer = Vec::new();
    let mut count = Count {
        position: 0,
        bo: ByteOrder::BE,
        format: NumberFormat::U16,
        value: 0,
    };
    let (size, offset) = push_ifd_entry(
        &mut buffer,
        &mut count,
        0x010F,
        TagType::AsciiString,
        SizeFormat::U8,
    );
    assert_eq!(&buffer, &[0x01, 0x0F, 0x00, 0x02, 0, 0, 0, 0, 0, 0, 0, 0]);
    assert_eq!(size.position, 4);
    assert_eq!(offset.position, 8);
    assert_eq!(count.value, 1);
}

#[test]
fn inline_ifd_values_are_padded_to_four_bytes() {
    let mut buffer = Vec::new();
    let mut count = Count {
        position: 0,
        bo: ByteOrder::BE,
        format: NumberFormat::U16,
        value: 0,
    };
    push_ifd_value(&mut buffer, &mut count, 0x9000, TagType::Undefined, vec![1, 2]);
    assert_eq!(
        &buffer,
        &[0x90, 0x00, 0x00, 0x07, 0x00, 0x00, 0x00, 0x02, 1, 2, 0, 0]
    );
    assert_eq!(count.value, 1);
}

#[test]
fn ascii_regions_optionally_terminate() {
    let mut buffer = Vec::new();
    let data = push_ascii(&mut buffer, b"Canon", true);
    assert_eq!(buffer, b"Canon\0");
    assert_eq!(data.position, 0);
    assert_eq!(data.length, 6);
    let data = push_ascii(&mut buffer, b"EOS", false);
    assert_eq!(&buffer[6..], b"EOS");
    assert_eq!(data.length, 3);
}

#[test]
fn tiff_headers_carry_the_byte_order_marker() {
    let mut buffer = Vec::new();
    push_tiff_header(&mut buffer, ByteOrder::BE);
    assert_eq!(buffer, vec![b'M', b'M', 0x00, 0x2A]);
    let mut buffer = Vec::new();
    push_tiff_header(&mut buffer, ByteOrder::LE);
    assert_eq!(buffer, vec![b'I', b'I', 0x2A, 0x00]);
}
