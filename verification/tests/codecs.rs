use fiv::afinfo::AfError;
use fiv::codecs::{codec_for_mime, CodecError, CodecMetadata, Codecs, Generic, Heif, Jpeg};
use fiv::image::{ImageData, PixelFormat};
use fiv::numeric::{DimensionsU32, Xu32, Yu32};
use fiv::orientation::{Orientation, Rotate};
use fiv::probe::ByteOrder;

fn dims(w: u32, h: u32) -> DimensionsU32 {
    DimensionsU32::new(Xu32::new(w), Yu32::new(h))
}

fn push_u32le(data: &mut Vec<u8>, v: u32) {
    data.extend(v.to_le_bytes());
}

/// A 2x2 24-bit BMP whose logical rows (top to bottom) are
/// [(1,2,3), (4,5,6)] and [(7,8,9), (10,11,12)] as RGB.
fn sample_bmp() -> Vec<u8> {
    let mut b = Vec::new();
    b.extend(b"BM");
    push_u32le(&mut b, 70); // file size
    push_u32le(&mut b, 0); // reserved
    push_u32le(&mut b, 54); // pixel data offset
    push_u32le(&mut b, 40); // DIB header size
    push_u32le(&mut b, 2); // width
    push_u32le(&mut b, 2); // height (bottom-up)
    b.extend((1u16).to_le_bytes()); // planes
    b.extend((24u16).to_le_bytes()); // bits per pixel
    push_u32le(&mut b, 0); // no compression
    push_u32le(&mut b, 16); // pixel data size
    push_u32le(&mut b, 2835); // x pixels per metre
    push_u32le(&mut b, 2835); // y pixels per metre
    push_u32le(&mut b, 0); // palette colours
    push_u32le(&mut b, 0); // important colours
    // Bottom row first, pixels as BGR, rows padded to four bytes.
    b.extend([9, 8, 7, 12, 11, 10, 0, 0]);
    b.extend([3, 2, 1, 6, 5, 4, 0, 0]);
    b
}

#[test]
fn sniffing_dispatches_to_codecs() {
    assert_eq!(
        Codecs::new(&sample_bmp()),
        Ok(Codecs::Generic(Generic::default()))
    );
    // The synthesized probe images are real JPEGs.
    assert_eq!(
        Codecs::new(&fiv::probe::test_image(ByteOrder::BE)),
        Ok(Codecs::Jpeg(Jpeg::default()))
    );
    assert_eq!(
        Codecs::new(b"just some text, certainly not pixels"),
        Err(CodecError::UnsupportedType)
    );
}

#[test]
fn mime_types_dispatch_to_their_codecs() {
    assert_eq!(codec_for_mime(b"image/jpeg"), Ok(Codecs::Jpeg(Jpeg::default())));
    assert_eq!(codec_for_mime(b"image/avif"), Ok(Codecs::Heif(Heif::default())));
    assert_eq!(codec_for_mime(b"image/heic"), Ok(Codecs::Heif(Heif::default())));
    assert_eq!(codec_for_mime(b"image/heif"), Ok(Codecs::Heif(Heif::default())));
    assert_eq!(codec_for_mime(b"image/png"), Ok(Codecs::Generic(Generic::default())));
    assert_eq!(codec_for_mime(b"image/bmp"), Ok(Codecs::Generic(Generic::default())));
    assert_eq!(codec_for_mime(b"text/plain"), Err(CodecError::UnsupportedType));
    assert_eq!(codec_for_mime(b"image"), Err(CodecError::UnsupportedType));
    assert_eq!(codec_for_mime(b""), Err(CodecError::UnsupportedType));
}

#[test]
fn generic_metadata_reads_dimensions() {
    let metadata = Generic::default().metadata(&sample_bmp()).unwrap();
    assert_eq!(metadata.dimensions, dims(2, 2));
    assert_eq!(metadata.orientation, Orientation::identity());
    assert!(metadata.af_points.is_none());
    assert!(Generic::default().metadata(b"not an image").is_err());
}

#[test]
fn generic_primary_packs_pixels() {
    let file = sample_bmp();
    let metadata = Generic::default().metadata(&file).unwrap();
    let data = Generic::default().primary(&file, &metadata).unwrap();
    assert_eq!(data.format, PixelFormat::Rgb24);
    assert_eq!(data.width, 2);
    assert_eq!(data.height, 2);
    assert_eq!(data.stride, 8);
    assert_eq!(
        data.data.unwrap(),
        vec![0x010203, 0x040506, 0x070809, 0x0A0B0C]
    );
}

#[test]
fn generic_primary_is_deterministic() {
    let file = sample_bmp();
    let metadata = Generic::default().metadata(&file).unwrap();
    let a = Generic::default().primary(&file, &metadata).unwrap();
    let b = Generic::default().primary(&file, &metadata).unwrap();
    assert_eq!(a.data.unwrap(), b.data.unwrap());
}

#[test]
fn generic_primary_rejects_changed_dimensions() {
    let file = sample_bmp();
    let metadata = CodecMetadata {
        dimensions: dims(3, 2),
        orientation: Orientation::identity(),
        af_points: None,
    };
    assert_eq!(
        Generic::default().primary(&file, &metadata).unwrap_err(),
        CodecError::DimensionsChanged
    );
    assert_eq!(
        Generic::default().primary(b"garbage", &metadata).unwrap_err(),
        CodecError::DecodeFailed
    );
}

#[test]
fn builder_rejects_oversized_dimensions() {
    assert_eq!(
        ImageData::builder(dims(0x8000_0000, 1)).unwrap_err(),
        CodecError::TooWide
    );
    assert_eq!(
        ImageData::builder(dims(1, 0x8000_0000)).unwrap_err(),
        CodecError::TooTall
    );
    assert_eq!(
        ImageData::builder(dims(0x2000_0000, 1)).unwrap_err(),
        CodecError::UnsupportedStride
    );
}

#[test]
fn builder_allocates_a_zeroed_buffer() {
    let builder = ImageData::builder(dims(3, 2)).unwrap();
    assert_eq!(builder.buffer, vec![0u32; 6]);
    assert_eq!(builder.stride, 12);
    assert_eq!(builder.format, PixelFormat::Rgb24);
    let data = builder.into_image_data();
    assert_eq!(data.width, 3);
    assert_eq!(data.height, 2);
}

#[test]
fn failed_sentinel_is_distinguishable() {
    let failed = ImageData::failed();
    assert!(failed.data.is_none());
    assert_eq!(failed.format, PixelFormat::Invalid);
    assert_eq!((failed.width, failed.height, failed.stride), (-1, -1, -1));
}

#[test]
fn heif_plane_swizzle_honours_the_stride() {
    let metadata = CodecMetadata {
        dimensions: dims(2, 2),
        orientation: Orientation::identity(),
        af_points: None,
    };
    // Stride seven: six sample bytes and one padding byte per row.
    let plane = [1, 2, 3, 4, 5, 6, 0xEE, 7, 8, 9, 10, 11, 12, 0xEE];
    let data = Heif::default()
        .primary_from_plane(dims(2, 2), &plane, 7, &metadata)
        .unwrap();
    assert_eq!(
        data.data.unwrap(),
        vec![0x010203, 0x040506, 0x070809, 0x0A0B0C]
    );

    assert_eq!(
        Heif::default()
            .primary_from_plane(dims(2, 2), &plane[..13], 7, &metadata)
            .unwrap_err(),
        CodecError::DecodeFailed
    );
    assert_eq!(
        Heif::default()
            .primary_from_plane(dims(2, 2), &plane, 5, &metadata)
            .unwrap_err(),
        CodecError::DecodeFailed
    );
    assert_eq!(
        Heif::default()
            .primary_from_plane(dims(2, 3), &plane, 7, &metadata)
            .unwrap_err(),
        CodecError::DimensionsChanged
    );
}

#[test]
fn heif_metadata_carries_the_exif_orientation() {
    let metadata = Heif::default().metadata_from_parts(dims(10, 20), Some(3));
    assert_eq!(metadata.dimensions, dims(10, 20));
    assert_eq!(metadata.orientation, Orientation::new(Rotate::Rotate180, false));
    assert!(metadata.af_points.is_none());
    let metadata = Heif::default().metadata_from_parts(dims(10, 20), None);
    assert_eq!(metadata.orientation, Orientation::identity());
}

#[test]
fn jpeg_metadata_parses_af_points_when_valid() {
    // A minimal AFInfo: one point, zero valid points, 1x1 dimensions.
    let mut af = Vec::new();
    for v in [28u16, 0x4D49, 1, 0, 1, 1, 1, 1, 0, 0, 0, 0, 0, 0] {
        af.extend(v.to_be_bytes());
    }
    let metadata =
        Jpeg::default().metadata_from_parts(dims(1, 1), Some(6), Some((af, ByteOrder::BE)));
    assert_eq!(metadata.orientation, Orientation::new(Rotate::Rotate90, false));
    assert_eq!(metadata.af_points.as_ref().map(Vec::len), Some(0));

    // The same tag against different decoded dimensions is discarded.
    let mut af = Vec::new();
    for v in [28u16, 0x4D49, 1, 0, 1, 1, 1, 1, 0, 0, 0, 0, 0, 0] {
        af.extend(v.to_be_bytes());
    }
    let metadata =
        Jpeg::default().metadata_from_parts(dims(2, 1), Some(6), Some((af, ByteOrder::BE)));
    assert!(metadata.af_points.is_none());

    let metadata = Jpeg::default().metadata_from_parts(dims(1, 1), None, None);
    assert_eq!(metadata.orientation, Orientation::identity());
    assert!(metadata.af_points.is_none());
}

#[test]
fn af_parse_errors_leave_points_absent() {
    // The probe payload parses cleanly but against 1x1 dimensions only.
    let image_err = fiv::afinfo::read_canon_af_points(
        dims(4, 4),
        fiv::probe::test_image(ByteOrder::BE)[0..0].to_vec(),
        ByteOrder::BE,
    );
    assert_eq!(image_err, Err(AfError::Missing));
}
