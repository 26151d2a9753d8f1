//! Codec dispatch and the generic decoder. The codec variant is chosen by
//! sniffing the MIME type of the file's bytes; each codec exposes pure
//! metadata and primary-pixel decodes over those bytes.

use vstd::prelude::*;
use vstd::arithmetic::div_mod::lemma_fundamental_div_mod_converse;
use vstd::slice::SliceAdditionalExecFns;

use image::ImageDecoder;
use image::metadata::Orientation as ExifOrientation;

use crate::afinfo::AFPoint;
use crate::probe::ByteOrder;
use crate::image::{ImageData, PixelFormat};
use crate::numeric::{DimensionsU32, Xu32, Yu32};
use crate::orientation::Orientation;

verus! {

/// Why a file could not be dispatched or decoded.
#[derive(Debug, Copy, Clone, PartialEq, Eq, Structural)]
pub enum CodecError {
    /// The MIME type is not an image type.
    UnsupportedType,
    /// The decoder rejected the bytes.
    DecodeFailed,
    /// The dimensions read at decode time differ from the metadata.
    DimensionsChanged,
    /// The width does not fit the pixel buffer limits.
    TooWide,
    /// The height does not fit the pixel buffer limits.
    TooTall,
    /// The whole buffer would not be addressable.
    TooLarge,
    /// The row stride does not fit the pixel buffer limits.
    UnsupportedStride,
}

/// What a codec's metadata decode yields: the image dimensions, its EXIF
/// orientation, and any autofocus points.
#[derive(Debug)]
pub struct CodecMetadata {
    pub dimensions: DimensionsU32,
    pub orientation: Orientation,
    pub af_points: Option<Vec<AFPoint>>,
}

/// The JPEG codec.
#[derive(Debug, Copy, Clone, PartialEq, Eq, Structural, Default)]
pub struct Jpeg {}

/// The HEIF/AVIF/HEIC codec.
#[derive(Debug, Copy, Clone, PartialEq, Eq, Structural, Default)]
pub struct Heif {}

/// The fallback codec for any other image type.
#[derive(Debug, Copy, Clone, PartialEq, Eq, Structural, Default)]
pub struct Generic {}

/// The codec bound to an image at construction.
#[derive(Debug, Copy, Clone, PartialEq, Eq, Structural)]
pub enum Codecs {
    Generic(Generic),
    Heif(Heif),
    Jpeg(Jpeg),
}

/// Relies on tree_magic_mini::from_u8 with its embedded database: the
/// MIME type sniffed from the leading bytes. The result carries no
/// contract: the sniffer walks its type graph in an order seeded per
/// process, so on bytes matching two sibling magic rules the answer can
/// differ between runs. The dispatch over whatever comes back is
/// verified in `codec_for_mime`.
#[verifier::external_body]
fn sniff_mime(file: &[u8]) -> Vec<u8> {
    tree_magic_mini::from_u8(file).as_bytes().to_vec()
}

/// Whether two byte strings are equal.
fn bytes_eq(a: &[u8], b: &[u8]) -> (r: bool)
    ensures
        r == (a@ == b@),
{
    if a.len() != b.len() {
        proof {
            assert(a@.len() != b@.len());
        }
        return false;
    }
    let mut i: usize = 0;
    while i < a.len()
        invariant
            i <= a.len(),
            a.len() == b.len(),
            forall|k: int| 0 <= k < i ==> a@[k] == b@[k],
        decreases a.len() - i,
    {
        if a[i] != b[i] {
            return false;
        }
        i += 1;
    }
    proof {
        assert(a@ =~= b@);
    }
    true
}

/// Whether `p` is a prefix of `a`.
pub open spec fn spec_starts_with(a: Seq<u8>, p: Seq<u8>) -> bool {
    a.len() >= p.len() && a.subrange(0, p.len() as int) == p
}

fn bytes_starts_with(a: &[u8], p: &[u8]) -> (r: bool)
    ensures
        r == spec_starts_with(a@, p@),
{
    if a.len() < p.len() {
        return false;
    }
    let mut i: usize = 0;
    while i < p.len()
        invariant
            i <= p.len(),
            p.len() <= a.len(),
            forall|k: int| 0 <= k < i ==> a@[k] == p@[k],
        decreases p.len() - i,
    {
        if a[i] != p[i] {
            proof {
                assert(a@.subrange(0, p@.len() as int)[i as int] != p@[i as int]);
            }
            return false;
        }
        i += 1;
    }
    proof {
        assert(a@.subrange(0, p@.len() as int) =~= p@);
    }
    true
}

/// The bytes of "image/avif".
pub open spec fn spec_mime_avif() -> Seq<u8> {
    seq![105u8, 109u8, 97u8, 103u8, 101u8, 47u8, 97u8, 118u8, 105u8, 102u8]
}

/// The bytes of "image/heic".
pub open spec fn spec_mime_heic() -> Seq<u8> {
    seq![105u8, 109u8, 97u8, 103u8, 101u8, 47u8, 104u8, 101u8, 105u8, 99u8]
}

/// The bytes of "image/heif".
pub open spec fn spec_mime_heif() -> Seq<u8> {
    seq![105u8, 109u8, 97u8, 103u8, 101u8, 47u8, 104u8, 101u8, 105u8, 102u8]
}

/// The bytes of "image/jpeg".
pub open spec fn spec_mime_jpeg() -> Seq<u8> {
    seq![105u8, 109u8, 97u8, 103u8, 101u8, 47u8, 106u8, 112u8, 101u8, 103u8]
}

/// The bytes of "image/".
pub open spec fn spec_mime_image_prefix() -> Seq<u8> {
    seq![105u8, 109u8, 97u8, 103u8, 101u8, 47u8]
}

/// Which codec handles a MIME type: HEIF for the HEIF family, JPEG for
/// JPEG, the generic codec for any other image type, and an error for
/// everything else.
pub open spec fn spec_codec_for_mime(mime: Seq<u8>) -> Result<Codecs, CodecError> {
    if mime == spec_mime_avif() || mime == spec_mime_heic() || mime == spec_mime_heif() {
        Ok(Codecs::Heif(Heif {}))
    } else if mime == spec_mime_jpeg() {
        Ok(Codecs::Jpeg(Jpeg {}))
    } else if spec_starts_with(mime, spec_mime_image_prefix()) {
        Ok(Codecs::Generic(Generic {}))
    } else {
        Err(CodecError::UnsupportedType)
    }
}

/// Bind the codec that handles a MIME type.
pub fn codec_for_mime(mime: &[u8]) -> (r: Result<Codecs, CodecError>)
    ensures
        r == spec_codec_for_mime(mime@),
{
    let avif: [u8; 10] = [105, 109, 97, 103, 101, 47, 97, 118, 105, 102];
        let heic: [u8; 10] = [105, 109, 97, 103, 101, 47, 104, 101, 105, 99];
        let heif: [u8; 10] = [105, 109, 97, 103, 101, 47, 104, 101, 105, 102];
        let jpeg: [u8; 10] = [105, 109, 97, 103, 101, 47, 106, 112, 101, 103];
        let image_prefix: [u8; 6] = [105, 109, 97, 103, 101, 47];
        proof {
            assert(avif@ =~= spec_mime_avif());
            assert(heic@ =~= spec_mime_heic());
            assert(heif@ =~= spec_mime_heif());
            assert(jpeg@ =~= spec_mime_jpeg());
            assert(image_prefix@ =~= spec_mime_image_prefix());
        }
    if bytes_eq(mime, avif.as_slice()) || bytes_eq(mime, heic.as_slice()) || bytes_eq(
        mime,
        heif.as_slice(),
    ) {
        Ok(Codecs::Heif(Heif {}))
    } else if bytes_eq(mime, jpeg.as_slice()) {
        Ok(Codecs::Jpeg(Jpeg {}))
    } else if bytes_starts_with(mime, image_prefix.as_slice()) {
        Ok(Codecs::Generic(Generic {}))
    } else {
        Err(CodecError::UnsupportedType)
    }
}

impl Codecs {
    /// Sniff the MIME type of the file's bytes and bind the codec that
    /// handles it. The sniffed type is not pinned to the bytes (see
    /// `sniff_mime`), so the contract promises only that the result is
    /// the verified dispatch of some MIME type.
    pub fn new(file: &[u8]) -> (r: Result<Codecs, CodecError>)
        ensures
            exists|m: Seq<u8>| r == #[trigger] spec_codec_for_mime(m),
    {
        let mime = sniff_mime(file);
        let r = codec_for_mime(mime.as_slice());
        proof {
            assert(r == spec_codec_for_mime(mime@));
        }
        r
    }
}


/// The dimensions and EXIF orientation code that the generic decoder
/// reads from these bytes.
pub uninterp spec fn generic_header_of(bytes: Seq<u8>) -> Option<(u32, u32, u8)>;

/// The dimensions and interleaved 3-byte RGB samples that the generic
/// decoder produces from these bytes.
pub uninterp spec fn generic_rgb8_of(bytes: Seq<u8>) -> Option<(u32, u32, Seq<u8>)>;

/// Relies on image::ImageReader and ImageDecoder::{dimensions,
/// orientation}: the dimensions and EXIF orientation code of the encoded
/// image, a function of the bytes alone; the orientation enum's eight
/// variants map onto the eight EXIF codes.
#[verifier::external_body]
fn decode_generic_header(file: &[u8]) -> (r: Option<(u32, u32, u8)>)
    ensures
        r == generic_header_of(file@),
        match r {
            Some(t) => 1 <= t.2 <= 8,
            None => true,
        },
{
    let reader = image::ImageReader::new(std::io::BufReader::new(std::io::Cursor::new(file)));
    let mut decoder = reader.with_guessed_format().ok()?.into_decoder().ok()?;
    let (w, h) = decoder.dimensions();
    let code = match decoder.orientation().ok()? {
        ExifOrientation::NoTransforms => 1u8,
        ExifOrientation::FlipHorizontal => 2,
        ExifOrientation::Rotate180 => 3,
        ExifOrientation::FlipVertical => 4,
        ExifOrientation::Rotate90FlipH => 5,
        ExifOrientation::Rotate90 => 6,
        ExifOrientation::Rotate270FlipH => 7,
        ExifOrientation::Rotate270 => 8,
    };
    Some((w, h, code))
}

/// Relies on image::DynamicImage::{from_decoder, into_rgb8}: the decoded
/// image as one 3-byte RGB sample per pixel, row-major with no padding,
/// a function of the bytes alone.
#[verifier::external_body]
fn decode_generic_rgb8(file: &[u8]) -> (r: Option<(u32, u32, Vec<u8>)>)
    ensures
        match (r, generic_rgb8_of(file@)) {
            (Some(t), Some(s)) => t.0 == s.0 && t.1 == s.1 && t.2@ == s.2 && s.2.len() == 3 * s.0
                * s.1,
            (None, None) => true,
            _ => false,
        },
{
    let reader = image::ImageReader::new(std::io::BufReader::new(std::io::Cursor::new(file)));
    let decoder = reader.with_guessed_format().ok()?.into_decoder().ok()?;
    let img = image::DynamicImage::from_decoder(decoder).ok()?;
    let rgb = img.into_rgb8();
    Some((rgb.width(), rgb.height(), rgb.into_raw()))
}

/// The packed 32-bit pixel built from the 3-byte RGB sample at `base`:
/// the unused byte zero, then red, green, blue from the high byte down.
pub open spec fn spec_pixel_at(samples: Seq<u8>, base: int) -> u32 {
    (samples[base] * 0x1_0000 + samples[base + 1] * 0x100 + samples[base + 2]) as u32
}

/// Whether freshly read dimensions still match the metadata; decoding
/// fails with `DimensionsChanged` when they do not.
pub fn check_dimensions(fresh: DimensionsU32, expected: DimensionsU32) -> (r: Result<
    (),
    CodecError,
>)
    ensures
        r is Ok <==> (fresh.width.spec_value() == expected.width.spec_value()
            && fresh.height.spec_value() == expected.height.spec_value()),
        r is Err ==> r == Err::<(), CodecError>(CodecError::DimensionsChanged),
{
    if fresh.width.value() == expected.width.value() && fresh.height.value()
        == expected.height.value() {
        Ok(())
    } else {
        Err(CodecError::DimensionsChanged)
    }
}

impl Generic {
    /// The metadata of a generically decoded image: its dimensions and
    /// EXIF orientation; generic images carry no autofocus points.
    pub fn metadata(&self, file: &[u8]) -> (r: Result<CodecMetadata, CodecError>)
        ensures
            match generic_header_of(file@) {
                Some(t) => match r {
                    Ok(m) => m.dimensions.width.spec_value() == t.0
                        && m.dimensions.height.spec_value() == t.1 && m.orientation
                        == Orientation::spec_from_exif(t.2 as u32).unwrap_or(
                        Orientation::spec_identity(),
                    ) && m.af_points is None,
                    Err(_) => false,
                },
                None => r == Err::<CodecMetadata, CodecError>(CodecError::DecodeFailed),
            },
    {
        match decode_generic_header(file) {
            Some((w, h, code)) => Ok(
                CodecMetadata {
                    dimensions: DimensionsU32::new(Xu32::new(w), Yu32::new(h)),
                    orientation: Orientation::from_exif_or_default(Some(code as u32)),
                    af_points: None,
                },
            ),
            None => Err(CodecError::DecodeFailed),
        }
    }

    /// Decode the primary image into the packed 32-bit buffer. Fails when
    /// the decoder rejects the bytes, when the freshly decoded dimensions
    /// differ from the metadata, or when the dimensions exceed the buffer
    /// limits; otherwise every pixel is the packed form of its RGB
    /// sample.
    #[verifier::loop_isolation(false)]
    pub fn primary(&self, file: &[u8], metadata: &CodecMetadata) -> (r: Result<
        ImageData,
        CodecError,
    >)
        ensures
            match generic_rgb8_of(file@) {
                None => r == Err::<ImageData, CodecError>(CodecError::DecodeFailed),
                Some(t) => {
                    if t.0 != metadata.dimensions.width.spec_value() || t.1
                        != metadata.dimensions.height.spec_value() {
                        r == Err::<ImageData, CodecError>(CodecError::DimensionsChanged)
                    } else {
                        match crate::image::spec_builder_error(metadata.dimensions) {
                            Some(e) => r == Err::<ImageData, CodecError>(e),
                            None => match r {
                                Ok(d) => {
                                    &&& d.format == PixelFormat::Rgb24
                                    &&& d.width == t.0
                                    &&& d.height == t.1
                                    &&& d.stride == 4 * t.0
                                    &&& d.data is Some
                                    &&& d.data->Some_0@.len() == t.0 * t.1
                                    &&& forall|i: int|
                                        0 <= i < t.0 * t.1 ==> d.data->Some_0@[i] == spec_pixel_at(
                                            t.2,
                                            3 * i,
                                        )
                                },
                                Err(_) => false,
                            },
                        }
                    }
                },
            },
    {
        let decoded = match decode_generic_rgb8(file) {
            Some(t) => t,
            None => {
                return Err(CodecError::DecodeFailed);
            },
        };
        let (w, h, samples) = decoded;
        let fresh = DimensionsU32::new(Xu32::new(w), Yu32::new(h));
        if let Err(e) = check_dimensions(fresh, metadata.dimensions) {
            return Err(e);
        }
        let mut builder = match ImageData::builder(metadata.dimensions) {
            Ok(b) => b,
            Err(e) => {
                return Err(e);
            },
        };
        let ghost samples0 = samples@;
        let slen = samples.len();
        let total = builder.buffer.len();
        proof {
            let t = generic_rgb8_of(file@)->Some_0;
            assert(samples0.len() == 3 * t.0 * t.1);
            assert(builder.buffer@.len() == t.0 * t.1);
            assert(3 * t.0 * t.1 == 3 * (t.0 * t.1)) by (nonlinear_arith);
            assert(samples0.len() == 3 * total);
        }
        let mut i: usize = 0;
        while i < total
            invariant
                i <= total,
                builder.buffer@.len() == total,
                builder.format == PixelFormat::Rgb24,
                builder.width == metadata.dimensions.width.spec_value(),
                builder.height == metadata.dimensions.height.spec_value(),
                builder.stride == 4 * metadata.dimensions.width.spec_value(),
                samples@ == samples0,
                samples0.len() == 3 * total,
                slen == samples0.len(),
                forall|k: int|
                    0 <= k < i ==> builder.buffer@[k] == spec_pixel_at(samples0, 3 * k),
            decreases total - i,
        {
            let px: u32 = (samples[3 * i] as u32) * 0x1_0000 + (samples[3 * i + 1] as u32) * 0x100
                + (samples[3 * i + 2] as u32);
            builder.buffer.as_mut_slice().set(i, px);
            i += 1;
        }
        Ok(builder.into_image_data())
    }
}

impl Heif {
    /// The metadata of a HEIF image, from the dimensions that the HEIF
    /// library reports for its primary image handle and the EXIF
    /// orientation value; HEIF images carry no autofocus points.
    pub fn metadata_from_parts(&self, dimensions: DimensionsU32, exif_orientation: Option<u32>) -> (r:
        CodecMetadata)
        ensures
            r.dimensions == dimensions,
            r.orientation == match exif_orientation {
                Some(v) => Orientation::spec_from_exif(v).unwrap_or(Orientation::spec_identity()),
                None => Orientation::spec_identity(),
            },
            r.af_points is None,
    {
        CodecMetadata {
            dimensions,
            orientation: Orientation::from_exif_or_default(exif_orientation),
            af_points: None,
        }
    }

    /// Swizzle the HEIF decoder's interleaved RGB plane into the packed
    /// 32-bit buffer, honouring the plane's own row stride. Fails when
    /// the freshly read dimensions differ from the metadata, when the
    /// dimensions exceed the buffer limits, or when the plane is too
    /// short for its stride.
    #[verifier::loop_isolation(false)]
    #[verifier::rlimit(60)]
    pub fn primary_from_plane(
        &self,
        fresh: DimensionsU32,
        plane: &[u8],
        stride: usize,
        metadata: &CodecMetadata,
    ) -> (r: Result<ImageData, CodecError>)
        ensures
            ({
                let w = metadata.dimensions.width.spec_value();
                let h = metadata.dimensions.height.spec_value();
                if fresh.width.spec_value() != w || fresh.height.spec_value() != h {
                    r == Err::<ImageData, CodecError>(CodecError::DimensionsChanged)
                } else {
                    match crate::image::spec_builder_error(metadata.dimensions) {
                        Some(e) => r == Err::<ImageData, CodecError>(e),
                        None => {
                            if stride < 3 * w || plane@.len() < h * stride {
                                r == Err::<ImageData, CodecError>(CodecError::DecodeFailed)
                            } else {
                                match r {
                                    Ok(d) => {
                                        &&& d.format == PixelFormat::Rgb24
                                        &&& d.width == w
                                        &&& d.height == h
                                        &&& d.stride == 4 * w
                                        &&& d.data is Some
                                        &&& d.data->Some_0@.len() == w * h
                                        &&& forall|i: int|
                                            0 <= i < w * h ==> d.data->Some_0@[i] == spec_pixel_at(
                                                plane@,
                                                (i / w) * stride + 3 * (i % w),
                                            )
                                    },
                                    Err(_) => false,
                                }
                            }
                        },
                    }
                }
            }),
    {
        if let Err(e) = check_dimensions(fresh, metadata.dimensions) {
            return Err(e);
        }
        let mut builder = match ImageData::builder(metadata.dimensions) {
            Ok(b) => b,
            Err(e) => {
                return Err(e);
            },
        };
        let w = metadata.dimensions.width.value() as usize;
        let h = metadata.dimensions.height.value() as usize;
        if stride < 3 * w {
            return Err(CodecError::DecodeFailed);
        }
        let plen = plane.len();
        let needed = match h.checked_mul(stride) {
            Some(n) => n,
            None => {
                proof {
                    assert(plen <= usize::MAX);
                }
                return Err(CodecError::DecodeFailed);
            },
        };
        if plen < needed {
            return Err(CodecError::DecodeFailed);
        }
        let wh = builder.buffer.len();
        proof {
            assert(wh == w * h);
        }
        let mut row: usize = 0;
        while row < h
            invariant
                row <= h,
                wh == w * h,
                builder.buffer@.len() == wh,
                builder.format == PixelFormat::Rgb24,
                builder.width == metadata.dimensions.width.spec_value(),
                builder.height == metadata.dimensions.height.spec_value(),
                builder.stride == 4 * metadata.dimensions.width.spec_value(),
                forall|i: int|
                    0 <= i < row * w ==> builder.buffer@[i] == spec_pixel_at(
                        plane@,
                        (i / w as int) * stride + 3 * (i % w as int),
                    ),
                row * w <= w * h,
            decreases h - row,
        {
            let mut col: usize = 0;
            proof {
                assert((row + 1) * w <= w * h) by (nonlinear_arith)
                    requires
                        0 <= row < h,
                        0 <= w,
                ;
            }
            while col < w
                invariant
                    row < h,
                    col <= w,
                    wh == w * h,
                    builder.buffer@.len() == wh,
                    builder.format == PixelFormat::Rgb24,
                    builder.width == metadata.dimensions.width.spec_value(),
                    builder.height == metadata.dimensions.height.spec_value(),
                    builder.stride == 4 * metadata.dimensions.width.spec_value(),
                    row * w + col <= wh,
                    forall|i: int|
                        0 <= i < row * w + col ==> builder.buffer@[i] == spec_pixel_at(
                            plane@,
                            (i / w as int) * stride + 3 * (i % w as int),
                        ),
                decreases w - col,
            {
                proof {
                    assert(row * w + col + 1 <= w * h) by (nonlinear_arith)
                        requires
                            0 <= row < h,
                            0 <= col < w,
                    ;
                    assert(row * stride + 3 * col + 2 < h * stride) by (nonlinear_arith)
                        requires
                            0 <= row < h,
                            0 <= col < w,
                            3 * w <= stride,
                    ;
                    lemma_fundamental_div_mod_converse(
                        row * w + col,
                        w as int,
                        row as int,
                        col as int,
                    );
                }
                let base = row * stride + 3 * col;
                let px: u32 = (plane[base] as u32) * 0x1_0000 + (plane[base + 1] as u32) * 0x100 + (
                plane[base + 2] as u32);
                builder.buffer.as_mut_slice().set(row * w + col, px);
                col += 1;
            }
            row += 1;
            proof {
                assert(row * w == (row - 1) * w + w) by (nonlinear_arith);
            }
        }
        proof {
            assert(h * w == w * h) by (nonlinear_arith);
        }
        Ok(builder.into_image_data())
    }
}

impl Jpeg {
    /// Assemble JPEG metadata from the parts that the JPEG and EXIF
    /// libraries read: the header dimensions, the EXIF orientation value,
    /// and the raw AFInfo tag with the byte order the probe determined.
    /// An AFInfo tag that fails to parse leaves the autofocus points
    /// absent; the image is otherwise unaffected.
    pub fn metadata_from_parts(
        &self,
        dimensions: DimensionsU32,
        exif_orientation: Option<u32>,
        af_info: Option<(Vec<u8>, ByteOrder)>,
    ) -> (r: CodecMetadata)
        ensures
            r.dimensions == dimensions,
            r.orientation == match exif_orientation {
                Some(v) => Orientation::spec_from_exif(v).unwrap_or(Orientation::spec_identity()),
                None => Orientation::spec_identity(),
            },
            match af_info {
                Some(t) => match crate::afinfo::spec_read_af_points(dimensions, t.0@, t.1) {
                    Ok(points) => r.af_points is Some && r.af_points->Some_0@ == points,
                    Err(_) => r.af_points is None,
                },
                None => r.af_points is None,
            },
    {
        let af_points = match af_info {
            Some((data, bo)) => match crate::afinfo::read_canon_af_points(dimensions, data, bo) {
                Ok(points) => Some(points),
                Err(_) => None,
            },
            None => None,
        };
        CodecMetadata {
            dimensions,
            orientation: Orientation::from_exif_or_default(exif_orientation),
            af_points,
        }
    }
}

} // verus!
