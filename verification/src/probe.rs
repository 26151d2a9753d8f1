//! Byte-order probe for the metadata library's raw-tag output.
//!
//! The metadata library re-serializes raw EXIF tag values in a fixed byte
//! order regardless of the file's own TIFF endianness, but may later be
//! fixed to preserve it. The probe synthesizes one minimal JPEG per byte
//! order, each carrying a Canon AFInfo tag whose AFAreaMode value spells
//! out the endianness as ASCII, reads the tag back through the library,
//! and infers from byte 2 of the returned value which order the library
//! actually emits.

use vstd::prelude::*;
use vstd::slice::SliceAdditionalExecFns;

verus! {

/// TIFF/EXIF byte order: big endian ("MM") or little endian ("II").
#[derive(Debug, Copy, Clone, PartialEq, Eq, Structural)]
pub enum ByteOrder {
    BE,
    LE,
}

/// Why the probe could not determine a byte order.
#[derive(Debug, Copy, Clone, PartialEq, Eq, Structural)]
pub enum ProbeError {
    /// The tag read back from a synthesized image held neither marker.
    InvalidProbeImage,
    /// The probe for the image's declared byte order failed earlier.
    ProbeFailed,
    /// The image does not declare its EXIF byte order.
    MissingByteOrder,
    /// The image declares something other than "II" or "MM".
    InvalidByteOrder,
}

/// A 16-bit or 32-bit value in the synthesized TIFF structures.
#[derive(Debug, Copy, Clone, PartialEq, Eq, Structural)]
pub enum NumberFormat {
    U16,
    U32,
}

/// How an IFD entry's count field measures its data.
#[derive(Debug, Copy, Clone, PartialEq, Eq, Structural)]
pub enum SizeFormat {
    /// The count is one, whatever the data length.
    One,
    /// The count is the data length in bytes.
    U8,
    /// The count is the data length in 16-bit units.
    U16,
}

/// The TIFF tag types used in the synthesized images.
#[derive(Debug, Copy, Clone, PartialEq, Eq, Structural)]
pub enum TagType {
    AsciiString,
    UnsignedShort,
    UnsignedLong,
    Undefined,
}

/// The TIFF type code of a tag type.
pub open spec fn spec_tag_type_value(t: TagType) -> u16 {
    match t {
        TagType::AsciiString => 2,
        TagType::UnsignedShort => 3,
        TagType::UnsignedLong => 4,
        TagType::Undefined => 7,
    }
}

/// The two bytes of a 16-bit value in a byte order.
pub open spec fn spec_u16_bytes(bo: ByteOrder, v: u16) -> Seq<u8> {
    match bo {
        ByteOrder::BE => seq![(v / 256) as u8, (v % 256) as u8],
        ByteOrder::LE => seq![(v % 256) as u8, (v / 256) as u8],
    }
}

/// The four bytes of a 32-bit value in a byte order.
pub open spec fn spec_u32_bytes(bo: ByteOrder, v: u32) -> Seq<u8> {
    match bo {
        ByteOrder::BE => seq![
            (v / 0x100_0000) as u8,
            ((v / 0x1_0000) % 256) as u8,
            ((v / 256) % 256) as u8,
            (v % 256) as u8,
        ],
        ByteOrder::LE => seq![
            (v % 256) as u8,
            ((v / 256) % 256) as u8,
            ((v / 0x1_0000) % 256) as u8,
            (v / 0x100_0000) as u8,
        ],
    }
}

/// The bytes of a value in the given number format and byte order.
pub open spec fn spec_number_bytes(bo: ByteOrder, format: NumberFormat, v: int) -> Seq<u8> {
    match format {
        NumberFormat::U16 => spec_u16_bytes(bo, v as u16),
        NumberFormat::U32 => spec_u32_bytes(bo, v as u32),
    }
}

/// The width in bytes of a number format.
pub open spec fn spec_format_len(format: NumberFormat) -> int {
    match format {
        NumberFormat::U16 => 2,
        NumberFormat::U32 => 4,
    }
}

/// `data` with `bytes` written over the range starting at `pos`.
pub open spec fn spec_spliced(data: Seq<u8>, pos: int, bytes: Seq<u8>) -> Seq<u8> {
    data.subrange(0, pos) + bytes + data.subrange(pos + bytes.len(), data.len() as int)
}

/// A pending offset field: `position` holds a zero placeholder of the
/// given format until the offset is known.
#[derive(Debug, Copy, Clone)]
pub struct Offset {
    pub position: usize,
    pub bo: ByteOrder,
    pub format: NumberFormat,
}

/// A pending IFD entry count: `position` holds a zero placeholder,
/// `value` counts the entries pushed so far.
#[derive(Debug, Copy, Clone)]
pub struct Count {
    pub position: usize,
    pub bo: ByteOrder,
    pub format: NumberFormat,
    pub value: usize,
}

impl Count {
    /// One more entry belongs to this IFD.
    pub fn add(&mut self)
        requires
            old(self).value < usize::MAX,
        ensures
            *final(self) == (Count { value: (old(self).value + 1) as usize, ..*old(self) }),
    {
        self.value = self.value + 1;
    }
}

/// A pending size field: `position` holds a zero placeholder of the
/// `output` format; `input` says how the data length is measured.
#[derive(Debug, Copy, Clone)]
pub struct Size {
    pub position: usize,
    pub bo: ByteOrder,
    pub input: SizeFormat,
    pub output: NumberFormat,
}

/// The start of a data region being built.
#[derive(Debug, Copy, Clone)]
pub struct DataBuilder {
    pub position: usize,
}

/// A finished data region.
#[derive(Debug, Copy, Clone)]
pub struct Data {
    pub position: usize,
    pub length: usize,
}

/// Append a 16-bit value in the given byte order.
pub fn push_u16(buffer: &mut Vec<u8>, bo: ByteOrder, value: u16)
    ensures
        final(buffer)@ == old(buffer)@ + spec_u16_bytes(bo, value),
{
    let hi: u8 = (value / 256) as u8;
    let lo: u8 = (value % 256) as u8;
    match bo {
        ByteOrder::BE => {
            buffer.push(hi);
            buffer.push(lo);
        },
        ByteOrder::LE => {
            buffer.push(lo);
            buffer.push(hi);
        },
    }
    proof {
        assert(buffer@ =~= old(buffer)@ + spec_u16_bytes(bo, value));
    }
}

/// Append a 32-bit value in the given byte order.
pub fn push_u32(buffer: &mut Vec<u8>, bo: ByteOrder, value: u32)
    ensures
        final(buffer)@ == old(buffer)@ + spec_u32_bytes(bo, value),
{
    let b3: u8 = (value / 0x100_0000) as u8;
    let b2: u8 = ((value / 0x1_0000) % 256) as u8;
    let b1: u8 = ((value / 256) % 256) as u8;
    let b0: u8 = (value % 256) as u8;
    match bo {
        ByteOrder::BE => {
            buffer.push(b3);
            buffer.push(b2);
            buffer.push(b1);
            buffer.push(b0);
        },
        ByteOrder::LE => {
            buffer.push(b0);
            buffer.push(b1);
            buffer.push(b2);
            buffer.push(b3);
        },
    }
    proof {
        assert(buffer@ =~= old(buffer)@ + spec_u32_bytes(bo, value));
    }
}

/// Append a tag type's TIFF code.
pub fn push_tag_type(buffer: &mut Vec<u8>, bo: ByteOrder, value: TagType)
    ensures
        final(buffer)@ == old(buffer)@ + spec_u16_bytes(bo, spec_tag_type_value(value)),
{
    let code: u16 = match value {
        TagType::AsciiString => 2,
        TagType::UnsignedShort => 3,
        TagType::UnsignedLong => 4,
        TagType::Undefined => 7,
    };
    push_u16(buffer, bo, code);
}

/// Append a zero placeholder of the given format; returns its position.
pub fn push_zero(buffer: &mut Vec<u8>, bo: ByteOrder, format: NumberFormat) -> (r: usize)
    ensures
        r == old(buffer)@.len(),
        final(buffer)@ == old(buffer)@ + spec_number_bytes(bo, format, 0),
{
    let position = buffer.len();
    match format {
        NumberFormat::U16 => push_u16(buffer, bo, 0),
        NumberFormat::U32 => push_u32(buffer, bo, 0),
    }
    position
}

/// Overwrite the placeholder at `position` with `value`.
pub fn splice_value(
    buffer: &mut Vec<u8>,
    position: usize,
    bo: ByteOrder,
    format: NumberFormat,
    value: usize,
)
    requires
        position + spec_format_len(format) <= old(buffer)@.len(),
        match format {
            NumberFormat::U16 => value <= u16::MAX,
            NumberFormat::U32 => value <= u32::MAX,
        },
    ensures
        final(buffer)@ == spec_spliced(
            old(buffer)@,
            position as int,
            spec_number_bytes(bo, format, value as int),
        ),
{
    let ghost buf0 = buffer@;
    let blen = buffer.len();
    proof {
        assert(position + spec_format_len(format) <= blen);
    }
    match format {
        NumberFormat::U16 => {
            let v = value as u16;
            let hi: u8 = (v / 256) as u8;
            let lo: u8 = (v % 256) as u8;
            match bo {
                ByteOrder::BE => {
                    buffer.as_mut_slice().set(position, hi);
                    buffer.as_mut_slice().set(position + 1, lo);
                },
                ByteOrder::LE => {
                    buffer.as_mut_slice().set(position, lo);
                    buffer.as_mut_slice().set(position + 1, hi);
                },
            }
        },
        NumberFormat::U32 => {
            let v = value as u32;
            let b3: u8 = (v / 0x100_0000) as u8;
            let b2: u8 = ((v / 0x1_0000) % 256) as u8;
            let b1: u8 = ((v / 256) % 256) as u8;
            let b0: u8 = (v % 256) as u8;
            match bo {
                ByteOrder::BE => {
                    buffer.as_mut_slice().set(position, b3);
                    buffer.as_mut_slice().set(position + 1, b2);
                    buffer.as_mut_slice().set(position + 2, b1);
                    buffer.as_mut_slice().set(position + 3, b0);
                },
                ByteOrder::LE => {
                    buffer.as_mut_slice().set(position, b0);
                    buffer.as_mut_slice().set(position + 1, b1);
                    buffer.as_mut_slice().set(position + 2, b2);
                    buffer.as_mut_slice().set(position + 3, b3);
                },
            }
        },
    }
    proof {
        assert(buffer@ =~= spec_spliced(
            buf0,
            position as int,
            spec_number_bytes(bo, format, value as int),
        ));
    }
}

/// Start an offset field: a zero placeholder to be spliced later.
pub fn begin_offset(buffer: &mut Vec<u8>, bo: ByteOrder, format: NumberFormat) -> (r: Offset)
    ensures
        final(buffer)@ == old(buffer)@ + spec_number_bytes(bo, format, 0),
        r == (Offset { position: old(buffer)@.len() as usize, bo, format }),
{
    Offset { position: push_zero(buffer, bo, format), bo, format }
}

/// Finish an offset field: splice in the data's position relative to the
/// given base.
pub fn end_offset(buffer: &mut Vec<u8>, offset: Offset, relative_to: &DataBuilder, data: Data) -> (r:
    Data)
    requires
        data.position >= relative_to.position,
        offset.position + spec_format_len(offset.format) <= old(buffer)@.len(),
        match offset.format {
            NumberFormat::U16 => data.position - relative_to.position <= u16::MAX,
            NumberFormat::U32 => data.position - relative_to.position <= u32::MAX,
        },
    ensures
        final(buffer)@ == spec_spliced(
            old(buffer)@,
            offset.position as int,
            spec_number_bytes(
                offset.bo,
                offset.format,
                data.position - relative_to.position,
            ),
        ),
        r == data,
{
    let position = data.position - relative_to.position;
    splice_value(buffer, offset.position, offset.bo, offset.format, position);
    data
}

/// Start an IFD's entry count: a zero placeholder counting from zero.
pub fn begin_ifd_count(buffer: &mut Vec<u8>, bo: ByteOrder) -> (r: Count)
    ensures
        final(buffer)@ == old(buffer)@ + spec_u16_bytes(bo, 0),
        r == (Count {
            position: old(buffer)@.len() as usize,
            bo,
            format: NumberFormat::U16,
            value: 0,
        }),
{
    let format = NumberFormat::U16;
    Count { position: push_zero(buffer, bo, format), bo, format, value: 0 }
}

/// Finish an IFD's entry count and start the offset of the next IFD.
pub fn end_ifd_count(buffer: &mut Vec<u8>, count: Count) -> (r: Offset)
    requires
        count.position + spec_format_len(count.format) <= old(buffer)@.len(),
        count.format == NumberFormat::U16 ==> count.value <= u16::MAX,
        count.format == NumberFormat::U32 ==> count.value <= u32::MAX,
    ensures
        final(buffer)@ == spec_spliced(
            old(buffer)@,
            count.position as int,
            spec_number_bytes(count.bo, count.format, count.value as int),
        ) + spec_number_bytes(count.bo, NumberFormat::U32, 0),
        r.position == old(buffer)@.len(),
        r.bo == count.bo,
        r.format == NumberFormat::U32,
{
    let ghost buf0 = buffer@;
    let blen = buffer.len();
    splice_value(buffer, count.position, count.bo, count.format, count.value);
    proof {
        assert(buffer@.len() == buf0.len());
    }
    begin_offset(buffer, count.bo, NumberFormat::U32)
}

/// Start a size field: a zero placeholder of the output format.
pub fn begin_size(
    buffer: &mut Vec<u8>,
    bo: ByteOrder,
    input: SizeFormat,
    output: NumberFormat,
) -> (r: Size)
    ensures
        final(buffer)@ == old(buffer)@ + spec_number_bytes(bo, output, 0),
        r == (Size { position: old(buffer)@.len() as usize, bo, input, output }),
{
    Size { position: push_zero(buffer, bo, output), bo, input, output }
}

/// The value a size field records for a data region: one, the byte
/// length, or the length in 16-bit units.
pub open spec fn spec_size_value(input: SizeFormat, length: int) -> int {
    match input {
        SizeFormat::One => 1,
        SizeFormat::U8 => length,
        SizeFormat::U16 => length / 2,
    }
}

/// Finish a size field: splice in the measure of the data region. IFD
/// values of four bytes or fewer would be inlined, so measured regions
/// must be longer than that.
pub fn end_size(buffer: &mut Vec<u8>, size: Size, data: Data) -> (r: Data)
    requires
        size.position + spec_format_len(size.output) <= old(buffer)@.len(),
        size.input == SizeFormat::U16 ==> data.length % 2 == 0,
        size.input != SizeFormat::One ==> spec_size_value(size.input, data.length as int) > 4,
        match size.output {
            NumberFormat::U16 => spec_size_value(size.input, data.length as int) <= u16::MAX,
            NumberFormat::U32 => spec_size_value(size.input, data.length as int) <= u32::MAX,
        },
    ensures
        final(buffer)@ == spec_spliced(
            old(buffer)@,
            size.position as int,
            spec_number_bytes(
                size.bo,
                size.output,
                spec_size_value(size.input, data.length as int),
            ),
        ),
        r == data,
{
    let length: usize = match size.input {
        SizeFormat::One => 1,
        SizeFormat::U8 => data.length,
        SizeFormat::U16 => data.length / 2,
    };
    splice_value(buffer, size.position, size.bo, size.output, length);
    data
}

/// Start a data region at the current end of the buffer.
pub fn begin_data(buffer: &Vec<u8>) -> (r: DataBuilder)
    ensures
        r == (DataBuilder { position: buffer@.len() as usize }),
{
    DataBuilder { position: buffer.len() }
}

/// Finish a data region: everything appended since it began.
pub fn end_data(buffer: &Vec<u8>, data_builder: DataBuilder) -> (r: Data)
    requires
        data_builder.position <= buffer@.len(),
    ensures
        r == (Data {
            position: data_builder.position,
            length: (buffer@.len() - data_builder.position) as usize,
        }),
{
    Data { position: data_builder.position, length: buffer.len() - data_builder.position }
}

/// Append a TIFF header: the byte-order marker ("MM" or "II") and the
/// TIFF version.
pub fn push_tiff_header(buffer: &mut Vec<u8>, bo: ByteOrder)
    ensures
        final(buffer)@ == old(buffer)@ + spec_tiff_header(bo),
{
    match bo {
        ByteOrder::BE => {
            buffer.push(0x4D);
            buffer.push(0x4D);
        },
        ByteOrder::LE => {
            buffer.push(0x49);
            buffer.push(0x49);
        },
    }
    push_u16(buffer, bo, 0x2A);
    proof {
        assert(buffer@ =~= old(buffer)@ + spec_tiff_header(bo));
    }
}

/// The bytes of a TIFF header: "MM" or "II", then the version.
pub open spec fn spec_tiff_header(bo: ByteOrder) -> Seq<u8> {
    (match bo {
        ByteOrder::BE => seq![0x4Du8, 0x4Du8],
        ByteOrder::LE => seq![0x49u8, 0x49u8],
    }) + spec_u16_bytes(bo, 0x2A)
}

/// Append an ASCII data region, optionally null-terminated.
pub fn push_ascii(buffer: &mut Vec<u8>, value: &[u8], null_terminated: bool) -> (r: Data)
    requires
        forall|k: int| 0 <= k < value@.len() ==> value@[k] < 128,
    ensures
        final(buffer)@ == old(buffer)@ + value@ + (if null_terminated {
            seq![0u8]
        } else {
            Seq::<u8>::empty()
        }),
        r == (Data {
            position: old(buffer)@.len() as usize,
            length: (value@.len() + if null_terminated {
                1int
            } else {
                0int
            }) as usize,
        }),
{
    let vlen = value.len();
    let blen = buffer.len();
    let data = begin_data(buffer);
    let mut k: usize = 0;
    while k < value.len()
        invariant
            k <= value@.len(),
            buffer@ == old(buffer)@ + value@.take(k as int),
        decreases value@.len() - k,
    {
        buffer.push(value[k]);
        proof {
            assert(buffer@ =~= old(buffer)@ + value@.take(k + 1));
        }
        k += 1;
    }
    proof {
        assert(value@.take(value@.len() as int) =~= value@);
    }
    if null_terminated {
        buffer.push(0);
    }
    let r = end_data(buffer, data);
    proof {
        if null_terminated {
            assert(buffer@ =~= old(buffer)@ + value@ + seq![0u8]);
        } else {
            assert(buffer@ =~= old(buffer)@ + value@ + Seq::<u8>::empty());
        }
    }
    r
}

/// Append an IFD entry header (tag, type, pending size, pending offset)
/// and count it.
pub fn push_ifd_entry(
    buffer: &mut Vec<u8>,
    count: &mut Count,
    tag: u16,
    tag_type: TagType,
    format: SizeFormat,
) -> (r: (Size, Offset))
    requires
        old(count).value < usize::MAX,
    ensures
        final(buffer)@ == old(buffer)@ + spec_u16_bytes(old(count).bo, tag) + spec_u16_bytes(
            old(count).bo,
            spec_tag_type_value(tag_type),
        ) + spec_number_bytes(old(count).bo, NumberFormat::U32, 0) + spec_number_bytes(
            old(count).bo,
            NumberFormat::U32,
            0,
        ),
        *final(count) == (Count { value: (old(count).value + 1) as usize, ..*old(count) }),
        r.0 == (Size {
            position: (old(buffer)@.len() + 4) as usize,
            bo: old(count).bo,
            input: format,
            output: NumberFormat::U32,
        }),
        r.1 == (Offset {
            position: (old(buffer)@.len() + 8) as usize,
            bo: old(count).bo,
            format: NumberFormat::U32,
        }),
{
    push_u16(buffer, count.bo, tag);
    push_tag_type(buffer, count.bo, tag_type);
    let size = begin_size(buffer, count.bo, format, NumberFormat::U32);
    let offset = begin_offset(buffer, count.bo, NumberFormat::U32);
    count.add();
    (size, offset)
}

/// Finish an IFD entry: splice its size and its offset.
pub fn end_ifd_entry(
    buffer: &mut Vec<u8>,
    size: Size,
    offset: Offset,
    relative_to: &DataBuilder,
    data: Data,
)
    requires
        size.position + spec_format_len(size.output) <= old(buffer)@.len(),
        size.input == SizeFormat::U16 ==> data.length % 2 == 0,
        size.input != SizeFormat::One ==> spec_size_value(size.input, data.length as int) > 4,
        match size.output {
            NumberFormat::U16 => spec_size_value(size.input, data.length as int) <= u16::MAX,
            NumberFormat::U32 => spec_size_value(size.input, data.length as int) <= u32::MAX,
        },
        data.position >= relative_to.position,
        offset.position + spec_format_len(offset.format) <= old(buffer)@.len(),
        match offset.format {
            NumberFormat::U16 => data.position - relative_to.position <= u16::MAX,
            NumberFormat::U32 => data.position - relative_to.position <= u32::MAX,
        },
    ensures
        final(buffer)@ == spec_spliced(
            spec_spliced(
                old(buffer)@,
                size.position as int,
                spec_number_bytes(
                    size.bo,
                    size.output,
                    spec_size_value(size.input, data.length as int),
                ),
            ),
            offset.position as int,
            spec_number_bytes(
                offset.bo,
                offset.format,
                data.position - relative_to.position,
            ),
        ),
{
    let data = end_size(buffer, size, data);
    end_offset(buffer, offset, relative_to, data);
}

/// Append an IFD entry whose value (at most four bytes) is inlined, and
/// count it.
pub fn push_ifd_value(
    buffer: &mut Vec<u8>,
    count: &mut Count,
    tag: u16,
    tag_type: TagType,
    value: Vec<u8>,
)
    requires
        value@.len() <= 4,
        old(count).value < usize::MAX,
    ensures
        final(buffer)@ == old(buffer)@ + spec_u16_bytes(old(count).bo, tag) + spec_u16_bytes(
            old(count).bo,
            spec_tag_type_value(tag_type),
        ) + spec_u32_bytes(old(count).bo, value@.len() as u32) + value@ + Seq::new(
            (4 - value@.len()) as nat,
            |k: int| 0u8,
        ),
        *final(count) == (Count { value: (old(count).value + 1) as usize, ..*old(count) }),
{
    push_u16(buffer, count.bo, tag);
    push_tag_type(buffer, count.bo, tag_type);
    push_u32(buffer, count.bo, value.len() as u32);
    let ghost before_value = buffer@;
    let n = value.len();
    let mut k: usize = 0;
    while k < n
        invariant
            k <= n,
            n == value@.len(),
            buffer@ == before_value + value@.take(k as int),
        decreases n - k,
    {
        buffer.push(value[k]);
        proof {
            assert(buffer@ =~= before_value + value@.take(k + 1));
        }
        k += 1;
    }
    proof {
        assert(value@.take(n as int) =~= value@);
    }
    let ghost before_pad = buffer@;
    let mut p: usize = 0;
    let pad = 4 - n;
    while p < pad
        invariant
            p <= pad,
            buffer@ == before_pad + Seq::new(p as nat, |j: int| 0u8),
        decreases pad - p,
    {
        buffer.push(0);
        proof {
            assert(buffer@ =~= before_pad + Seq::new((p + 1) as nat, |j: int| 0u8));
        }
        p += 1;
    }
    count.add();
    proof {
        assert(buffer@ =~= old(buffer)@ + spec_u16_bytes(old(count).bo, tag) + spec_u16_bytes(
            old(count).bo,
            spec_tag_type_value(tag_type),
        ) + spec_u32_bytes(old(count).bo, value@.len() as u32) + value@ + Seq::new(
            (4 - value@.len()) as nat,
            |j: int| 0u8,
        ));
    }
}


/// The AFInfo value carried by a synthesized test image: the declared
/// byte size (28), then AFAreaMode 0x4D49 — chosen so that byte 2 of the
/// value read back is 'M' when emitted big-endian and 'I' when emitted
/// little-endian — then one AF point, zero valid points, 1x1 image and
/// AF-image dimensions, and zeroed per-point arrays and bitfields.
pub open spec fn spec_afinfo_payload(bo: ByteOrder) -> Seq<u8> {
    spec_u16_bytes(bo, 28) + spec_u16_bytes(bo, 0x4D49) + spec_u16_bytes(bo, 1) + spec_u16_bytes(
        bo,
        0,
    ) + spec_u16_bytes(bo, 1) + spec_u16_bytes(bo, 1) + spec_u16_bytes(bo, 1) + spec_u16_bytes(
        bo,
        1,
    ) + spec_u16_bytes(bo, 0) + spec_u16_bytes(bo, 0) + spec_u16_bytes(bo, 0) + spec_u16_bytes(
        bo,
        0,
    ) + spec_u16_bytes(bo, 0) + spec_u16_bytes(bo, 0)
}

/// One IFD entry: tag, type code, count, then the value offset (or an
/// inline value's byte count and the value itself for inlined entries).
pub open spec fn spec_ifd_entry_bytes(
    bo: ByteOrder,
    tag: u16,
    tag_type: TagType,
    count: u32,
    offset: u32,
) -> Seq<u8> {
    spec_u16_bytes(bo, tag) + spec_u16_bytes(bo, spec_tag_type_value(tag_type)) + spec_u32_bytes(
        bo,
        count,
    ) + spec_u32_bytes(bo, offset)
}

/// The complete synthesized test image, byte for byte. A JPEG (SOI at 0,
/// EOI at 168) holding one APP1 segment (marker at 2, big-endian size 164
/// at 4, "Exif\0\0" at 6); then, offsets relative to the TIFF header at
/// 12: IFD0 at 8 with three entries — Make (0x010F, 6 bytes at 50), Model
/// (0x0110, 10 bytes at 56) and the Exif SubIFD pointer (0x8769, at 72) —
/// and IFD1 at 66 (empty); the Exif SubIFD with an inline Version
/// (0x9000, "0230") and the MakerNote (0x927C, 54 bytes at 102); the
/// Canon MakerNote IFD with its single AFInfo entry (0x0026, fourteen
/// 16-bit values at 120), the AFInfo value itself, and the MakerNote
/// footer (a second TIFF header and the MakerNote's own offset).
pub open spec fn spec_test_image(bo: ByteOrder) -> Seq<u8> {
    seq![0xFFu8, 0xD8u8, 0xFFu8, 0xE1u8] + spec_u16_bytes(ByteOrder::BE, 164) + seq![
        0x45u8,
        0x78u8,
        0x69u8,
        0x66u8,
        0x00u8,
        0x00u8,
    ] + spec_tiff_header(bo) + spec_u32_bytes(bo, 8) + spec_u16_bytes(bo, 3) + spec_ifd_entry_bytes(
        bo,
        0x010F,
        TagType::AsciiString,
        6,
        50,
    ) + spec_ifd_entry_bytes(bo, 0x0110, TagType::AsciiString, 10, 56) + spec_ifd_entry_bytes(
        bo,
        0x8769,
        TagType::UnsignedLong,
        1,
        72,
    ) + spec_u32_bytes(bo, 66) + seq![0x43u8, 0x61u8, 0x6Eu8, 0x6Fu8, 0x6Eu8, 0x00u8] + seq![
        0x43u8,
        0x61u8,
        0x6Eu8,
        0x6Fu8,
        0x6Eu8,
        0x20u8,
        0x45u8,
        0x4Fu8,
        0x53u8,
        0x00u8,
    ] + spec_u16_bytes(bo, 0) + spec_u32_bytes(bo, 0) + spec_u16_bytes(bo, 2)
        + spec_u16_bytes(bo, 0x9000) + spec_u16_bytes(bo, spec_tag_type_value(TagType::Undefined))
        + spec_u32_bytes(bo, 4) + seq![0x30u8, 0x32u8, 0x33u8, 0x30u8]
        + spec_ifd_entry_bytes(bo, 0x927C, TagType::Undefined, 54, 102) + spec_u32_bytes(bo, 0)
        + spec_u16_bytes(bo, 1) + spec_ifd_entry_bytes(bo, 0x0026, TagType::UnsignedShort, 14, 120)
        + spec_u32_bytes(bo, 0) + spec_afinfo_payload(bo) + spec_tiff_header(bo) + spec_u32_bytes(
        bo,
        102,
    ) + seq![0xFFu8, 0xD9u8]
}

/// The image up to its TIFF header: SOI, the APP1 marker, the segment
/// size still zero, the Exif header, and the TIFF header of order `bo`.
spec fn spec_stage_tiff(bo: ByteOrder) -> Seq<u8> {
    seq![0xFFu8, 0xD8u8, 0xFFu8, 0xE1u8] + spec_u16_bytes(ByteOrder::BE, 0) + seq![
        0x45u8,
        0x78u8,
        0x69u8,
        0x66u8,
        0x00u8,
        0x00u8,
    ] + spec_tiff_header(bo)
}

/// The image up to IFD0's entries: the entry count in place, every size
/// and offset still zero.
spec fn spec_stage_ifd0_entries(bo: ByteOrder) -> Seq<u8> {
    spec_stage_tiff(bo) + spec_u32_bytes(bo, 0) + spec_u16_bytes(bo, 3) + spec_ifd_entry_bytes(
        bo,
        0x010F,
        TagType::AsciiString,
        0,
        0,
    ) + spec_ifd_entry_bytes(bo, 0x0110, TagType::AsciiString, 0, 0) + spec_ifd_entry_bytes(
        bo,
        0x8769,
        TagType::UnsignedLong,
        0,
        0,
    ) + spec_u32_bytes(bo, 0)
}

/// The image up to IFD1: IFD0's entries and strings are in place, the
/// IFD1 offset still zero.
spec fn spec_stage_ifd0_body(bo: ByteOrder) -> Seq<u8> {
    spec_stage_tiff(bo) + spec_u32_bytes(bo, 8) + spec_u16_bytes(bo, 3) + spec_ifd_entry_bytes(
        bo,
        0x010F,
        TagType::AsciiString,
        6,
        50,
    ) + spec_ifd_entry_bytes(bo, 0x0110, TagType::AsciiString, 10, 56) + spec_ifd_entry_bytes(
        bo,
        0x8769,
        TagType::UnsignedLong,
        0,
        0,
    ) + spec_u32_bytes(bo, 0) + seq![0x43u8, 0x61u8, 0x6Eu8, 0x6Fu8, 0x6Eu8, 0x00u8] + seq![
        0x43u8,
        0x61u8,
        0x6Eu8,
        0x6Fu8,
        0x6Eu8,
        0x20u8,
        0x45u8,
        0x4Fu8,
        0x53u8,
        0x00u8,
    ]
}

/// The image up to the end of IFD1: IFD0 with Make, Model and the Exif
/// SubIFD pointer (its size and offset still zero), the Make and Model
/// strings, and the empty IFD1.
spec fn spec_stage_ifd0(bo: ByteOrder) -> Seq<u8> {
    spec_stage_tiff(bo) + spec_u32_bytes(bo, 8) + spec_u16_bytes(bo, 3) + spec_ifd_entry_bytes(
        bo,
        0x010F,
        TagType::AsciiString,
        6,
        50,
    ) + spec_ifd_entry_bytes(bo, 0x0110, TagType::AsciiString, 10, 56) + spec_ifd_entry_bytes(
        bo,
        0x8769,
        TagType::UnsignedLong,
        0,
        0,
    ) + spec_u32_bytes(bo, 66) + seq![0x43u8, 0x61u8, 0x6Eu8, 0x6Fu8, 0x6Eu8, 0x00u8] + seq![
        0x43u8,
        0x61u8,
        0x6Eu8,
        0x6Fu8,
        0x6Eu8,
        0x20u8,
        0x45u8,
        0x4Fu8,
        0x53u8,
        0x00u8,
    ] + spec_u16_bytes(bo, 0) + spec_u32_bytes(bo, 0)
}

/// The image up to the MakerNote IFD: the Exif SubIFD pointer filled in,
/// then the SubIFD itself with its inline Version and the MakerNote
/// entry (size and offset still zero).
spec fn spec_stage_exif_sub(bo: ByteOrder) -> Seq<u8> {
    spec_stage_tiff(bo) + spec_u32_bytes(bo, 8) + spec_u16_bytes(bo, 3) + spec_ifd_entry_bytes(
        bo,
        0x010F,
        TagType::AsciiString,
        6,
        50,
    ) + spec_ifd_entry_bytes(bo, 0x0110, TagType::AsciiString, 10, 56) + spec_ifd_entry_bytes(
        bo,
        0x8769,
        TagType::UnsignedLong,
        1,
        72,
    ) + spec_u32_bytes(bo, 66) + seq![0x43u8, 0x61u8, 0x6Eu8, 0x6Fu8, 0x6Eu8, 0x00u8] + seq![
        0x43u8,
        0x61u8,
        0x6Eu8,
        0x6Fu8,
        0x6Eu8,
        0x20u8,
        0x45u8,
        0x4Fu8,
        0x53u8,
        0x00u8,
    ] + spec_u16_bytes(bo, 0) + spec_u32_bytes(bo, 0) + spec_u16_bytes(bo, 2) + spec_u16_bytes(
        bo,
        0x9000,
    ) + spec_u16_bytes(bo, spec_tag_type_value(TagType::Undefined)) + spec_u32_bytes(bo, 4) + seq![
        0x30u8,
        0x32u8,
        0x33u8,
        0x30u8,
    ] + spec_ifd_entry_bytes(bo, 0x927C, TagType::Undefined, 0, 0) + spec_u32_bytes(bo, 0)
}

/// The image up to the AFInfo value: the MakerNote IFD holds its single
/// AFInfo entry, size and offset still zero.
spec fn spec_stage_subifd(bo: ByteOrder) -> Seq<u8> {
    spec_stage_exif_sub(bo) + spec_u16_bytes(bo, 1) + spec_ifd_entry_bytes(
        bo,
        0x0026,
        TagType::UnsignedShort,
        0,
        0,
    ) + spec_u32_bytes(bo, 0)
}

/// The whole image except the MakerNote entry, the APP1 segment size and
/// the final EOI marker: the AFInfo entry is filled in, the value and the
/// MakerNote footer are appended.
spec fn spec_stage_footer(bo: ByteOrder) -> Seq<u8> {
    spec_stage_tiff(bo) + spec_u32_bytes(bo, 8) + spec_u16_bytes(bo, 3) + spec_ifd_entry_bytes(
        bo,
        0x010F,
        TagType::AsciiString,
        6,
        50,
    ) + spec_ifd_entry_bytes(bo, 0x0110, TagType::AsciiString, 10, 56) + spec_ifd_entry_bytes(
        bo,
        0x8769,
        TagType::UnsignedLong,
        1,
        72,
    ) + spec_u32_bytes(bo, 66) + seq![0x43u8, 0x61u8, 0x6Eu8, 0x6Fu8, 0x6Eu8, 0x00u8] + seq![
        0x43u8,
        0x61u8,
        0x6Eu8,
        0x6Fu8,
        0x6Eu8,
        0x20u8,
        0x45u8,
        0x4Fu8,
        0x53u8,
        0x00u8,
    ] + spec_u16_bytes(bo, 0) + spec_u32_bytes(bo, 0) + spec_u16_bytes(bo, 2) + spec_u16_bytes(
        bo,
        0x9000,
    ) + spec_u16_bytes(bo, spec_tag_type_value(TagType::Undefined)) + spec_u32_bytes(bo, 4) + seq![
        0x30u8,
        0x32u8,
        0x33u8,
        0x30u8,
    ] + spec_ifd_entry_bytes(bo, 0x927C, TagType::Undefined, 0, 0) + spec_u32_bytes(bo, 0)
        + spec_u16_bytes(bo, 1) + spec_ifd_entry_bytes(bo, 0x0026, TagType::UnsignedShort, 14, 120)
        + spec_u32_bytes(bo, 0) + spec_afinfo_payload(bo) + spec_tiff_header(bo) + spec_u32_bytes(
        bo,
        102,
    )
}

/// Append the complete AFInfo value for a test image.
#[verifier::rlimit(100)]
fn push_afinfo_value(buffer: &mut Vec<u8>, bo: ByteOrder) -> (r: Data)
    ensures
        final(buffer)@ == old(buffer)@ + spec_afinfo_payload(bo),
        r == (Data { position: old(buffer)@.len() as usize, length: 28 }),
{
    let blen = buffer.len();
    let afinfo_data = begin_data(buffer);
    // AFInfoSize
    let afinfo_data_size = begin_size(buffer, bo, SizeFormat::U8, NumberFormat::U16);
    push_u16(buffer, bo, 0x4D49);  // AFAreaMode
    push_u16(buffer, bo, 1);  // NumAFPoints
    push_u16(buffer, bo, 0);  // ValidAFPoints
    push_u16(buffer, bo, 1);  // CanonImageWidth
    push_u16(buffer, bo, 1);  // CanonImageHeight
    push_u16(buffer, bo, 1);  // AFImageWidth
    push_u16(buffer, bo, 1);  // AFImageHeight
    push_u16(buffer, bo, 0);  // AFAreaWidths
    push_u16(buffer, bo, 0);  // AFAreaHeights
    push_u16(buffer, bo, 0);  // AFAreaXPositions
    push_u16(buffer, bo, 0);  // AFAreaYPositions
    push_u16(buffer, bo, 0);  // AFPointsInFocus
    push_u16(buffer, bo, 0);  // AFPointsSelected
    let afinfo_data = end_data(buffer, afinfo_data);
    let afinfo_data = end_size(buffer, afinfo_data_size, afinfo_data);
    proof {
        assert(buffer@ =~= old(buffer)@ + spec_afinfo_payload(bo));
    }
    afinfo_data
}

/// Append IFD0 (Make, Model, the Exif SubIFD pointer), its Make and
/// Model strings, and the empty IFD1; returns the SubIFD entry's pending
/// size and offset.
#[verifier::rlimit(100)]
fn push_image_ifd0(buffer: &mut Vec<u8>, bo: ByteOrder, tiff_data: &DataBuilder) -> (r: (
    Size,
    Offset,
))
    requires
        tiff_data.position == 12,
        old(buffer)@ == spec_stage_tiff(bo),
    ensures
        final(buffer)@ == spec_stage_ifd0(bo),
        r.0 == (Size { position: 50, bo, input: SizeFormat::One, output: NumberFormat::U32 }),
        r.1 == (Offset { position: 54, bo, format: NumberFormat::U32 }),
{
    let ifd0_offset = begin_offset(buffer, bo, NumberFormat::U32);
    // IFD0 (main image)
    let ifd0_data = begin_data(buffer);
    let mut ifd0_count = begin_ifd_count(buffer, bo);

    // Make
    let (make_size, make_offset) = push_ifd_entry(
        buffer,
        &mut ifd0_count,
        0x010F,
        TagType::AsciiString,
        SizeFormat::U8,
    );

    // Model
    let (model_size, model_offset) = push_ifd_entry(
        buffer,
        &mut ifd0_count,
        0x0110,
        TagType::AsciiString,
        SizeFormat::U8,
    );

    // Exif SubIFD
    let (exif_sub_ifd_size, exif_sub_ifd_offset) = push_ifd_entry(
        buffer,
        &mut ifd0_count,
        0x8769,
        TagType::UnsignedLong,
        SizeFormat::One,
    );

    let ifd1_offset = end_ifd_count(buffer, ifd0_count);
    proof {
        assert(buffer@ =~= spec_stage_ifd0_entries(bo));
    }

    let make: [u8; 5] = [0x43, 0x61, 0x6E, 0x6F, 0x6E];
    let make_data = push_ascii(buffer, make.as_slice(), true);
    end_ifd_entry(buffer, make_size, make_offset, tiff_data, make_data);

    let model: [u8; 9] = [0x43, 0x61, 0x6E, 0x6F, 0x6E, 0x20, 0x45, 0x4F, 0x53];
    let model_data = push_ascii(buffer, model.as_slice(), true);
    end_ifd_entry(buffer, model_size, model_offset, tiff_data, model_data);

    let ifd0_data = end_data(buffer, ifd0_data);
    end_offset(buffer, ifd0_offset, tiff_data, ifd0_data);
    proof {
        assert(buffer@ =~= spec_stage_ifd0_body(bo));
    }

    // IFD1 (thumbnail image)
    let ifd1_data = begin_data(buffer);
    let ifd1_count = begin_ifd_count(buffer, bo);
    end_ifd_count(buffer, ifd1_count);

    let ifd1_data = end_data(buffer, ifd1_data);
    end_offset(buffer, ifd1_offset, tiff_data, ifd1_data);

    proof {
        assert(buffer@ =~= spec_stage_ifd0(bo));
    }
    (exif_sub_ifd_size, exif_sub_ifd_offset)
}

/// Append the Exif SubIFD (Version and the MakerNote entry) and the
/// MakerNote IFD with its single AFInfo entry; returns the MakerNote
/// data region builder and the pending sizes and offsets of the
/// MakerNote and AFInfo entries.
#[verifier::rlimit(100)]
fn push_image_subifds(
    buffer: &mut Vec<u8>,
    bo: ByteOrder,
    tiff_data: &DataBuilder,
    exif_sub_ifd_size: Size,
    exif_sub_ifd_offset: Offset,
) -> (r: (DataBuilder, Size, Offset, Size, Offset))
    requires
        tiff_data.position == 12,
        old(buffer)@ == spec_stage_ifd0(bo),
        exif_sub_ifd_size == (Size {
            position: 50,
            bo,
            input: SizeFormat::One,
            output: NumberFormat::U32,
        }),
        exif_sub_ifd_offset == (Offset { position: 54, bo, format: NumberFormat::U32 }),
    ensures
        final(buffer)@ == spec_stage_subifd(bo),
        r.0 == (DataBuilder { position: 114 }),
        r.1 == (Size { position: 102, bo, input: SizeFormat::U8, output: NumberFormat::U32 }),
        r.2 == (Offset { position: 106, bo, format: NumberFormat::U32 }),
        r.3 == (Size { position: 120, bo, input: SizeFormat::U16, output: NumberFormat::U32 }),
        r.4 == (Offset { position: 124, bo, format: NumberFormat::U32 }),
{
    // Exif SubIFD
    let exif_sub_ifd_data = begin_data(buffer);
    let mut exif_sub_ifd_count = begin_ifd_count(buffer, bo);

    // Exif version
    push_ifd_value(
        buffer,
        &mut exif_sub_ifd_count,
        0x9000,
        TagType::Undefined,
        vec![0x30, 0x32, 0x33, 0x30],
    );

    // MakerNote
    let (makernote_size, makernote_offset) = push_ifd_entry(
        buffer,
        &mut exif_sub_ifd_count,
        0x927C,
        TagType::Undefined,
        SizeFormat::U8,
    );

    end_ifd_count(buffer, exif_sub_ifd_count);
    let exif_sub_ifd_data = end_data(buffer, exif_sub_ifd_data);
    end_ifd_entry(buffer, exif_sub_ifd_size, exif_sub_ifd_offset, tiff_data, exif_sub_ifd_data);
    proof {
        assert(buffer@ =~= spec_stage_exif_sub(bo));
    }

    // MakerNote SubIFD
    let makernote_data = begin_data(buffer);
    let mut makernote_count = begin_ifd_count(buffer, bo);

    // CanonAFInfo2
    let (afinfo_size, afinfo_offset) = push_ifd_entry(
        buffer,
        &mut makernote_count,
        0x0026,
        TagType::UnsignedShort,
        SizeFormat::U16,
    );

    end_ifd_count(buffer, makernote_count);

    proof {
        assert(buffer@ =~= spec_stage_subifd(bo));
    }
    (makernote_data, makernote_size, makernote_offset, afinfo_size, afinfo_offset)
}

/// Append the AFInfo value and the MakerNote footer, and fill in the
/// remaining entry sizes and offsets and the APP1 segment size; the
/// buffer becomes the complete test image.
#[verifier::rlimit(100)]
fn finish_image(
    buffer: &mut Vec<u8>,
    bo: ByteOrder,
    tiff_data: &DataBuilder,
    exif_data: DataBuilder,
    exif_size: Size,
    makernote_data: DataBuilder,
    makernote_size: Size,
    makernote_offset: Offset,
    afinfo_size: Size,
    afinfo_offset: Offset,
)
    requires
        old(buffer)@ == spec_stage_subifd(bo),
        tiff_data.position == 12,
        exif_data == (DataBuilder { position: 4 }),
        exif_size == (Size {
            position: 4,
            bo: ByteOrder::BE,
            input: SizeFormat::U8,
            output: NumberFormat::U16,
        }),
        makernote_data == (DataBuilder { position: 114 }),
        makernote_size == (Size {
            position: 102,
            bo,
            input: SizeFormat::U8,
            output: NumberFormat::U32,
        }),
        makernote_offset == (Offset { position: 106, bo, format: NumberFormat::U32 }),
        afinfo_size == (Size { position: 120, bo, input: SizeFormat::U16, output: NumberFormat::U32 }),
        afinfo_offset == (Offset { position: 124, bo, format: NumberFormat::U32 }),
    ensures
        final(buffer)@ == spec_test_image(bo),
{
    // CanonAFInfo2
    let afinfo_data = push_afinfo_value(buffer, bo);
    end_ifd_entry(buffer, afinfo_size, afinfo_offset, tiff_data, afinfo_data);

    // Footer
    push_tiff_header(buffer, bo);
    let makernote_offset_copy = begin_offset(buffer, bo, NumberFormat::U32);
    let makernote_data = end_data(buffer, makernote_data);
    let makernote_data = end_offset(buffer, makernote_offset_copy, tiff_data, makernote_data);
    proof {
        assert(buffer@ =~= spec_stage_footer(bo));
    }
    end_ifd_entry(buffer, makernote_size, makernote_offset, tiff_data, makernote_data);

    let exif_data = end_data(buffer, exif_data);
    end_size(buffer, exif_size, exif_data);

    // End of image
    buffer.push(0xFF);
    buffer.push(0xD9);

    proof {
        assert(buffer@ =~= spec_test_image(bo));
    }
}

/// A minimal JPEG with an APP1 Exif segment: a TIFF header of the chosen
/// byte order, IFD0 with Make/Model and an Exif SubIFD, the SubIFD with a
/// version and a Canon MakerNote, and the MakerNote's single entry, a
/// Canon AFInfo array whose value spells out the byte order it was
/// serialized in. The result is `spec_test_image(bo)`, byte for byte.
#[verifier::rlimit(100)]
pub fn test_image(bo: ByteOrder) -> (r: Vec<u8>)
    ensures
        r@ == spec_test_image(bo),
        r@.len() >= 4,
        r@.subrange(0, 2) == seq![0xFFu8, 0xD8u8],
        r@.subrange(r@.len() - 2, r@.len() as int) == seq![0xFFu8, 0xD9u8],
        exists|p: int|
            0 <= p && p + 28 <= r@.len() && #[trigger] r@.subrange(p, p + 28)
                == spec_afinfo_payload(bo),
{
    let mut buffer: Vec<u8> = Vec::new();

    // Start of image
    buffer.push(0xFF);
    buffer.push(0xD8);

    // Application marker
    buffer.push(0xFF);
    buffer.push(0xE1);
    let exif_data = begin_data(&buffer);
    // Data size (big endian)
    let exif_size = begin_size(&mut buffer, ByteOrder::BE, SizeFormat::U8, NumberFormat::U16);
    // Exif header
    buffer.push(0x45);
    buffer.push(0x78);
    buffer.push(0x69);
    buffer.push(0x66);
    buffer.push(0x00);
    buffer.push(0x00);
    let tiff_data = begin_data(&buffer);
    push_tiff_header(&mut buffer, bo);
    proof {
        assert(buffer@ =~= spec_stage_tiff(bo));
    }

    let (exif_sub_ifd_size, exif_sub_ifd_offset) = push_image_ifd0(&mut buffer, bo, &tiff_data);
    let (makernote_data, makernote_size, makernote_offset, afinfo_size, afinfo_offset) =
        push_image_subifds(&mut buffer, bo, &tiff_data, exif_sub_ifd_size, exif_sub_ifd_offset);
    finish_image(
        &mut buffer,
        bo,
        &tiff_data,
        exif_data,
        exif_size,
        makernote_data,
        makernote_size,
        makernote_offset,
        afinfo_size,
        afinfo_offset,
    );

    proof {
        assert(buffer@.subrange(0, 2) =~= seq![0xFFu8, 0xD8u8]);
        assert(buffer@.subrange(168, 170) =~= seq![0xFFu8, 0xD9u8]);
        assert(buffer@.subrange(132, 160) =~= spec_afinfo_payload(bo));
    }
    buffer
}

/// Which byte order a raw AFInfo value read back from a test image was
/// serialized in: byte 2 is 'M' for big endian, 'I' for little endian.
pub open spec fn spec_classify_probe(af_info: Seq<u8>) -> Result<ByteOrder, ProbeError> {
    if af_info.len() > 2 && af_info[2] == 73 {
        Ok(ByteOrder::LE)
    } else if af_info.len() > 2 && af_info[2] == 77 {
        Ok(ByteOrder::BE)
    } else {
        Err(ProbeError::InvalidProbeImage)
    }
}

/// Classify the raw AFInfo value read back from a synthesized test image.
pub fn classify_probe(af_info: &[u8]) -> (r: Result<ByteOrder, ProbeError>)
    ensures
        r == spec_classify_probe(af_info@),
{
    if af_info.len() > 2 && af_info[2] == 73 {
        Ok(ByteOrder::LE)
    } else if af_info.len() > 2 && af_info[2] == 77 {
        Ok(ByteOrder::BE)
    } else {
        Err(ProbeError::InvalidProbeImage)
    }
}

/// The byte order the metadata library emits raw tags in, for an image
/// whose declared EXIF byte order is `declared` ("II" or "MM" as read
/// from the MakerNote, `None` when absent), given the cached outcomes of
/// the two probes.
pub open spec fn spec_byte_order_of(
    declared: Option<Seq<u8>>,
    le_probe: Option<ByteOrder>,
    be_probe: Option<ByteOrder>,
) -> Result<ByteOrder, ProbeError> {
    match declared {
        None => Err(ProbeError::MissingByteOrder),
        Some(d) => {
            if d == seq![73u8, 73u8] {
                match le_probe {
                    Some(b) => Ok(b),
                    None => Err(ProbeError::ProbeFailed),
                }
            } else if d == seq![77u8, 77u8] {
                match be_probe {
                    Some(b) => Ok(b),
                    None => Err(ProbeError::ProbeFailed),
                }
            } else {
                Err(ProbeError::InvalidByteOrder)
            }
        },
    }
}

/// The byte order raw tags of an image arrive in: look up the probe
/// result cached for the image's own declared byte order.
pub fn byte_order_of(
    declared: Option<&[u8]>,
    le_probe: Option<ByteOrder>,
    be_probe: Option<ByteOrder>,
) -> (r: Result<ByteOrder, ProbeError>)
    ensures
        r == spec_byte_order_of(
            match declared {
                Some(d) => Some(d@),
                None => None,
            },
            le_probe,
            be_probe,
        ),
{
    let d = match declared {
        Some(d) => d,
        None => {
            return Err(ProbeError::MissingByteOrder);
        },
    };
    let is_le = d.len() == 2 && d[0] == 73 && d[1] == 73;
    let is_be = d.len() == 2 && d[0] == 77 && d[1] == 77;
    proof {
        assert(is_le == (d@ =~= seq![73u8, 73u8]));
        assert(is_be == (d@ =~= seq![77u8, 77u8]));
    }
    if is_le {
        match le_probe {
            Some(b) => Ok(b),
            None => Err(ProbeError::ProbeFailed),
        }
    } else if is_be {
        match be_probe {
            Some(b) => Ok(b),
            None => Err(ProbeError::ProbeFailed),
        }
    } else {
        Err(ProbeError::InvalidByteOrder)
    }
}

} // verus!
