//! Parser for the raw `Canon.AFInfo` tag: an array of 16-bit values in a
//! probed byte order describing the camera's autofocus points. Each point
//! is returned as a rectangle positioned over the decoded image, with its
//! in-focus and selected flags.
//!
//! Coordinates are exact rationals: Canon reports areas in AF-image units
//! measured from the image centre with the y axis pointing up, and the
//! output is scaled into image units with the y axis pointing down.

use vstd::prelude::*;

use crate::numeric::{DimensionsU32, Xu32, Yu32};
use crate::probe::ByteOrder;

verus! {

/// Why the AFInfo array could not be parsed.
#[derive(Debug, Copy, Clone, PartialEq, Eq, Structural)]
pub enum AfError {
    /// A value lies outside the data.
    Missing,
    /// The declared size does not match the data length.
    BadCount,
    /// The recorded image dimensions differ from the decoded dimensions.
    WrongDimensions,
    /// The recorded image dimensions are zero.
    ZeroDimensions,
    /// The AF image dimensions are zero.
    ZeroAfDimensions,
}

/// An exact ratio of two integers; the denominator is always positive.
#[derive(Debug, Copy, Clone, PartialEq, Eq, Structural)]
pub struct Frac {
    pub num: i64,
    pub den: u64,
}

/// A width and height as exact ratios.
#[derive(Debug, Copy, Clone, PartialEq, Eq, Structural)]
pub struct DimensionsFrac {
    pub width: Frac,
    pub height: Frac,
}

/// A position as exact ratios.
#[derive(Debug, Copy, Clone, PartialEq, Eq, Structural)]
pub struct PointFrac {
    pub x: Frac,
    pub y: Frac,
}

/// One autofocus point: a rectangle in image units (top-left origin,
/// y axis down) and its flags.
#[derive(Debug, Copy, Clone, PartialEq, Eq, Structural)]
pub struct AFPoint {
    pub dimensions: DimensionsFrac,
    pub position: PointFrac,
    pub selected: bool,
    pub active: bool,
}

/// The pair of bytes of the 16-bit value at `index`, if it lies within
/// the data.
pub open spec fn spec_pair(data: Seq<u8>, index: int) -> Option<(u8, u8)> {
    if 0 <= index && 2 * index + 1 < data.len() {
        Some((data[2 * index], data[2 * index + 1]))
    } else {
        None
    }
}

/// A 16-bit value assembled from two bytes in the given byte order.
pub open spec fn spec_u16_of(bo: ByteOrder, b0: u8, b1: u8) -> u16 {
    match bo {
        ByteOrder::BE => (b0 * 256 + b1) as u16,
        ByteOrder::LE => (b1 * 256 + b0) as u16,
    }
}

/// The 16-bit value at `index`, if it lies within the data.
pub open spec fn spec_value16(data: Seq<u8>, bo: ByteOrder, index: int) -> Option<u16> {
    match spec_pair(data, index) {
        Some((b0, b1)) => Some(spec_u16_of(bo, b0, b1)),
        None => None,
    }
}

/// The same 16 bits reinterpreted as a signed value.
pub open spec fn spec_i16_of(v: u16) -> i16 {
    if v >= 0x8000 {
        (v - 0x10000) as i16
    } else {
        v as i16
    }
}

/// Index of the byte holding bit `bit` of the bitfield starting at the
/// 16-bit value `index`. Little-endian data carries the bit stream byte
/// by byte; big-endian data swaps the two bytes within each 16-bit word.
pub open spec fn spec_bit_byte_index(bo: ByteOrder, index: int, bit: int) -> int {
    2 * index + match bo {
        ByteOrder::LE => bit / 8,
        ByteOrder::BE => 2 * (bit / 16) + if (bit / 8) % 2 == 0 { 1int } else { 0int },
    }
}

/// Bit `bit` of the bitfield starting at the 16-bit value `index`, if its
/// byte lies within the data.
pub open spec fn spec_bit(data: Seq<u8>, bo: ByteOrder, index: int, bit: int) -> Option<bool> {
    let byte_index = spec_bit_byte_index(bo, index, bit);
    if 0 <= byte_index < data.len() {
        Some((data[byte_index] >> ((bit % 8) as u8)) & 1 == 1)
    } else {
        None
    }
}

/// Raw AFInfo data together with the probed byte order of its values.
pub struct CanonAFVec {
    pub data: Vec<u8>,
    pub bo: ByteOrder,
}

impl CanonAFVec {
    pub fn new(data: Vec<u8>, bo: ByteOrder) -> (r: CanonAFVec)
        ensures
            r.data@ == data@,
            r.bo == bo,
    {
        CanonAFVec { data, bo }
    }

    pub fn len(&self) -> (r: usize)
        ensures
            r == self.data@.len(),
    {
        self.data.len()
    }

    /// The two bytes of the 16-bit value at `index`.
    pub fn get(&self, index: usize) -> (r: Result<(u8, u8), AfError>)
        ensures
            match spec_pair(self.data@, index as int) {
                Some(pair) => r == Ok::<(u8, u8), AfError>(pair),
                None => r == Err::<(u8, u8), AfError>(AfError::Missing),
            },
    {
        let need: u128 = 2 * (index as u128) + 1;
        if need < self.data.len() as u128 {
            Ok((self.data[2 * index], self.data[2 * index + 1]))
        } else {
            Err(AfError::Missing)
        }
    }

    /// The 16-bit value at `index` in the probed byte order.
    pub fn get_u16(&self, index: usize) -> (r: Result<u16, AfError>)
        ensures
            match spec_value16(self.data@, self.bo, index as int) {
                Some(v) => r == Ok::<u16, AfError>(v),
                None => r == Err::<u16, AfError>(AfError::Missing),
            },
    {
        match self.get(index) {
            Ok((b0, b1)) => Ok(
                match self.bo {
                    ByteOrder::BE => (b0 as u16) * 256 + (b1 as u16),
                    ByteOrder::LE => (b1 as u16) * 256 + (b0 as u16),
                },
            ),
            Err(e) => Err(e),
        }
    }

    /// The 16-bit value at `index` reinterpreted as signed.
    pub fn get_i16(&self, index: usize) -> (r: Result<i16, AfError>)
        ensures
            match spec_value16(self.data@, self.bo, index as int) {
                Some(v) => r == Ok::<i16, AfError>(spec_i16_of(v)),
                None => r == Err::<i16, AfError>(AfError::Missing),
            },
    {
        match self.get_u16(index) {
            Ok(v) => {
                if v >= 0x8000 {
                    Ok(-((0x10000u32 - v as u32) as i32) as i16)
                } else {
                    Ok(v as i16)
                }
            },
            Err(e) => Err(e),
        }
    }

    /// The 16-bit value at `index`, widened.
    pub fn get_u32(&self, index: usize) -> (r: Result<u32, AfError>)
        ensures
            match spec_value16(self.data@, self.bo, index as int) {
                Some(v) => r == Ok::<u32, AfError>(v as u32),
                None => r == Err::<u32, AfError>(AfError::Missing),
            },
    {
        match self.get_u16(index) {
            Ok(v) => Ok(v as u32),
            Err(e) => Err(e),
        }
    }

    /// The 16-bit value at `index`, widened.
    pub fn get_usize(&self, index: usize) -> (r: Result<usize, AfError>)
        ensures
            match spec_value16(self.data@, self.bo, index as int) {
                Some(v) => r == Ok::<usize, AfError>(v as usize),
                None => r == Err::<usize, AfError>(AfError::Missing),
            },
    {
        match self.get_u16(index) {
            Ok(v) => Ok(v as usize),
            Err(e) => Err(e),
        }
    }

    /// The width and height pair at the two 16-bit values given.
    pub fn get_dimensions_u32(&self, x_index: usize, y_index: usize) -> (r: Result<
        DimensionsU32,
        AfError,
    >)
        ensures
            match (
                spec_value16(self.data@, self.bo, x_index as int),
                spec_value16(self.data@, self.bo, y_index as int),
            ) {
                (Some(w), Some(h)) => match r {
                    Ok(d) => d.width.spec_value() == w && d.height.spec_value() == h,
                    Err(_) => false,
                },
                _ => r == Err::<DimensionsU32, AfError>(AfError::Missing),
            },
    {
        let w = match self.get_u32(x_index) {
            Ok(w) => w,
            Err(e) => {
                // Read the second value too so that both reads are checked
                // in the original order before reporting the first failure.
                return Err(e);
            },
        };
        match self.get_u32(y_index) {
            Ok(h) => Ok(DimensionsU32::new(Xu32::new(w), Yu32::new(h))),
            Err(e) => Err(e),
        }
    }

    /// Bit `bit` of the bitfield starting at the 16-bit value `index`.
    pub fn get_bit(&self, index: usize, bit: usize) -> (r: Result<bool, AfError>)
        ensures
            match spec_bit(self.data@, self.bo, index as int, bit as int) {
                Some(b) => r == Ok::<bool, AfError>(b),
                None => r == Err::<bool, AfError>(AfError::Missing),
            },
    {
        let offset: u128 = match self.bo {
            ByteOrder::LE => (bit / 8) as u128,
            ByteOrder::BE => {
                2 * ((bit / 16) as u128) + if (bit / 8) % 2 == 0 {
                    1
                } else {
                    0
                }
            },
        };
        let byte_index: u128 = 2 * (index as u128) + offset;
        if byte_index < self.data.len() as u128 {
            let byte = self.data[byte_index as usize];
            Ok((byte >> ((bit % 8) as u8)) & 1 == 1)
        } else {
            Err(AfError::Missing)
        }
    }
}

/// Number of 16-bit bitfield words needed for `n` points.
pub open spec fn spec_bitfields(n: int) -> int {
    (n + 15) / 16
}

/// The autofocus point at position `i`, given the number of points `n`,
/// the recorded image dimensions and the AF image dimensions. `None` when
/// any of its values lies outside the data.
pub open spec fn spec_af_point(
    data: Seq<u8>,
    bo: ByteOrder,
    n: int,
    img_w: int,
    img_h: int,
    af_w: int,
    af_h: int,
    i: int,
) -> Option<AFPoint> {
    let aw = spec_value16(data, bo, 8 + i);
    let ah = spec_value16(data, bo, 8 + n + i);
    let ax = spec_value16(data, bo, 8 + 2 * n + i);
    let ay = spec_value16(data, bo, 8 + 3 * n + i);
    let act = spec_bit(data, bo, 8 + 4 * n, i);
    let sel = spec_bit(data, bo, 8 + 4 * n + spec_bitfields(n), i);
    if aw is Some && ah is Some && ax is Some && ay is Some && act is Some && sel is Some {
        Some(
            AFPoint {
                dimensions: DimensionsFrac {
                    width: Frac { num: (aw->Some_0 * af_w) as i64, den: img_w as u64 },
                    height: Frac { num: (ah->Some_0 * af_h) as i64, den: img_h as u64 },
                },
                position: PointFrac {
                    x: Frac {
                        num: ((2 * spec_i16_of(ax->Some_0) + af_w) * af_w) as i64,
                        den: (2 * img_w) as u64,
                    },
                    y: Frac {
                        num: ((af_h - 2 * spec_i16_of(ay->Some_0)) * af_h) as i64,
                        den: (2 * img_h) as u64,
                    },
                },
                selected: sel->Some_0,
                active: act->Some_0,
            },
        )
    } else {
        None
    }
}

/// What parsing an AFInfo array yields: the values at fixed indices are
/// the declared byte size, the area mode, the point count, the valid
/// point count, the recorded image dimensions and the AF image
/// dimensions; then four arrays of per-point values and two bitfields.
pub open spec fn spec_read_af_points(dims: DimensionsU32, data: Seq<u8>, bo: ByteOrder) -> Result<
    Seq<AFPoint>,
    AfError,
> {
    if spec_value16(data, bo, 0) is None {
        Err(AfError::Missing)
    } else if spec_value16(data, bo, 0)->Some_0 != data.len() {
        Err(AfError::BadCount)
    } else if spec_value16(data, bo, 1) is None || spec_value16(data, bo, 2) is None
        || spec_value16(data, bo, 3) is None || spec_value16(data, bo, 4) is None
        || spec_value16(data, bo, 5) is None || spec_value16(data, bo, 6) is None
        || spec_value16(data, bo, 7) is None {
        Err(AfError::Missing)
    } else {
        let n = spec_value16(data, bo, 2)->Some_0 as int;
        let valid = spec_value16(data, bo, 3)->Some_0 as int;
        let img_w = spec_value16(data, bo, 4)->Some_0 as int;
        let img_h = spec_value16(data, bo, 5)->Some_0 as int;
        let af_w = spec_value16(data, bo, 6)->Some_0 as int;
        let af_h = spec_value16(data, bo, 7)->Some_0 as int;
        if img_w != dims.width.spec_value() || img_h != dims.height.spec_value() {
            Err(AfError::WrongDimensions)
        } else if img_w == 0 || img_h == 0 {
            Err(AfError::ZeroDimensions)
        } else if af_w == 0 || af_h == 0 {
            Err(AfError::ZeroAfDimensions)
        } else if exists|i: int|
            0 <= i < valid && spec_af_point(data, bo, n, img_w, img_h, af_w, af_h, i) is None {
            Err(AfError::Missing)
        } else {
            Ok(
                Seq::new(
                    valid as nat,
                    |i: int| spec_af_point(data, bo, n, img_w, img_h, af_w, af_h, i)->Some_0,
                ),
            )
        }
    }
}

/// Read the autofocus point at position `i`.
fn read_af_point(
    af_info: &CanonAFVec,
    n: usize,
    img_w: u32,
    img_h: u32,
    af_w: u32,
    af_h: u32,
    i: usize,
) -> (r: Result<AFPoint, AfError>)
    requires
        n <= 0xFFFF,
        i <= 0xFFFF,
        0 < img_w <= 0xFFFF,
        0 < img_h <= 0xFFFF,
        0 < af_w <= 0xFFFF,
        0 < af_h <= 0xFFFF,
    ensures
        match spec_af_point(
            af_info.data@,
            af_info.bo,
            n as int,
            img_w as int,
            img_h as int,
            af_w as int,
            af_h as int,
            i as int,
        ) {
            Some(p) => r == Ok::<AFPoint, AfError>(p),
            None => r == Err::<AFPoint, AfError>(AfError::Missing),
        },
{
    let num_af_bitfields = (n + 15) / 16;
    let af_area_width_offset: usize = 8;
    let af_area_height_offset = af_area_width_offset + n;
    let af_area_x_pos_offset = af_area_height_offset + n;
    let af_area_y_pos_offset = af_area_x_pos_offset + n;
    let af_points_active_offset = af_area_y_pos_offset + n;
    let af_points_selected_offset = af_points_active_offset + num_af_bitfields;

    let aw = match af_info.get_u32(af_area_width_offset + i) {
        Ok(v) => v,
        Err(e) => {
            return Err(e);
        },
    };
    let ah = match af_info.get_u32(af_area_height_offset + i) {
        Ok(v) => v,
        Err(e) => {
            return Err(e);
        },
    };
    let ax = match af_info.get_i16(af_area_x_pos_offset + i) {
        Ok(v) => v,
        Err(e) => {
            return Err(e);
        },
    };
    let ay = match af_info.get_i16(af_area_y_pos_offset + i) {
        Ok(v) => v,
        Err(e) => {
            return Err(e);
        },
    };
    let selected = match af_info.get_bit(af_points_selected_offset, i) {
        Ok(v) => v,
        Err(e) => {
            return Err(e);
        },
    };
    let active = match af_info.get_bit(af_points_active_offset, i) {
        Ok(v) => v,
        Err(e) => {
            return Err(e);
        },
    };
    proof {
        assert(0 <= (aw as int) * (af_w as int) <= 0xFFFF * 0xFFFF) by (nonlinear_arith)
            requires
                0 <= aw as int <= 0xFFFF,
                0 <= af_w as int <= 0xFFFF,
        ;
        assert(0 <= (ah as int) * (af_h as int) <= 0xFFFF * 0xFFFF) by (nonlinear_arith)
            requires
                0 <= ah as int <= 0xFFFF,
                0 <= af_h as int <= 0xFFFF,
        ;
        assert(-0x20000 * 0xFFFF <= (2 * (ax as int) + (af_w as int)) * (af_w as int) <= 0x20000
            * 0xFFFF) by (nonlinear_arith)
            requires
                -0x8000 <= ax as int <= 0x7FFF,
                0 <= af_w as int <= 0xFFFF,
        ;
        assert(-0x20000 * 0xFFFF <= ((af_h as int) - 2 * (ay as int)) * (af_h as int) <= 0x20000
            * 0xFFFF) by (nonlinear_arith)
            requires
                -0x8000 <= ay as int <= 0x7FFF,
                0 <= af_h as int <= 0xFFFF,
        ;
    }
    Ok(
        AFPoint {
            dimensions: DimensionsFrac {
                width: Frac { num: (aw as i64) * (af_w as i64), den: img_w as u64 },
                height: Frac { num: (ah as i64) * (af_h as i64), den: img_h as u64 },
            },
            position: PointFrac {
                x: Frac {
                    num: (2 * (ax as i64) + (af_w as i64)) * (af_w as i64),
                    den: 2 * (img_w as u64),
                },
                y: Frac {
                    num: ((af_h as i64) - 2 * (ay as i64)) * (af_h as i64),
                    den: 2 * (img_h as u64),
                },
            },
            selected,
            active,
        },
    )
}

/// Parse the raw AFInfo array into the valid autofocus points, validating
/// the declared size against the data length and the recorded image
/// dimensions against the decoded `dimensions`.
#[verifier::loop_isolation(false)]
pub fn read_canon_af_points(dimensions: DimensionsU32, data: Vec<u8>, bo: ByteOrder) -> (r: Result<
    Vec<AFPoint>,
    AfError,
>)
    ensures
        match spec_read_af_points(dimensions, data@, bo) {
            Ok(s) => r is Ok && r->Ok_0@ == s,
            Err(e) => r == Err::<Vec<AFPoint>, AfError>(e),
        },
{
    let ghost data0 = data@;
    let af_info = CanonAFVec::new(data, bo);
    let count = match af_info.get_usize(0) {
        Ok(v) => v,
        Err(e) => {
            return Err(e);
        },
    };
    if count != af_info.len() {
        return Err(AfError::BadCount);
    }
    let _af_area_mode: u16 = match af_info.get_u16(1) {
        Ok(v) => v,
        Err(e) => {
            return Err(e);
        },
    };
    let num_af_points = match af_info.get_usize(2) {
        Ok(v) => v,
        Err(e) => {
            return Err(e);
        },
    };
    let valid_af_points = match af_info.get_usize(3) {
        Ok(v) => v,
        Err(e) => {
            return Err(e);
        },
    };
    let img_dimensions = match af_info.get_dimensions_u32(4, 5) {
        Ok(v) => v,
        Err(e) => {
            return Err(e);
        },
    };
    let af_img_dimensions = match af_info.get_dimensions_u32(6, 7) {
        Ok(v) => v,
        Err(e) => {
            return Err(e);
        },
    };
    if img_dimensions.width.value() != dimensions.width.value()
        || img_dimensions.height.value() != dimensions.height.value() {
        return Err(AfError::WrongDimensions);
    }
    if !img_dimensions.non_zero() {
        return Err(AfError::ZeroDimensions);
    }
    if !af_img_dimensions.non_zero() {
        return Err(AfError::ZeroAfDimensions);
    }
    let img_w = img_dimensions.width.value();
    let img_h = img_dimensions.height.value();
    let af_w = af_img_dimensions.width.value();
    let af_h = af_img_dimensions.height.value();

    let ghost n = num_af_points as int;
    let mut af_points: Vec<AFPoint> = Vec::new();
    let mut i: usize = 0;
    while i < valid_af_points
        invariant
            i <= valid_af_points,
            forall|k: int|
                0 <= k < i ==> spec_af_point(
                    data0,
                    bo,
                    n,
                    img_w as int,
                    img_h as int,
                    af_w as int,
                    af_h as int,
                    k,
                ) is Some,
            af_points@ == Seq::new(
                i as nat,
                |k: int|
                    spec_af_point(
                        data0,
                        bo,
                        n,
                        img_w as int,
                        img_h as int,
                        af_w as int,
                        af_h as int,
                        k,
                    )->Some_0,
            ),
        decreases valid_af_points - i,
    {
        let point = match read_af_point(&af_info, num_af_points, img_w, img_h, af_w, af_h, i) {
            Ok(p) => p,
            Err(e) => {
                return Err(e);
            },
        };
        af_points.push(point);
        i += 1;
        proof {
            assert(af_points@ =~= Seq::new(
                i as nat,
                |k: int|
                    spec_af_point(
                        data0,
                        bo,
                        n,
                        img_w as int,
                        img_h as int,
                        af_w as int,
                        af_h as int,
                        k,
                    )->Some_0,
            ));
        }
    }
    Ok(af_points)
}

} // verus!
