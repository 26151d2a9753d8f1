use fiv::afinfo::{read_canon_af_points, AfError, CanonAFVec, Frac};
use fiv::numeric::{DimensionsU32, Xu32, Yu32};
use fiv::probe::ByteOrder;

fn dims(w: u32, h: u32) -> DimensionsU32 {
    DimensionsU32::new(Xu32::new(w), Yu32::new(h))
}

fn push16(data: &mut Vec<u8>, bo: ByteOrder, v: u16) {
    let hi = (v >> 8) as u8;
    let lo = (v & 0xFF) as u8;
    match bo {
        ByteOrder::BE => {
            data.push(hi);
            data.push(lo);
        }
        ByteOrder::LE => {
            data.push(lo);
            data.push(hi);
        }
    }
}

/// A two-point AFInfo array: decoded image 4x2, AF image 8x4, point 0 in
/// focus, point 1 selected.
fn sample_af_info(bo: ByteOrder) -> Vec<u8> {
    let mut data = Vec::new();
    let values: [u16; 18] = [
        36,     // AFInfoSize (bytes)
        2,      // AFAreaMode
        2,      // NumAFPoints
        2,      // ValidAFPoints
        4,      // CanonImageWidth
        2,      // CanonImageHeight
        8,      // AFImageWidth
        4,      // AFImageHeight
        10, 20, // AFAreaWidths
        6, 8,   // AFAreaHeights
        100, (-100i16) as u16, // AFAreaXPositions
        50, (-50i16) as u16,   // AFAreaYPositions
        0x0001, // AFPointsInFocus: point 0
        0x0002, // AFPointsSelected: point 1
    ];
    for v in values {
        push16(&mut data, bo, v);
    }
    data
}

fn check_sample(bo: ByteOrder) {
    let points = read_canon_af_points(dims(4, 2), sample_af_info(bo), bo).unwrap();
    assert_eq!(points.len(), 2);

    // Point 0: area 10x6 at (100, 50), in focus.
    let p0 = &points[0];
    assert_eq!(p0.dimensions.width, Frac { num: 10 * 8, den: 4 });
    assert_eq!(p0.dimensions.height, Frac { num: 6 * 4, den: 2 });
    assert_eq!(p0.position.x, Frac { num: (2 * 100 + 8) * 8, den: 2 * 4 });
    assert_eq!(p0.position.y, Frac { num: (4 - 2 * 50) * 4, den: 2 * 2 });
    assert!(p0.active);
    assert!(!p0.selected);

    // Point 1: area 20x8 at (-100, -50), selected.
    let p1 = &points[1];
    assert_eq!(p1.dimensions.width, Frac { num: 20 * 8, den: 4 });
    assert_eq!(p1.dimensions.height, Frac { num: 8 * 4, den: 2 });
    assert_eq!(p1.position.x, Frac { num: (2 * -100 + 8) * 8, den: 2 * 4 });
    assert_eq!(p1.position.y, Frac { num: (4 + 2 * 50) * 4, den: 2 * 2 });
    assert!(!p1.active);
    assert!(p1.selected);
}

#[test]
fn parses_two_points_big_endian() {
    check_sample(ByteOrder::BE);
}

#[test]
fn parses_two_points_little_endian() {
    check_sample(ByteOrder::LE);
}

#[test]
fn declared_size_must_match_data_length() {
    for bo in [ByteOrder::BE, ByteOrder::LE] {
        let mut data = sample_af_info(bo);
        // Corrupt the declared size.
        let wrong = match bo {
            ByteOrder::BE => [0x00, 0x22],
            ByteOrder::LE => [0x22, 0x00],
        };
        data[0] = wrong[0];
        data[1] = wrong[1];
        assert_eq!(
            read_canon_af_points(dims(4, 2), data, bo),
            Err(AfError::BadCount)
        );
    }
}

#[test]
fn truncated_data_is_missing() {
    assert_eq!(
        read_canon_af_points(dims(4, 2), Vec::new(), ByteOrder::BE),
        Err(AfError::Missing)
    );
    // Drop the last bitfield word: the size check is repaired so that
    // the failure comes from the missing per-point value.
    let mut data = sample_af_info(ByteOrder::BE);
    data.truncate(34);
    data[1] = 34;
    assert_eq!(
        read_canon_af_points(dims(4, 2), data, ByteOrder::BE),
        Err(AfError::Missing)
    );
}

#[test]
fn recorded_dimensions_must_match_decoded_dimensions() {
    let data = sample_af_info(ByteOrder::LE);
    assert_eq!(
        read_canon_af_points(dims(5, 2), data, ByteOrder::LE),
        Err(AfError::WrongDimensions)
    );
}

#[test]
fn zero_recorded_dimensions_are_rejected() {
    let mut data = sample_af_info(ByteOrder::BE);
    // CanonImageWidth (index 4) and CanonImageHeight (index 5) zeroed.
    for b in 8..12 {
        data[b] = 0;
    }
    assert_eq!(
        read_canon_af_points(dims(0, 0), data, ByteOrder::BE),
        Err(AfError::ZeroDimensions)
    );
}

#[test]
fn zero_af_dimensions_are_rejected() {
    let mut data = sample_af_info(ByteOrder::BE);
    // AFImageWidth (index 6) and AFImageHeight (index 7) zeroed.
    for b in 12..16 {
        data[b] = 0;
    }
    assert_eq!(
        read_canon_af_points(dims(4, 2), data, ByteOrder::BE),
        Err(AfError::ZeroAfDimensions)
    );
}

#[test]
fn sixteen_bit_reads_follow_the_byte_order() {
    let be = CanonAFVec::new(vec![0x12, 0x34], ByteOrder::BE);
    assert_eq!(be.get_u16(0), Ok(0x1234));
    assert_eq!(be.get(0), Ok((0x12, 0x34)));
    let le = CanonAFVec::new(vec![0x12, 0x34], ByteOrder::LE);
    assert_eq!(le.get_u16(0), Ok(0x3412));
    assert_eq!(le.len(), 2);
    assert_eq!(le.get_u16(1), Err(AfError::Missing));
}

#[test]
fn signed_reads_reinterpret_the_bits() {
    let be = CanonAFVec::new(vec![0xFF, 0x9C], ByteOrder::BE);
    assert_eq!(be.get_i16(0), Ok(-100));
    let le = CanonAFVec::new(vec![0x9C, 0xFF], ByteOrder::LE);
    assert_eq!(le.get_i16(0), Ok(-100));
    assert_eq!(le.get_u32(0), Ok(0xFF9C));
    assert_eq!(le.get_usize(0), Ok(0xFF9C));
}

#[test]
fn dimension_pairs_read_two_values() {
    let le = CanonAFVec::new(vec![0x04, 0x00, 0x02, 0x00], ByteOrder::LE);
    let d = le.get_dimensions_u32(0, 1).unwrap();
    assert_eq!(d.width.value(), 4);
    assert_eq!(d.height.value(), 2);
    assert_eq!(le.get_dimensions_u32(1, 2), Err(AfError::Missing));
}

#[test]
fn bitfield_layout_differs_per_byte_order() {
    // One 16-bit word of value 1: bit 0 lives in the low-order byte,
    // which big-endian data stores second.
    let data = vec![0x00, 0x01];
    let be = CanonAFVec::new(data.clone(), ByteOrder::BE);
    assert_eq!(be.get_bit(0, 0), Ok(true));
    assert_eq!(be.get_bit(0, 8), Ok(false));
    let le = CanonAFVec::new(data, ByteOrder::LE);
    assert_eq!(le.get_bit(0, 0), Ok(false));
    assert_eq!(le.get_bit(0, 8), Ok(true));
    assert_eq!(le.get_bit(0, 16), Err(AfError::Missing));
}
