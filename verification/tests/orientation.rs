use fiv::orientation::{Orientation, Rotate};

fn o(rotate: Rotate, horizontal_flip: bool) -> Orientation {
    Orientation::new(rotate, horizontal_flip)
}

#[test]
fn exif_codes_map_to_orientations() {
    assert_eq!(Orientation::from_exif(1), Some(o(Rotate::Rotate0, false)));
    assert_eq!(Orientation::from_exif(2), Some(o(Rotate::Rotate0, true)));
    assert_eq!(Orientation::from_exif(3), Some(o(Rotate::Rotate180, false)));
    assert_eq!(Orientation::from_exif(4), Some(o(Rotate::Rotate180, true)));
    assert_eq!(Orientation::from_exif(5), Some(o(Rotate::Rotate270, true)));
    assert_eq!(Orientation::from_exif(6), Some(o(Rotate::Rotate90, false)));
    assert_eq!(Orientation::from_exif(7), Some(o(Rotate::Rotate90, true)));
    assert_eq!(Orientation::from_exif(8), Some(o(Rotate::Rotate270, false)));
}

#[test]
fn exif_codes_outside_range_are_invalid() {
    assert_eq!(Orientation::from_exif(0), None);
    assert_eq!(Orientation::from_exif(9), None);
    assert_eq!(Orientation::from_exif(1000), None);
}

#[test]
fn missing_exif_defaults_to_identity() {
    assert_eq!(Orientation::from_exif_or_default(None), Orientation::identity());
    assert_eq!(Orientation::from_exif_or_default(Some(0)), Orientation::identity());
    assert_eq!(
        Orientation::from_exif_or_default(Some(6)),
        o(Rotate::Rotate90, false)
    );
}

#[test]
fn rotations_add_modulo_a_full_turn() {
    assert_eq!(Rotate::Rotate90.plus(Rotate::Rotate90), Rotate::Rotate180);
    assert_eq!(Rotate::Rotate180.plus(Rotate::Rotate270), Rotate::Rotate90);
    assert_eq!(Rotate::Rotate270.plus(Rotate::Rotate90), Rotate::Rotate0);
    assert_eq!(Rotate::Rotate0.plus(Rotate::Rotate0), Rotate::Rotate0);
}

#[test]
fn composition_is_associative_on_samples() {
    let samples = [
        o(Rotate::Rotate0, false),
        o(Rotate::Rotate90, true),
        o(Rotate::Rotate180, false),
        o(Rotate::Rotate270, true),
    ];
    for a in samples {
        for b in samples {
            for c in samples {
                assert_eq!(a.plus(b).plus(c), a.plus(b.plus(c)));
            }
        }
    }
}

#[test]
fn identity_is_neutral() {
    let a = o(Rotate::Rotate270, true);
    assert_eq!(a.plus(Orientation::identity()), a);
    assert_eq!(Orientation::identity().plus(a), a);
}

#[test]
fn four_quarter_turns_return_to_start() {
    let quarter = o(Rotate::Rotate90, false);
    let a = o(Rotate::Rotate180, true);
    assert_eq!(a.plus(quarter).plus(quarter).plus(quarter).plus(quarter), a);
}

#[test]
fn two_flips_return_to_start() {
    let flip = o(Rotate::Rotate0, true);
    let a = o(Rotate::Rotate90, false);
    assert_eq!(a.plus(flip).plus(flip), a);
}
