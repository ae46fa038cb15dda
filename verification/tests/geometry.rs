use isodec::errors::{Error, Format};
use isodec::geometry::{Coordinate, Elevation, Orientation};

#[test]
fn coordinate_decodes_every_valid_linear_index() {
    for u in [0u32, 1, 199, 200, 399, 20000, 39999] {
        let c = Coordinate::try_from(u).expect("index below 40000 must decode");
        assert_eq!(c.x.value as u32 * 200 + c.y.value as u32, u);
        assert_eq!(c.x.value as u32, u / 200);
        assert_eq!(c.y.value as u32, u % 200);
        assert_eq!((c.x.start, c.x.end), (0, 200));
        assert_eq!((c.y.start, c.y.end), (0, 200));
    }
}

#[test]
fn coordinate_rejects_out_of_range_indices() {
    for u in [40000u32, 40001, 100000, u32::MAX] {
        assert_eq!(Coordinate::try_from(u), Err(Error::Format(Format::Data)));
    }
}

#[test]
fn coordinate_from_signed_rejects_negatives() {
    assert_eq!(Coordinate::try_from_i32(-1), Err(Error::Format(Format::Data)));
    let c = Coordinate::try_from_i32(399).expect("non-negative valid index must decode");
    assert_eq!((c.x.value, c.y.value), (1, 199));
}

#[test]
fn elevation_decodes_exactly_three_levels() {
    for u in [0u32, 1, 2] {
        let e = Elevation::try_from(u).expect("levels 0..3 must decode");
        assert_eq!(e.level.value as u32, u);
        assert_eq!((e.level.start, e.level.end), (0, 3));
    }
    for u in [3u32, 4, 0xFFFF_FFFF] {
        assert_eq!(Elevation::try_from(u), Err(Error::Format(Format::Data)));
    }
}

#[test]
fn orientation_decodes_six_hex_directions() {
    for u in 0u32..6 {
        let o = Orientation::try_from(u).expect("directions 0..6 must decode");
        assert_eq!(o.value.value as u32, u);
    }
    assert_eq!(Orientation::try_from(6), Err(Error::Format(Format::Data)));
}
