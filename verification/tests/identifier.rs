use isodec::errors::{Error, Format};
use isodec::identifier::{Identifier, Kind};

#[test]
fn identifier_splits_kind_and_value() {
    let id = Identifier::try_from(0x0200_0010).expect("a known kind byte must decode");
    assert_eq!(id.kind, Kind::Scenery);
    assert_eq!(id.value, 0x10);
}

#[test]
fn identifier_knows_all_six_kinds() {
    let kinds = [
        Kind::Item,
        Kind::Critter,
        Kind::Scenery,
        Kind::Wall,
        Kind::Tile,
        Kind::Misc,
    ];
    for (top, kind) in kinds.iter().enumerate() {
        let raw = (top as u32) << 24 | 7;
        let id = Identifier::try_from(raw).expect("kind bytes 0..6 must decode");
        assert_eq!(id.kind, *kind);
        assert_eq!(id.value, 7);
    }
    assert_eq!(
        Identifier::try_from(0x0600_0000),
        Err(Error::Format(Format::Data))
    );
}

#[test]
fn sentinel_identifier_is_absent() {
    assert_eq!(Identifier::try_from_optional(0xFFFF_FFFF, 0xFFFF_FFFF), Ok(None));
}

#[test]
fn non_sentinel_identifier_is_present() {
    let id = Identifier::try_from_optional(0x0000_0001, 0xFFFF_FFFF)
        .expect("a valid raw value must decode")
        .expect("a non-sentinel value must be present");
    assert_eq!(id.kind, Kind::Item);
    assert_eq!(id.value, 1);
}

#[test]
fn sentinel_is_a_per_field_parameter() {
    assert_eq!(Identifier::try_from_optional(5, 5), Ok(None));
    let id = Identifier::try_from_optional(5, 6)
        .expect("valid raw")
        .expect("present");
    assert_eq!(id.value, 5);
}

#[test]
fn optional_conversion_propagates_failure() {
    assert_eq!(
        Identifier::try_from_optional(0x0700_0000, 0xFFFF_FFFF),
        Err(Error::Format(Format::Data))
    );
}
