use isodec::errors::{Error, Format};
use isodec::identifier::Kind;
use isodec::map::parse;
use isodec::map::script;
use isodec::map::Flag;
use isodec::source::Source;

fn push_u32(bytes: &mut Vec<u8>, v: u32) {
    bytes.extend_from_slice(&v.to_be_bytes());
}

fn push_u16(bytes: &mut Vec<u8>, v: u16) {
    bytes.extend_from_slice(&v.to_be_bytes());
}

fn push_i32(bytes: &mut Vec<u8>, v: i32) {
    bytes.extend_from_slice(&v.to_be_bytes());
}

/// A well-formed map file: one present elevation, one global and two
/// local variables, two script blueprints and two placed objects.
fn map_bytes() -> Vec<u8> {
    let mut b = Vec::new();
    push_u32(&mut b, 20); // version
    b.extend_from_slice(b"testmap0.map    "); // 16-byte filename
    push_u32(&mut b, 399); // default position
    push_u32(&mut b, 1); // default elevation
    push_u32(&mut b, 2); // default orientation
    push_u32(&mut b, 2); // local variable count
    push_u32(&mut b, 0); // reserved program id
    push_u32(&mut b, 13); // flags: save, only the first elevation present
    push_u32(&mut b, 1); // darkness
    push_u32(&mut b, 1); // global variable count
    push_u32(&mut b, 42); // map id
    push_u32(&mut b, 1000); // ticks
    b.extend_from_slice(&[0u8; 176]); // reserved gap
    push_i32(&mut b, 7); // global variables
    push_i32(&mut b, 1); // local variables
    push_i32(&mut b, -1);
    let mut tiles = vec![0xFFu8; 40000]; // elevation 0 grids, all empty
    tiles[0] = 0x00; // cell 0 roof tile 0x0010
    tiles[1] = 0x10;
    tiles[2] = 0x00; // cell 0 floor tile 0x0020
    tiles[3] = 0x20;
    b.extend_from_slice(&tiles);
    push_u32(&mut b, 2); // script blueprint count
    push_u32(&mut b, 0); // first record: a system script
    push_u16(&mut b, 5);
    push_u32(&mut b, 0xFFFF_FFFF); // no variables
    push_u32(&mut b, 77); // program id
    push_u32(&mut b, 0xFFFF_FFFF); // no bound object
    push_u32(&mut b, 1); // second record: a spatial script
    push_u16(&mut b, 6);
    push_u32(&mut b, 400); // trigger position
    push_u16(&mut b, 3); // trigger distance
    push_u32(&mut b, 2); // trigger elevation
    push_u32(&mut b, 4); // variables offset
    push_u32(&mut b, 2); // variables count
    push_u32(&mut b, 88); // program id
    push_u32(&mut b, 9); // bound object
    push_u32(&mut b, 2); // placed objects on the first elevation
    push_u32(&mut b, 0x0100_0005); // a critter prototype
    push_u32(&mut b, 0x0000_0001); // an item prototype
    b
}

#[test]
fn map_decodes_field_by_field() {
    let mut source = Source::new(map_bytes());
    let m = parse::map(&mut source).expect("well-formed map must decode");
    assert_eq!(m.version, 20);
    assert_eq!(m.filename, "testmap0.map    ");
    assert_eq!(m.id, 42);
    assert_eq!(m.ticks, 1000);
    assert_eq!(m.darkness, 1);
    assert_eq!(m.flags, vec![Flag::Save]);
    assert_eq!((m.defaults.position.x.value, m.defaults.position.y.value), (1, 199));
    assert_eq!(m.defaults.elevation.level.value, 1);
    assert_eq!(m.defaults.orientation.value.value, 2);
    assert_eq!(m.variables.global, vec![7]);
    assert_eq!(m.variables.local, vec![1, -1]);
}

#[test]
fn map_decodes_tile_grids_of_present_elevations_only() {
    let m = parse::map(&mut Source::new(map_bytes())).expect("well-formed map must decode");
    assert_eq!(m.tiles.len(), 3);
    let grids = m.tiles[0].as_ref().expect("the first elevation is present");
    assert_eq!(grids.roof.len(), 10000);
    assert_eq!(grids.floor.len(), 10000);
    assert_eq!(grids.roof[0], Some(0x10));
    assert_eq!(grids.floor[0], Some(0x20));
    assert_eq!(grids.roof[1], None);
    assert_eq!(grids.floor[9999], None);
    assert!(m.tiles[1].is_none());
    assert!(m.tiles[2].is_none());
}

#[test]
fn map_decodes_script_blueprints() {
    let m = parse::map(&mut Source::new(map_bytes())).expect("well-formed map must decode");
    assert_eq!(m.scripts.len(), 2);

    let first = &m.scripts[0];
    assert_eq!(first.id, 5);
    assert_eq!(first.kind, script::Type::System);
    assert_eq!(first.variables, None);
    assert_eq!(first.connections.program_id, 77);
    assert_eq!(first.connections.object_id, None);

    let second = &m.scripts[1];
    assert_eq!(second.id, 6);
    match second.kind {
        script::Type::Spatial(s) => {
            assert_eq!((s.position.x.value, s.position.y.value), (2, 0));
            assert_eq!(s.distance, 3);
            assert_eq!(s.elevation.level.value, 2);
        }
        _ => panic!("the second record is spatial"),
    }
    let vars = second.variables.expect("the second record has variables");
    assert_eq!((vars.offset, vars.count), (4, 2));
    assert_eq!(second.connections.program_id, 88);
    assert_eq!(second.connections.object_id, Some(9));
}

#[test]
fn map_decodes_placed_objects() {
    let m = parse::map(&mut Source::new(map_bytes())).expect("well-formed map must decode");
    assert_eq!(m.prototypes.len(), 2);
    assert_eq!(m.prototypes[0].identifier.kind, Kind::Critter);
    assert_eq!(m.prototypes[0].identifier.value, 5);
    assert_eq!(m.prototypes[1].identifier.kind, Kind::Item);
    assert_eq!(m.prototypes[1].identifier.value, 1);
}

#[test]
fn map_shorter_than_twenty_bytes_is_a_read_failure() {
    let full = map_bytes();
    for n in 0..20 {
        let b = full[..n].to_vec();
        assert_eq!(parse::map(&mut Source::new(b)), Err(Error::Read));
    }
}

#[test]
fn map_truncated_later_is_a_read_failure() {
    let full = map_bytes();
    for n in [30usize, 59, 100, 240, 300] {
        let b = full[..n].to_vec();
        assert_eq!(parse::map(&mut Source::new(b)), Err(Error::Read));
    }
    let b = full[..full.len() - 1].to_vec();
    assert_eq!(parse::map(&mut Source::new(b)), Err(Error::Read));
}

#[test]
fn map_parsing_is_idempotent() {
    let m1 = parse::map(&mut Source::new(map_bytes())).expect("valid map");
    let m2 = parse::map(&mut Source::new(map_bytes())).expect("valid map");
    assert_eq!(m1, m2);
}

#[test]
fn invalid_filename_bytes_are_a_format_failure() {
    let mut b = map_bytes();
    b[5] = 0xFF; // not UTF-8
    assert_eq!(
        parse::map(&mut Source::new(b)),
        Err(Error::Format(Format::Data))
    );
}

#[test]
fn invalid_default_position_is_a_format_failure() {
    let mut b = map_bytes();
    b[20..24].copy_from_slice(&40000u32.to_be_bytes());
    assert_eq!(
        parse::map(&mut Source::new(b)),
        Err(Error::Format(Format::Data))
    );
}

#[test]
fn map_without_any_elevation_reads_no_tiles_or_objects() {
    let mut b = Vec::new();
    push_u32(&mut b, 19);
    b.extend_from_slice(b"another_map.map "); // 16-byte filename
    push_u32(&mut b, 0);
    push_u32(&mut b, 0);
    push_u32(&mut b, 0);
    push_u32(&mut b, 0); // no local variables
    push_u32(&mut b, 0);
    push_u32(&mut b, 14); // not saved, no elevation present
    push_u32(&mut b, 0);
    push_u32(&mut b, 0); // no global variables
    push_u32(&mut b, 1);
    push_u32(&mut b, 0);
    b.extend_from_slice(&[0u8; 176]);
    push_u32(&mut b, 0); // no script blueprints
    let m = parse::map(&mut Source::new(b)).expect("a map without elevations must decode");
    assert_eq!(m.flags, Vec::<Flag>::new());
    assert!(m.tiles.iter().all(|t| t.is_none()));
    assert!(m.scripts.is_empty());
    assert!(m.prototypes.is_empty());
    assert!(m.variables.local.is_empty());
    assert!(m.variables.global.is_empty());
}

#[test]
fn unknown_script_kind_is_a_data_failure() {
    let mut b = map_bytes();
    let script_start = 236 + 12 + 40000 + 4;
    b[script_start..script_start + 4].copy_from_slice(&5u32.to_be_bytes());
    assert_eq!(
        parse::map(&mut Source::new(b)),
        Err(Error::Format(Format::Data))
    );
}

#[test]
fn invalid_placed_object_kind_is_a_data_failure() {
    let mut b = map_bytes();
    let len = b.len();
    b[len - 8..len - 4].copy_from_slice(&0x0600_0000u32.to_be_bytes());
    assert_eq!(
        parse::map(&mut Source::new(b)),
        Err(Error::Format(Format::Data))
    );
}

#[test]
fn duplicate_variables_and_scripts_collapse_to_sets() {
    let mut b = Vec::new();
    push_u32(&mut b, 19);
    b.extend_from_slice(b"setsemantics.map"); // 16-byte filename
    push_u32(&mut b, 0);
    push_u32(&mut b, 0);
    push_u32(&mut b, 0);
    push_u32(&mut b, 3); // three declared local variables
    push_u32(&mut b, 0);
    push_u32(&mut b, 14); // not saved, no elevation present
    push_u32(&mut b, 0);
    push_u32(&mut b, 2); // two declared global variables
    push_u32(&mut b, 1);
    push_u32(&mut b, 0);
    b.extend_from_slice(&[0u8; 176]);
    push_i32(&mut b, 7); // global variables: 7 twice
    push_i32(&mut b, 7);
    push_i32(&mut b, 1); // local variables: 1, -1, 1
    push_i32(&mut b, -1);
    push_i32(&mut b, 1);
    push_u32(&mut b, 2); // two identical script blueprint records
    for _ in 0..2 {
        push_u32(&mut b, 0); // a system script
        push_u16(&mut b, 5);
        push_u32(&mut b, 0xFFFF_FFFF);
        push_u32(&mut b, 77);
        push_u32(&mut b, 0xFFFF_FFFF);
    }
    let m = parse::map(&mut Source::new(b)).expect("well-formed map must decode");
    assert_eq!(m.variables.global, vec![7]);
    assert_eq!(m.variables.local, vec![1, -1]);
    assert_eq!(m.scripts.len(), 1);
    assert_eq!(m.scripts[0].id, 5);
}

#[test]
fn duplicate_placed_objects_collapse_to_a_set() {
    let mut b = map_bytes();
    let len = b.len();
    b[len - 4..].copy_from_slice(&0x0100_0005u32.to_be_bytes()); // same as the first record
    let m = parse::map(&mut Source::new(b)).expect("well-formed map must decode");
    assert_eq!(m.prototypes.len(), 1);
    assert_eq!(m.prototypes[0].identifier.kind, Kind::Critter);
    assert_eq!(m.prototypes[0].identifier.value, 5);
}

#[test]
fn earlier_header_fields_decide_before_later_ones() {
    // a bad filename decides before the missing defaults are noticed
    let mut b = map_bytes()[..20].to_vec();
    b[5] = 0xFF; // not UTF-8
    assert_eq!(
        parse::map(&mut Source::new(b)),
        Err(Error::Format(Format::Data))
    );

    // a bad default position decides before the missing elevation
    let mut b = map_bytes()[..24].to_vec();
    b[20..24].copy_from_slice(&40000u32.to_be_bytes());
    assert_eq!(
        parse::map(&mut Source::new(b)),
        Err(Error::Format(Format::Data))
    );
}
