use isodec::errors::{Error, Format};
use isodec::identifier::Kind;
use isodec::pro::ladder::{patch, Destination, MapRef};
use isodec::pro::scenery::{instance, Action, Body, Material};
use isodec::source::Source;

fn push_u32(bytes: &mut Vec<u8>, v: u32) {
    bytes.extend_from_slice(&v.to_be_bytes());
}

/// A well-formed generic scenery body.
fn scenery_bytes(script_raw: u32, type_id: u32) -> Vec<u8> {
    let mut b = Vec::new();
    b.push(0x05); // light level
    b.push(0x77); // unused padding byte of the light field
    b.push(0x99); // unused padding byte of the actions field
    b.push(0x03); // action bitmask
    push_u32(&mut b, script_raw);
    push_u32(&mut b, type_id);
    push_u32(&mut b, 1); // material: metal
    b.push(9); // sound ids
    b
}

#[test]
fn generic_scenery_decodes_field_by_field() {
    let mut source = Source::new(scenery_bytes(0xFFFF_FFFF, 5));
    let s = instance(&mut source).expect("well-formed body must decode");
    assert_eq!(s.body, Body::Generic);
    assert_eq!(s.light.value, 5);
    assert_eq!((s.light.start, s.light.end), (0, 9));
    assert_eq!(s.script, None);
    assert_eq!(s.material, Material::Metal);
    assert_eq!(s.actions, vec![Action::Kneel, Action::Use]);
    assert_eq!(s.connections.sound_ids, 9);
    assert_eq!(source.pos, 17);
}

#[test]
fn scenery_script_sentinel_resolves_to_absent() {
    let s = instance(&mut Source::new(scenery_bytes(0xFFFF_FFFF, 5))).expect("valid");
    assert!(s.script.is_none());
}

#[test]
fn scenery_script_value_one_is_item_one() {
    let s = instance(&mut Source::new(scenery_bytes(0x0000_0001, 5))).expect("valid");
    let id = s.script.expect("a non-sentinel script field is present");
    assert_eq!(id.kind, Kind::Item);
    assert_eq!(id.value, 1);
}

#[test]
fn light_is_taken_from_the_first_byte_only() {
    let mut b = scenery_bytes(0xFFFF_FFFF, 5);
    b[1] = 0xFF; // padding may hold anything
    let s = instance(&mut Source::new(b)).expect("padding byte is ignored");
    assert_eq!(s.light.value, 5);

    let mut b = scenery_bytes(0xFFFF_FFFF, 5);
    b[0] = 9; // light level out of range
    assert_eq!(
        instance(&mut Source::new(b)),
        Err(Error::Format(Format::Data))
    );
}

#[test]
fn actions_come_from_the_second_byte_only() {
    let mut b = scenery_bytes(0xFFFF_FFFF, 5);
    b[2] = 0xFF; // padding may hold anything
    b[3] = 0x30;
    let s = instance(&mut Source::new(b)).expect("padding byte is ignored");
    assert_eq!(s.actions, vec![Action::Talk, Action::PickUp]);

    let mut b = scenery_bytes(0xFFFF_FFFF, 5);
    b[3] = 0x40; // unknown action bit
    assert_eq!(
        instance(&mut Source::new(b)),
        Err(Error::Format(Format::Data))
    );
}

#[test]
fn material_out_of_domain_is_a_data_failure() {
    let mut b = scenery_bytes(0xFFFF_FFFF, 5);
    b[12..16].copy_from_slice(&8u32.to_be_bytes());
    assert_eq!(
        instance(&mut Source::new(b)),
        Err(Error::Format(Format::Data))
    );
}

#[test]
fn unknown_scenery_type_id_is_a_data_failure() {
    assert_eq!(
        instance(&mut Source::new(scenery_bytes(0xFFFF_FFFF, 6))),
        Err(Error::Format(Format::Data))
    );
}

#[test]
fn door_body_reads_its_flag_word() {
    let mut b = scenery_bytes(0xFFFF_FFFF, 0);
    push_u32(&mut b, 0x0000_00FF);
    let s = instance(&mut Source::new(b)).expect("door body must decode");
    assert_eq!(s.body, Body::Door { flags: 0xFF });
}

#[test]
fn ladder_bottom_body_resolves_its_destination_sentinel() {
    let mut b = scenery_bytes(0xFFFF_FFFF, 3);
    push_u32(&mut b, 0xFFFF_FFFF);
    let s = instance(&mut Source::new(b)).expect("ladder body must decode");
    assert_eq!(s.body, Body::LadderBottom { destination: None });

    let mut b = scenery_bytes(0xFFFF_FFFF, 4);
    push_u32(&mut b, 1234);
    let s = instance(&mut Source::new(b)).expect("ladder body must decode");
    assert_eq!(
        s.body,
        Body::LadderTop { destination: Some(Destination { value: 1234 }) }
    );
}

#[test]
fn stairs_body_reads_destination_and_map() {
    let mut b = scenery_bytes(0xFFFF_FFFF, 1);
    push_u32(&mut b, 7);
    b.extend_from_slice(&(-2i32).to_be_bytes());
    let s = instance(&mut Source::new(b)).expect("stairs body must decode");
    assert_eq!(
        s.body,
        Body::Stairs { destination: Some(Destination { value: 7 }), map: None }
    );

    let mut b = scenery_bytes(0xFFFF_FFFF, 1);
    push_u32(&mut b, 7);
    b.extend_from_slice(&(-3i32).to_be_bytes());
    assert_eq!(
        instance(&mut Source::new(b)),
        Err(Error::Format(Format::Data))
    );
}

#[test]
fn truncated_scenery_body_is_a_read_failure() {
    for len in [0usize, 1, 3, 8, 16] {
        let b = scenery_bytes(0xFFFF_FFFF, 5)[..len].to_vec();
        assert_eq!(instance(&mut Source::new(b)), Err(Error::Read));
    }
}

#[test]
fn ladder_patch_without_map_reads_four_bytes() {
    let mut b = Vec::new();
    push_u32(&mut b, 5);
    push_u32(&mut b, 9); // not read when the switch is off
    let mut source = Source::new(b);
    let p = patch(&mut source, false).expect("patch must decode");
    assert_eq!(p.destination, Some(Destination { value: 5 }));
    assert_eq!(p.map, None);
    assert_eq!(source.pos, 4);
}

#[test]
fn ladder_patch_with_map_resolves_its_sentinels() {
    let mut b = Vec::new();
    push_u32(&mut b, 0xFFFF_FFFF);
    b.extend_from_slice(&(-2i32).to_be_bytes());
    let p = patch(&mut Source::new(b), true).expect("patch must decode");
    assert_eq!(p.destination, None);
    assert_eq!(p.map, None);

    let mut b = Vec::new();
    push_u32(&mut b, 3);
    push_u32(&mut b, 7);
    let p = patch(&mut Source::new(b), true).expect("patch must decode");
    assert_eq!(p.destination, Some(Destination { value: 3 }));
    assert_eq!(p.map, Some(MapRef { id: 7 }));
}

#[test]
fn ladder_patch_rejects_other_negative_maps() {
    let mut b = Vec::new();
    push_u32(&mut b, 3);
    b.extend_from_slice(&(-1i32).to_be_bytes());
    assert_eq!(
        patch(&mut Source::new(b), true),
        Err(Error::Format(Format::Data))
    );
}

#[test]
fn short_ladder_patch_is_a_read_failure() {
    assert_eq!(patch(&mut Source::new(vec![0, 0]), false), Err(Error::Read));
    assert_eq!(
        patch(&mut Source::new(vec![0, 0, 0, 0, 1]), true),
        Err(Error::Read)
    );
}
