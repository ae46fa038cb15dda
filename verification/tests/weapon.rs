use isodec::errors::{Error, Format};
use isodec::pro::weapon::{instance, Animation, Caliber, DamageType, Mode, Perk};
use isodec::source::Source;

fn push_u32(bytes: &mut Vec<u8>, v: u32) {
    bytes.extend_from_slice(&v.to_be_bytes());
}

fn push_u16(bytes: &mut Vec<u8>, v: u16) {
    bytes.extend_from_slice(&v.to_be_bytes());
}

/// A well-formed weapon body, field by field.
fn weapon_bytes() -> Vec<u8> {
    let mut b = Vec::new();
    push_u32(&mut b, 0); // animation: none
    push_u32(&mut b, 1); // minimum damage
    push_u32(&mut b, 5); // maximum damage
    push_u32(&mut b, 2); // damage type: fire
    push_u32(&mut b, 10); // primary attack range
    push_u32(&mut b, 20); // secondary attack range
    push_u16(&mut b, 0x0500); // projectile header
    push_u16(&mut b, 7); // projectile index
    push_u32(&mut b, 3); // minimum strength
    push_u32(&mut b, 4); // primary attack cost
    push_u32(&mut b, 5); // secondary attack cost
    push_u32(&mut b, 9); // critical failure list
    push_u32(&mut b, 0xFFFF_FFFF); // perk: -1, none
    push_u32(&mut b, 2); // burst count
    push_u32(&mut b, 0); // caliber: none
    push_u32(&mut b, 33); // ammo prototype id
    push_u32(&mut b, 12); // magazine capacity
    b.push(0xAB); // sound ids
    b
}

#[test]
fn zero_attack_byte_leaves_both_modes_absent() {
    let mut source = Source::new(weapon_bytes());
    let w = instance(&mut source, Vec::new(), 0x00).expect("well-formed body must decode");
    assert!(w.attacks.0.mode.is_none());
    assert!(w.attacks.1.mode.is_none());
}

#[test]
fn attack_nibbles_decode_primary_low_secondary_high() {
    let mut source = Source::new(weapon_bytes());
    let w = instance(&mut source, Vec::new(), 0x21).expect("well-formed body must decode");
    assert_eq!(w.attacks.0.mode, Some(Mode::Punch));
    assert_eq!(w.attacks.1.mode, Some(Mode::Kick));
    assert_eq!(w.attacks.0.cost, 4);
    assert_eq!(w.attacks.1.cost, 5);
    assert_eq!(w.attacks.0.range_max, 10);
    assert_eq!(w.attacks.1.range_max, 20);
}

#[test]
fn invalid_attack_nibble_is_a_data_failure() {
    let mut source = Source::new(weapon_bytes());
    assert_eq!(
        instance(&mut source, Vec::new(), 0x09),
        Err(Error::Format(Format::Data))
    );
}

#[test]
fn weapon_fields_decode_exactly() {
    let mut source = Source::new(weapon_bytes());
    let w = instance(&mut source, Vec::new(), 0x00).expect("well-formed body must decode");
    assert_eq!(w.damage.min, 1);
    assert_eq!(w.damage.max, 5);
    assert_eq!(w.damage.kind, DamageType::Fire);
    assert_eq!(w.animation, None);
    assert_eq!(w.requirements.strength, 3);
    assert_eq!(w.rounds.burst, 2);
    assert_eq!(w.rounds.magazine, 12);
    assert_eq!(w.caliber, None);
    assert_eq!(w.perk, None);
    assert_eq!(w.connections.ammo_item_id, 33);
    assert_eq!(w.connections.failure_list_id, 9);
    assert_eq!(w.connections.projectile_misc_id, 7);
    assert_eq!(w.connections.sound_ids, 0xAB);
    assert_eq!(source.pos, 65);
}

#[test]
fn wrong_projectile_header_is_a_consistency_failure() {
    // however the other fields vary, a header other than 0x0500 fails
    for (filler, header) in [(0u8, 0x0501u16), (9, 0x0000), (0xFF, 0x0400)] {
        let mut b = weapon_bytes();
        b[16] = filler; // primary range, freely varied
        b[24] = (header >> 8) as u8;
        b[25] = (header & 0xFF) as u8;
        let mut source = Source::new(b);
        assert_eq!(
            instance(&mut source, Vec::new(), 0x00),
            Err(Error::Format(Format::Consistency))
        );
    }
}

#[test]
fn animation_decodes_and_rejects_as_source_error() {
    let mut b = weapon_bytes();
    b[3] = 5; // animation raw 5
    let w = instance(&mut Source::new(b), Vec::new(), 0).expect("valid animation");
    assert_eq!(w.animation, Some(Animation::Pistol));

    let mut b = weapon_bytes();
    b[3] = 11; // unknown nonzero animation
    assert_eq!(
        instance(&mut Source::new(b), Vec::new(), 0),
        Err(Error::Source)
    );
}

#[test]
fn damage_type_out_of_domain_is_a_data_failure() {
    let mut b = weapon_bytes();
    b[15] = 7;
    assert_eq!(
        instance(&mut Source::new(b), Vec::new(), 0),
        Err(Error::Format(Format::Data))
    );
}

#[test]
fn damage_type_uses_the_low_byte_of_its_word() {
    let mut b = weapon_bytes();
    b[12] = 1; // raw 0x01000002: low byte still 2
    let w = instance(&mut Source::new(b), Vec::new(), 0).expect("low byte in domain");
    assert_eq!(w.damage.kind, DamageType::Fire);
}

#[test]
fn perk_decodes_and_keeps_its_sentinel() {
    let mut b = weapon_bytes();
    b[44..48].copy_from_slice(&3u32.to_be_bytes());
    let w = instance(&mut Source::new(b), Vec::new(), 0).expect("valid perk");
    assert_eq!(w.perk, Some(Perk::LongRange));

    let mut b = weapon_bytes();
    let raw: i32 = -5;
    b[44..48].copy_from_slice(&raw.to_be_bytes());
    assert_eq!(
        instance(&mut Source::new(b), Vec::new(), 0),
        Err(Error::Format(Format::Data))
    );
}

#[test]
fn caliber_zero_is_none_and_unknown_codes_fail() {
    let mut b = weapon_bytes();
    b[55] = 8; // caliber word is bytes 52..56
    let w = instance(&mut Source::new(b), Vec::new(), 0).expect("valid caliber");
    assert_eq!(w.caliber, Some(Caliber::Cal10mm));

    let mut b = weapon_bytes();
    b[55] = 14;
    assert_eq!(
        instance(&mut Source::new(b), Vec::new(), 0),
        Err(Error::Format(Format::Data))
    );
}

#[test]
fn truncated_weapon_body_is_a_read_failure() {
    for len in [0usize, 3, 16, 25, 64] {
        let b = weapon_bytes()[..len].to_vec();
        assert_eq!(
            instance(&mut Source::new(b), Vec::new(), 0),
            Err(Error::Read)
        );
    }
}

#[test]
fn weapon_parsing_is_idempotent() {
    let w1 = instance(&mut Source::new(weapon_bytes()), Vec::new(), 0x21).expect("valid");
    let w2 = instance(&mut Source::new(weapon_bytes()), Vec::new(), 0x21).expect("valid");
    assert_eq!(w1, w2);
}
