use vstd::prelude::*;

use crate::errors::{Error, Format};
use crate::source::{be16, be32, be_i32, can_read, Source};

verus! {

/// Caller-decoded weapon flags, carried through unchanged.
#[derive(Clone, Copy, Debug, PartialEq, Eq, Structural)]
pub enum Flag {
    BigGun,
    SecondHand,
    TwoHanded,
}

/// An attack mode, decoded from one nonzero nibble of the attack byte.
#[derive(Clone, Copy, Debug, PartialEq, Eq, Structural)]
pub enum Mode {
    Punch,
    Kick,
    Swing,
    Thrust,
    Throw,
    FireSingle,
    FireBurst,
    Flame,
}

impl Mode {
    /// A nonzero nibble is valid exactly when it is below 9.
    pub open spec fn valid_raw(raw: u8) -> bool {
        1 <= raw <= 8
    }

    /// The mode a valid nibble decodes to.
    pub open spec fn spec_from(raw: u8) -> Mode {
        if raw == 1 {
            Mode::Punch
        } else if raw == 2 {
            Mode::Kick
        } else if raw == 3 {
            Mode::Swing
        } else if raw == 4 {
            Mode::Thrust
        } else if raw == 5 {
            Mode::Throw
        } else if raw == 6 {
            Mode::FireSingle
        } else if raw == 7 {
            Mode::FireBurst
        } else {
            Mode::Flame
        }
    }

    /// Decodes one nonzero attack nibble.
    pub fn try_from(raw: u8) -> (r: Result<Mode, Error>)
        ensures
            Self::valid_raw(raw) ==> r == Ok::<Mode, Error>(Self::spec_from(raw)),
            !Self::valid_raw(raw) ==> r == Err::<Mode, Error>(Error::Format(Format::Data)),
    {
        match raw {
            1 => Ok(Mode::Punch),
            2 => Ok(Mode::Kick),
            3 => Ok(Mode::Swing),
            4 => Ok(Mode::Thrust),
            5 => Ok(Mode::Throw),
            6 => Ok(Mode::FireSingle),
            7 => Ok(Mode::FireBurst),
            8 => Ok(Mode::Flame),
            _ => Err(Error::Format(Format::Data)),
        }
    }

    /// What one attack nibble yields: zero means no mode at all, a valid
    /// nonzero nibble an enumerated mode, anything else a data failure.
    pub open spec fn spec_optional(raw: u8) -> Result<Option<Mode>, Error> {
        if raw == 0 {
            Ok(None)
        } else if Self::valid_raw(raw) {
            Ok(Some(Self::spec_from(raw)))
        } else {
            Err(Error::Format(Format::Data))
        }
    }
}

/// The animation set a weapon uses; zero raw means none.
#[derive(Clone, Copy, Debug, PartialEq, Eq, Structural)]
pub enum Animation {
    Knife,
    Club,
    Hammer,
    Spear,
    Pistol,
    SubmachineGun,
    Rifle,
    BigGun,
    Minigun,
    RocketLauncher,
}

impl Animation {
    /// A nonzero animation code is valid exactly when it is below 11.
    pub open spec fn valid_raw(raw: u32) -> bool {
        1 <= raw <= 10
    }

    /// The animation a valid nonzero code decodes to.
    pub open spec fn spec_from(raw: u32) -> Animation {
        if raw == 1 {
            Animation::Knife
        } else if raw == 2 {
            Animation::Club
        } else if raw == 3 {
            Animation::Hammer
        } else if raw == 4 {
            Animation::Spear
        } else if raw == 5 {
            Animation::Pistol
        } else if raw == 6 {
            Animation::SubmachineGun
        } else if raw == 7 {
            Animation::Rifle
        } else if raw == 8 {
            Animation::BigGun
        } else if raw == 9 {
            Animation::Minigun
        } else {
            Animation::RocketLauncher
        }
    }

    /// Decodes a nonzero animation code. An unknown code is a decoder
    /// bug, not bad input, so it surfaces as `Source`.
    pub fn try_from(raw: u32) -> (r: Result<Animation, Error>)
        ensures
            Self::valid_raw(raw) ==> r == Ok::<Animation, Error>(Self::spec_from(raw)),
            !Self::valid_raw(raw) ==> r == Err::<Animation, Error>(Error::Source),
    {
        match raw {
            1 => Ok(Animation::Knife),
            2 => Ok(Animation::Club),
            3 => Ok(Animation::Hammer),
            4 => Ok(Animation::Spear),
            5 => Ok(Animation::Pistol),
            6 => Ok(Animation::SubmachineGun),
            7 => Ok(Animation::Rifle),
            8 => Ok(Animation::BigGun),
            9 => Ok(Animation::Minigun),
            10 => Ok(Animation::RocketLauncher),
            _ => Err(Error::Source),
        }
    }
}

/// The damage type of a weapon.
#[derive(Clone, Copy, Debug, PartialEq, Eq, Structural)]
pub enum DamageType {
    Normal,
    Laser,
    Fire,
    Plasma,
    Electrical,
    Emp,
    Explosive,
}

impl DamageType {
    /// A damage-type byte is valid exactly when it is below 7.
    pub open spec fn valid_raw(raw: u8) -> bool {
        raw < 7
    }

    /// The damage type a valid byte decodes to.
    pub open spec fn spec_from(raw: u8) -> DamageType {
        if raw == 0 {
            DamageType::Normal
        } else if raw == 1 {
            DamageType::Laser
        } else if raw == 2 {
            DamageType::Fire
        } else if raw == 3 {
            DamageType::Plasma
        } else if raw == 4 {
            DamageType::Electrical
        } else if raw == 5 {
            DamageType::Emp
        } else {
            DamageType::Explosive
        }
    }

    /// Decodes a damage-type byte.
    pub fn try_from(raw: u8) -> (r: Result<DamageType, Error>)
        ensures
            Self::valid_raw(raw) ==> r == Ok::<DamageType, Error>(Self::spec_from(raw)),
            !Self::valid_raw(raw) ==> r == Err::<DamageType, Error>(Error::Format(Format::Data)),
    {
        match raw {
            0 => Ok(DamageType::Normal),
            1 => Ok(DamageType::Laser),
            2 => Ok(DamageType::Fire),
            3 => Ok(DamageType::Plasma),
            4 => Ok(DamageType::Electrical),
            5 => Ok(DamageType::Emp),
            6 => Ok(DamageType::Explosive),
            _ => Err(Error::Format(Format::Data)),
        }
    }
}

/// A weapon perk; raw `-1` means none.
#[derive(Clone, Copy, Debug, PartialEq, Eq, Structural)]
pub enum Perk {
    Accurate,
    Penetrate,
    Knockback,
    LongRange,
    Scoped,
    NightSight,
}

impl Perk {
    /// A non-sentinel perk code is valid exactly when it lies in
    /// `[0, 6)`.
    pub open spec fn valid_raw(raw: i32) -> bool {
        0 <= raw < 6
    }

    /// The perk a valid code decodes to.
    pub open spec fn spec_from(raw: i32) -> Perk {
        if raw == 0 {
            Perk::Accurate
        } else if raw == 1 {
            Perk::Penetrate
        } else if raw == 2 {
            Perk::Knockback
        } else if raw == 3 {
            Perk::LongRange
        } else if raw == 4 {
            Perk::Scoped
        } else {
            Perk::NightSight
        }
    }

    /// Decodes a non-sentinel perk code.
    pub fn try_from(raw: i32) -> (r: Result<Perk, Error>)
        ensures
            Self::valid_raw(raw) ==> r == Ok::<Perk, Error>(Self::spec_from(raw)),
            !Self::valid_raw(raw) ==> r == Err::<Perk, Error>(Error::Format(Format::Data)),
    {
        match raw {
            0 => Ok(Perk::Accurate),
            1 => Ok(Perk::Penetrate),
            2 => Ok(Perk::Knockback),
            3 => Ok(Perk::LongRange),
            4 => Ok(Perk::Scoped),
            5 => Ok(Perk::NightSight),
            _ => Err(Error::Format(Format::Data)),
        }
    }

    /// What the perk field yields: raw `-1` means none, a valid code an
    /// enumerated perk, anything else a data failure.
    pub open spec fn spec_optional(raw: i32) -> Result<Option<Perk>, Error> {
        if raw == -1 {
            Ok(None)
        } else if Self::valid_raw(raw) {
            Ok(Some(Self::spec_from(raw)))
        } else {
            Err(Error::Format(Format::Data))
        }
    }
}

/// An ammunition caliber; the distinguished raw value `0` means none.
#[derive(Clone, Copy, Debug, PartialEq, Eq, Structural)]
pub enum Caliber {
    Rocket,
    FlamethrowerFuel,
    CEnergyCell,
    DEnergyCell,
    Cal223,
    Cal5mm,
    Cal40,
    Cal10mm,
    Cal44,
    Cal14mm,
    Gauge12,
    Cal9mm,
    Bb,
}

impl Caliber {
    /// A nonzero caliber code is valid exactly when it is below 14.
    pub open spec fn valid_raw(raw: u32) -> bool {
        1 <= raw <= 13
    }

    /// The caliber a valid nonzero code decodes to.
    pub open spec fn spec_from(raw: u32) -> Caliber {
        if raw == 1 {
            Caliber::Rocket
        } else if raw == 2 {
            Caliber::FlamethrowerFuel
        } else if raw == 3 {
            Caliber::CEnergyCell
        } else if raw == 4 {
            Caliber::DEnergyCell
        } else if raw == 5 {
            Caliber::Cal223
        } else if raw == 6 {
            Caliber::Cal5mm
        } else if raw == 7 {
            Caliber::Cal40
        } else if raw == 8 {
            Caliber::Cal10mm
        } else if raw == 9 {
            Caliber::Cal44
        } else if raw == 10 {
            Caliber::Cal14mm
        } else if raw == 11 {
            Caliber::Gauge12
        } else if raw == 12 {
            Caliber::Cal9mm
        } else {
            Caliber::Bb
        }
    }

    /// What the caliber field yields: the distinguished raw value `0`
    /// means none (a separate mechanism from sentinel identifiers), a
    /// valid nonzero code an enumerated caliber, anything else a data
    /// failure.
    pub open spec fn spec_optional(raw: u32) -> Result<Option<Caliber>, Error> {
        if raw == 0 {
            Ok(None)
        } else if Self::valid_raw(raw) {
            Ok(Some(Self::spec_from(raw)))
        } else {
            Err(Error::Format(Format::Data))
        }
    }

    /// The dedicated optional conversion for the caliber field.
    pub fn optional(raw: u32) -> (r: Result<Option<Caliber>, Error>)
        ensures
            r == Self::spec_optional(raw),
    {
        match raw {
            0 => Ok(None),
            1 => Ok(Some(Caliber::Rocket)),
            2 => Ok(Some(Caliber::FlamethrowerFuel)),
            3 => Ok(Some(Caliber::CEnergyCell)),
            4 => Ok(Some(Caliber::DEnergyCell)),
            5 => Ok(Some(Caliber::Cal223)),
            6 => Ok(Some(Caliber::Cal5mm)),
            7 => Ok(Some(Caliber::Cal40)),
            8 => Ok(Some(Caliber::Cal10mm)),
            9 => Ok(Some(Caliber::Cal44)),
            10 => Ok(Some(Caliber::Cal14mm)),
            11 => Ok(Some(Caliber::Gauge12)),
            12 => Ok(Some(Caliber::Cal9mm)),
            13 => Ok(Some(Caliber::Bb)),
            _ => Err(Error::Format(Format::Data)),
        }
    }
}

/// The damage a weapon deals: an inclusive `min..=max` range and a type.
#[derive(Clone, Copy, Debug, PartialEq, Eq, Structural)]
pub struct Damage {
    pub min: u32,
    pub max: u32,
    pub kind: DamageType,
}

/// One of the two attack definitions of a weapon: its action-point cost,
/// its optional mode, and the top of its inclusive `0..=max` range.
#[derive(Clone, Copy, Debug, PartialEq, Eq, Structural)]
pub struct Attack {
    pub cost: u32,
    pub mode: Option<Mode>,
    pub range_max: u32,
}

/// What wielding the weapon requires.
#[derive(Clone, Copy, Debug, PartialEq, Eq, Structural)]
pub struct Requirements {
    pub strength: u32,
}

/// Shots per burst and magazine capacity.
#[derive(Clone, Copy, Debug, PartialEq, Eq, Structural)]
pub struct Rounds {
    pub burst: u32,
    pub magazine: u32,
}

/// Cross-references a weapon holds to other resources.
#[derive(Clone, Copy, Debug, PartialEq, Eq, Structural)]
pub struct Connections {
    pub ammo_item_id: u32,
    pub failure_list_id: u32,
    pub projectile_misc_id: u16,
    pub sound_ids: u8,
}

/// A decoded weapon body.
#[derive(Debug, PartialEq)]
pub struct Instance {
    pub flags: Vec<Flag>,
    pub damage: Damage,
    pub attacks: (Attack, Attack),
    pub animation: Option<Animation>,
    pub requirements: Requirements,
    pub rounds: Rounds,
    pub caliber: Option<Caliber>,
    pub perk: Option<Perk>,
    pub connections: Connections,
}

/// The weapon a decoded instance models, for stating the parse contract.
pub struct WeaponModel {
    pub flags: Seq<Flag>,
    pub damage: Damage,
    pub attacks: (Attack, Attack),
    pub animation: Option<Animation>,
    pub requirements: Requirements,
    pub rounds: Rounds,
    pub caliber: Option<Caliber>,
    pub perk: Option<Perk>,
    pub connections: Connections,
}

/// The model of a decoded weapon instance.
pub open spec fn instance_model(i: Instance) -> WeaponModel {
    WeaponModel {
        flags: i.flags@,
        damage: i.damage,
        attacks: i.attacks,
        animation: i.animation,
        requirements: i.requirements,
        rounds: i.rounds,
        caliber: i.caliber,
        perk: i.perk,
        connections: i.connections,
    }
}

/// The fixed 2-byte projectile header every weapon body must carry.
pub const PROJECTILE_HEADER: u16 = 0x0500;

/// What a weapon-body parse of `b` at `pos` yields, together with the
/// position after it: the exact field-by-field cascade of the byte
/// layout, failing on the first bad field exactly as the decoder does.
pub open spec fn spec_instance(b: Seq<u8>, pos: int, flags: Seq<Flag>, attack_modes: u8) -> Result<
    (WeaponModel, int),
    Error,
> {
    let primary_raw = (attack_modes % 16) as u8;
    let secondary_raw = (attack_modes / 16) as u8;
    if Mode::spec_optional(primary_raw) is Err {
        Err(Error::Format(Format::Data))
    } else if Mode::spec_optional(secondary_raw) is Err {
        Err(Error::Format(Format::Data))
    } else if !can_read(b, pos, 4) {
        Err(Error::Read)
    } else {
        let anim_raw = be32(b, pos) as u32;
        if anim_raw != 0 && !Animation::valid_raw(anim_raw) {
            Err(Error::Source)
        } else if !can_read(b, pos + 4, 4) {
            Err(Error::Read)
        } else if !can_read(b, pos + 8, 4) {
            Err(Error::Read)
        } else if !can_read(b, pos + 12, 4) {
            Err(Error::Read)
        } else if !DamageType::valid_raw((be32(b, pos + 12) as u32 % 0x100) as u8) {
            Err(Error::Format(Format::Data))
        } else if !can_read(b, pos + 16, 4) {
            Err(Error::Read)
        } else if !can_read(b, pos + 20, 4) {
            Err(Error::Read)
        } else if !can_read(b, pos + 24, 2) {
            Err(Error::Read)
        } else if be16(b, pos + 24) != 0x0500 {
            Err(Error::Format(Format::Consistency))
        } else if !can_read(b, pos + 26, 2) {
            Err(Error::Read)
        } else if !can_read(b, pos + 28, 4) {
            Err(Error::Read)
        } else if !can_read(b, pos + 32, 4) {
            Err(Error::Read)
        } else if !can_read(b, pos + 36, 4) {
            Err(Error::Read)
        } else if !can_read(b, pos + 40, 4) {
            Err(Error::Read)
        } else if !can_read(b, pos + 44, 4) {
            Err(Error::Read)
        } else if Perk::spec_optional(be_i32(b, pos + 44)) is Err {
            Err(Error::Format(Format::Data))
        } else if !can_read(b, pos + 48, 4) {
            Err(Error::Read)
        } else if !can_read(b, pos + 52, 4) {
            Err(Error::Read)
        } else if !can_read(b, pos + 56, 4) {
            Err(Error::Read)
        } else if !can_read(b, pos + 60, 4) {
            Err(Error::Read)
        } else if !can_read(b, pos + 64, 1) {
            Err(Error::Read)
        } else if Caliber::spec_optional(be32(b, pos + 52) as u32) is Err {
            Err(Error::Format(Format::Data))
        } else {
            Ok(
                (
                    WeaponModel {
                        flags,
                        damage: Damage {
                            min: be32(b, pos + 4) as u32,
                            max: be32(b, pos + 8) as u32,
                            kind: DamageType::spec_from((be32(b, pos + 12) as u32 % 0x100) as u8),
                        },
                        attacks: (
                            Attack {
                                cost: be32(b, pos + 32) as u32,
                                mode: Mode::spec_optional(primary_raw)->Ok_0,
                                range_max: be32(b, pos + 16) as u32,
                            },
                            Attack {
                                cost: be32(b, pos + 36) as u32,
                                mode: Mode::spec_optional(secondary_raw)->Ok_0,
                                range_max: be32(b, pos + 20) as u32,
                            },
                        ),
                        animation: if anim_raw == 0 {
                            None
                        } else {
                            Some(Animation::spec_from(anim_raw))
                        },
                        requirements: Requirements { strength: be32(b, pos + 28) as u32 },
                        rounds: Rounds {
                            burst: be32(b, pos + 48) as u32,
                            magazine: be32(b, pos + 60) as u32,
                        },
                        caliber: Caliber::spec_optional(be32(b, pos + 52) as u32)->Ok_0,
                        perk: Perk::spec_optional(be_i32(b, pos + 44))->Ok_0,
                        connections: Connections {
                            ammo_item_id: be32(b, pos + 56) as u32,
                            failure_list_id: be32(b, pos + 40) as u32,
                            projectile_misc_id: be16(b, pos + 26) as u16,
                            sound_ids: b[pos + 64],
                        },
                    },
                    pos + 65,
                ),
            )
        }
    }
}

/// Decodes a weapon body: two nibble-packed attack modes from the attack
/// byte (primary low, secondary high; zero means absent), then the fixed
/// big-endian field sequence of the layout. The 2-byte projectile header
/// must equal `0x0500` or the record fails with `Format(Consistency)`.
#[verifier::rlimit(80)]
pub fn instance(source: &mut Source, flags: Vec<Flag>, attack_modes: u8) -> (r: Result<
    Instance,
    Error,
>)
    ensures
        final(source).bytes@ == old(source).bytes@,
        match spec_instance(old(source).bytes@, old(source).pos as int, flags@, attack_modes) {
            Ok((w, p)) => {
                &&& r matches Ok(i) && instance_model(i) == w
                &&& final(source).pos == p
            },
            Err(e) => r == Err::<Instance, Error>(e),
        },
{
    let attack_mode_primary_raw: u8 = attack_modes % 16;
    let attack_mode_secondary_raw: u8 = attack_modes / 16;

    let attack_mode_primary = match attack_mode_primary_raw {
        0 => None,
        value => match Mode::try_from(value) {
            Ok(mode) => Some(mode),
            Err(_) => {
                return Err(Error::Format(Format::Data));
            },
        },
    };

    let attack_mode_secondary = match attack_mode_secondary_raw {
        0 => None,
        value => match Mode::try_from(value) {
            Ok(mode) => Some(mode),
            Err(_) => {
                return Err(Error::Format(Format::Data));
            },
        },
    };

    let animation_raw = match source.read_u32() {
        Ok(v) => v,
        Err(e) => {
            return Err(e);
        },
    };

    let animation = match animation_raw {
        0 => None,
        value => match Animation::try_from(value) {
            Ok(a) => Some(a),
            Err(_) => {
                return Err(Error::Source);
            },
        },
    };

    let min_dmg = match source.read_u32() {
        Ok(v) => v,
        Err(e) => {
            return Err(e);
        },
    };

    let max_dmg = match source.read_u32() {
        Ok(v) => v,
        Err(e) => {
            return Err(e);
        },
    };

    let dmg_type_raw = match source.read_u32() {
        Ok(v) => v,
        Err(e) => {
            return Err(e);
        },
    };

    let dmg_type = match DamageType::try_from((dmg_type_raw % 0x100) as u8) {
        Ok(v) => v,
        Err(_) => {
            return Err(Error::Format(Format::Data));
        },
    };

    let damage = Damage { min: min_dmg, max: max_dmg, kind: dmg_type };

    let dmg_range_max1 = match source.read_u32() {
        Ok(v) => v,
        Err(e) => {
            return Err(e);
        },
    };

    let dmg_range_max2 = match source.read_u32() {
        Ok(v) => v,
        Err(e) => {
            return Err(e);
        },
    };

    let projectile_header = match source.read_u16() {
        Ok(v) => v,
        Err(e) => {
            return Err(e);
        },
    };

    if projectile_header != PROJECTILE_HEADER {
        return Err(Error::Format(Format::Consistency));
    }

    let projectile_idx = match source.read_u16() {
        Ok(v) => v,
        Err(e) => {
            return Err(e);
        },
    };

    let min_strength = match source.read_u32() {
        Ok(v) => v,
        Err(e) => {
            return Err(e);
        },
    };

    let cost1 = match source.read_u32() {
        Ok(v) => v,
        Err(e) => {
            return Err(e);
        },
    };

    let cost2 = match source.read_u32() {
        Ok(v) => v,
        Err(e) => {
            return Err(e);
        },
    };

    let attack1 = Attack { cost: cost1, mode: attack_mode_primary, range_max: dmg_range_max1 };
    let attack2 = Attack { cost: cost2, mode: attack_mode_secondary, range_max: dmg_range_max2 };

    let crit_list_idx = match source.read_u32() {
        Ok(v) => v,
        Err(e) => {
            return Err(e);
        },
    };

    let perk_raw = match source.read_i32() {
        Ok(v) => v,
        Err(e) => {
            return Err(e);
        },
    };

    let perk = if perk_raw == -1 {
        None
    } else {
        match Perk::try_from(perk_raw) {
            Ok(p) => Some(p),
            Err(_) => {
                return Err(Error::Format(Format::Data));
            },
        }
    };

    let burst_count = match source.read_u32() {
        Ok(v) => v,
        Err(e) => {
            return Err(e);
        },
    };

    let caliber_raw = match source.read_u32() {
        Ok(v) => v,
        Err(e) => {
            return Err(e);
        },
    };

    let ammo_pid = match source.read_u32() {
        Ok(v) => v,
        Err(e) => {
            return Err(e);
        },
    };

    let capacity = match source.read_u32() {
        Ok(v) => v,
        Err(e) => {
            return Err(e);
        },
    };

    let sound_ids = match source.read_u8() {
        Ok(v) => v,
        Err(e) => {
            return Err(e);
        },
    };

    let caliber = match Caliber::optional(caliber_raw) {
        Ok(v) => v,
        Err(_) => {
            return Err(Error::Format(Format::Data));
        },
    };

    Ok(
        Instance {
            flags,
            damage,
            attacks: (attack1, attack2),
            animation,
            requirements: Requirements { strength: min_strength },
            rounds: Rounds { burst: burst_count, magazine: capacity },
            caliber,
            perk,
            connections: Connections {
                ammo_item_id: ammo_pid,
                failure_list_id: crit_list_idx,
                projectile_misc_id: projectile_idx,
                sound_ids,
            },
        },
    )
}

/// An attack byte of zero leaves both attack modes absent in any weapon
/// the decoder accepts.
pub proof fn lemma_zero_attack_byte(b: Seq<u8>, pos: int, flags: Seq<Flag>)
    ensures
        spec_instance(b, pos, flags, 0) matches Ok((w, end)) ==> {
            &&& w.attacks.0.mode is None
            &&& w.attacks.1.mode is None
        },
{
}

/// A projectile header other than `0x0500` fails the record with
/// `Format(Consistency)`, whatever every other field holds, as soon as
/// the fields before it pass: the attack nibbles and the animation,
/// damage-type and header fields themselves must be readable and valid,
/// since the decoder aborts on the first bad field in order.
pub proof fn lemma_bad_projectile_header(b: Seq<u8>, pos: int, flags: Seq<Flag>, attack_modes: u8)
    requires
        Mode::spec_optional((attack_modes % 16) as u8) is Ok,
        Mode::spec_optional((attack_modes / 16) as u8) is Ok,
        can_read(b, pos, 26),
        be32(b, pos) == 0 || Animation::valid_raw(be32(b, pos) as u32),
        DamageType::valid_raw((be32(b, pos + 12) as u32 % 0x100) as u8),
        be16(b, pos + 24) != 0x0500,
    ensures
        spec_instance(b, pos, flags, attack_modes) == Err::<(WeaponModel, int), Error>(
            Error::Format(Format::Consistency),
        ),
{
}

} // verus!
