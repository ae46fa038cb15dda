use vstd::prelude::*;

use crate::errors::{Error, Format};
use crate::geometry::Scaled;
use crate::identifier::Identifier;
use crate::pro::ladder::{Destination, MapRef, LADDER_MAP_SENTINEL};
use crate::source::{be32, be_i32, can_read, Source};

verus! {

/// The absence sentinel of the scenery script field.
pub const SCRIPT_SENTINEL: u32 = 0xFFFF_FFFF;

/// What a piece of scenery is made of, from a 4-byte enumerated value.
#[derive(Clone, Copy, Debug, PartialEq, Eq, Structural)]
pub enum Material {
    Glass,
    Metal,
    Plastic,
    Wood,
    Dirt,
    Stone,
    Cement,
    Leather,
}

impl Material {
    /// A raw material is valid exactly when it is below 8.
    pub open spec fn valid_raw(raw: u32) -> bool {
        raw < 8
    }

    /// The material a valid raw value decodes to.
    pub open spec fn spec_from(raw: u32) -> Material {
        if raw == 0 {
            Material::Glass
        } else if raw == 1 {
            Material::Metal
        } else if raw == 2 {
            Material::Plastic
        } else if raw == 3 {
            Material::Wood
        } else if raw == 4 {
            Material::Dirt
        } else if raw == 5 {
            Material::Stone
        } else if raw == 6 {
            Material::Cement
        } else {
            Material::Leather
        }
    }

    /// Decodes a material value.
    pub fn try_from(raw: u32) -> (r: Result<Material, Error>)
        ensures
            Self::valid_raw(raw) ==> r == Ok::<Material, Error>(Self::spec_from(raw)),
            !Self::valid_raw(raw) ==> r == Err::<Material, Error>(Error::Format(Format::Data)),
    {
        match raw {
            0 => Ok(Material::Glass),
            1 => Ok(Material::Metal),
            2 => Ok(Material::Plastic),
            3 => Ok(Material::Wood),
            4 => Ok(Material::Dirt),
            5 => Ok(Material::Stone),
            6 => Ok(Material::Cement),
            7 => Ok(Material::Leather),
            _ => Err(Error::Format(Format::Data)),
        }
    }
}

/// One action a piece of scenery supports, from the action bitmask byte.
#[derive(Clone, Copy, Debug, PartialEq, Eq, Structural)]
pub enum Action {
    Kneel,
    Use,
    UseOn,
    Look,
    Talk,
    PickUp,
}

/// The highest byte value whose bits all name known actions.
pub const ACTIONS_MASK_LIMIT: u8 = 0x40;

/// What the action bitmask byte decodes to, in fixed bit order; a byte
/// with an unknown bit set is a data failure.
pub open spec fn spec_actions(raw: u8) -> Result<Seq<Action>, Error> {
    if raw >= ACTIONS_MASK_LIMIT {
        Err(Error::Format(Format::Data))
    } else {
        Ok(
            (if raw % 2 == 1 {
                seq![Action::Kneel]
            } else {
                Seq::empty()
            }) + (if (raw / 2) % 2 == 1 {
                seq![Action::Use]
            } else {
                Seq::empty()
            }) + (if (raw / 4) % 2 == 1 {
                seq![Action::UseOn]
            } else {
                Seq::empty()
            }) + (if (raw / 8) % 2 == 1 {
                seq![Action::Look]
            } else {
                Seq::empty()
            }) + (if (raw / 16) % 2 == 1 {
                seq![Action::Talk]
            } else {
                Seq::empty()
            }) + (if (raw / 32) % 2 == 1 {
                seq![Action::PickUp]
            } else {
                Seq::empty()
            }),
        )
    }
}

/// Extracts the supported actions from the bitmask byte.
pub fn extract_actions(raw: u8) -> (r: Result<Vec<Action>, Error>)
    ensures
        match (r, spec_actions(raw)) {
            (Ok(v), Ok(s)) => v@ == s,
            (Err(e1), Err(e2)) => e1 == e2,
            _ => false,
        },
{
    if raw >= ACTIONS_MASK_LIMIT {
        return Err(Error::Format(Format::Data));
    }
    let mut actions: Vec<Action> = Vec::new();
    if raw % 2 == 1 {
        actions.push(Action::Kneel);
    }
    if (raw / 2) % 2 == 1 {
        actions.push(Action::Use);
    }
    if (raw / 4) % 2 == 1 {
        actions.push(Action::UseOn);
    }
    if (raw / 8) % 2 == 1 {
        actions.push(Action::Look);
    }
    if (raw / 16) % 2 == 1 {
        actions.push(Action::Talk);
    }
    if (raw / 32) % 2 == 1 {
        actions.push(Action::PickUp);
    }
    assert(actions@ =~= spec_actions(raw)->Ok_0);
    Ok(actions)
}

/// The highest valid light level.
pub const LIGHT_LIMIT: u8 = 8;

/// What the light byte decodes to: a level scaled to `[0, 9)`, or a data
/// failure above it.
pub open spec fn spec_light(raw: u8) -> Result<Scaled, Error> {
    if raw <= LIGHT_LIMIT {
        Ok(Scaled { value: raw, start: 0, end: 9 })
    } else {
        Err(Error::Format(Format::Data))
    }
}

/// Extracts the light level from its byte.
pub fn extract_light(raw: u8) -> (r: Result<Scaled, Error>)
    ensures
        r == spec_light(raw),
{
    if raw <= LIGHT_LIMIT {
        Ok(Scaled { value: raw, start: 0, end: 9 })
    } else {
        Err(Error::Format(Format::Data))
    }
}

/// The subtype body of a piece of scenery, dispatched by its embedded
/// type id.
#[derive(Clone, Copy, Debug, PartialEq, Eq, Structural)]
pub enum Body {
    /// Type id 0: a door and its raw flag word.
    Door { flags: u32 },
    /// Type id 1: stairs, with an optional destination cell and an
    /// optional map reference.
    Stairs { destination: Option<Destination>, map: Option<MapRef> },
    /// Type id 2: an elevator, with its raw kind and level words.
    Elevator { kind: u32, level: u32 },
    /// Type id 3: the bottom end of a ladder and its optional
    /// destination cell.
    LadderBottom { destination: Option<Destination> },
    /// Type id 4: the top end of a ladder and its optional destination
    /// cell.
    LadderTop { destination: Option<Destination> },
    /// Type id 5: generic scenery without a body of its own.
    Generic,
}

/// What a subtype-body parse of `b` at `pos` yields for `type_id`,
/// together with the position after it.
pub open spec fn spec_body(b: Seq<u8>, pos: int, type_id: u32) -> Result<(Body, int), Error> {
    if type_id == 0 {
        if !can_read(b, pos, 4) {
            Err(Error::Read)
        } else {
            Ok((Body::Door { flags: be32(b, pos) as u32 }, pos + 4))
        }
    } else if type_id == 1 {
        if !can_read(b, pos, 4) {
            Err(Error::Read)
        } else if !can_read(b, pos + 4, 4) {
            Err(Error::Read)
        } else {
            match MapRef::spec_from_optional(be_i32(b, pos + 4), LADDER_MAP_SENTINEL) {
                Err(e) => Err(e),
                Ok(map) => Ok(
                    (
                        Body::Stairs {
                            destination: Destination::spec_from_optional(be32(b, pos) as u32),
                            map,
                        },
                        pos + 8,
                    ),
                ),
            }
        }
    } else if type_id == 2 {
        if !can_read(b, pos, 4) {
            Err(Error::Read)
        } else if !can_read(b, pos + 4, 4) {
            Err(Error::Read)
        } else {
            Ok(
                (
                    Body::Elevator { kind: be32(b, pos) as u32, level: be32(b, pos + 4) as u32 },
                    pos + 8,
                ),
            )
        }
    } else if type_id == 3 {
        if !can_read(b, pos, 4) {
            Err(Error::Read)
        } else {
            Ok(
                (
                    Body::LadderBottom {
                        destination: Destination::spec_from_optional(be32(b, pos) as u32),
                    },
                    pos + 4,
                ),
            )
        }
    } else if type_id == 4 {
        if !can_read(b, pos, 4) {
            Err(Error::Read)
        } else {
            Ok(
                (
                    Body::LadderTop {
                        destination: Destination::spec_from_optional(be32(b, pos) as u32),
                    },
                    pos + 4,
                ),
            )
        }
    } else if type_id == 5 {
        Ok((Body::Generic, pos))
    } else {
        Err(Error::Format(Format::Data))
    }
}

/// Decodes the subtype body named by `type_id`.
pub fn body(source: &mut Source, type_id: u32) -> (r: Result<Body, Error>)
    ensures
        final(source).bytes@ == old(source).bytes@,
        match spec_body(old(source).bytes@, old(source).pos as int, type_id) {
            Ok((v, end)) => r == Ok::<Body, Error>(v) && final(source).pos == end,
            Err(e) => r == Err::<Body, Error>(e),
        },
{
    match type_id {
        0 => {
            let flags = match source.read_u32() {
                Ok(v) => v,
                Err(e) => {
                    return Err(e);
                },
            };
            Ok(Body::Door { flags })
        },
        1 => {
            let destination_raw = match source.read_u32() {
                Ok(v) => v,
                Err(e) => {
                    return Err(e);
                },
            };
            let map_raw = match source.read_i32() {
                Ok(v) => v,
                Err(e) => {
                    return Err(e);
                },
            };
            let map = match MapRef::try_from_optional(map_raw, LADDER_MAP_SENTINEL) {
                Ok(v) => v,
                Err(e) => {
                    return Err(e);
                },
            };
            Ok(Body::Stairs { destination: Destination::try_from_optional(destination_raw), map })
        },
        2 => {
            let kind = match source.read_u32() {
                Ok(v) => v,
                Err(e) => {
                    return Err(e);
                },
            };
            let level = match source.read_u32() {
                Ok(v) => v,
                Err(e) => {
                    return Err(e);
                },
            };
            Ok(Body::Elevator { kind, level })
        },
        3 => {
            let destination_raw = match source.read_u32() {
                Ok(v) => v,
                Err(e) => {
                    return Err(e);
                },
            };
            Ok(Body::LadderBottom { destination: Destination::try_from_optional(destination_raw) })
        },
        4 => {
            let destination_raw = match source.read_u32() {
                Ok(v) => v,
                Err(e) => {
                    return Err(e);
                },
            };
            Ok(Body::LadderTop { destination: Destination::try_from_optional(destination_raw) })
        },
        5 => Ok(Body::Generic),
        _ => Err(Error::Format(Format::Data)),
    }
}

/// Cross-references a piece of scenery holds to other resources.
#[derive(Clone, Copy, Debug, PartialEq, Eq, Structural)]
pub struct Connections {
    pub sound_ids: u8,
}

/// A decoded scenery body.
#[derive(Debug, PartialEq)]
pub struct Instance {
    pub body: Body,
    pub light: Scaled,
    pub script: Option<Identifier>,
    pub material: Material,
    pub actions: Vec<Action>,
    pub connections: Connections,
}

/// The scenery a decoded instance models, for stating the parse
/// contract.
pub struct SceneryModel {
    pub body: Body,
    pub light: Scaled,
    pub script: Option<Identifier>,
    pub material: Material,
    pub actions: Seq<Action>,
    pub connections: Connections,
}

/// The model of a decoded scenery instance.
pub open spec fn instance_model(i: Instance) -> SceneryModel {
    SceneryModel {
        body: i.body,
        light: i.light,
        script: i.script,
        material: i.material,
        actions: i.actions@,
        connections: i.connections,
    }
}

/// What a scenery-body parse of `b` at `pos` yields, together with the
/// position after it: the exact field-by-field cascade of the byte
/// layout, failing on the first bad field exactly as the decoder does.
pub open spec fn spec_instance(b: Seq<u8>, pos: int) -> Result<(SceneryModel, int), Error> {
    if !can_read(b, pos, 2) {
        Err(Error::Read)
    } else if spec_light(b[pos]) is Err {
        Err(Error::Format(Format::Data))
    } else if !can_read(b, pos + 2, 2) {
        Err(Error::Read)
    } else if spec_actions(b[pos + 3]) is Err {
        Err(Error::Format(Format::Data))
    } else if !can_read(b, pos + 4, 4) {
        Err(Error::Read)
    } else {
        match Identifier::spec_from_optional(be32(b, pos + 4) as u32, SCRIPT_SENTINEL) {
            Err(e) => Err(e),
            Ok(script) => {
                if !can_read(b, pos + 8, 4) {
                    Err(Error::Read)
                } else if !can_read(b, pos + 12, 4) {
                    Err(Error::Read)
                } else if !Material::valid_raw(be32(b, pos + 12) as u32) {
                    Err(Error::Format(Format::Data))
                } else if !can_read(b, pos + 16, 1) {
                    Err(Error::Read)
                } else {
                    match spec_body(b, pos + 17, be32(b, pos + 8) as u32) {
                        Err(e) => Err(e),
                        Ok((body, end)) => Ok(
                            (
                                SceneryModel {
                                    body,
                                    light: spec_light(b[pos])->Ok_0,
                                    script,
                                    material: Material::spec_from(be32(b, pos + 12) as u32),
                                    actions: spec_actions(b[pos + 3])->Ok_0,
                                    connections: Connections { sound_ids: b[pos + 16] },
                                },
                                end,
                            ),
                        ),
                    }
                }
            },
        }
    }
}

/// Decodes a scenery body: the light level from the first byte of its
/// 2-byte field and the action bitmask from the second byte of its own
/// 2-byte field (the other byte of each is unused padding, preserved
/// exactly), an optional script identifier (sentinel `0xFFFFFFFF`), the
/// subtype id, a 4-byte material, a sound byte, then the subtype body.
pub fn instance(source: &mut Source) -> (r: Result<Instance, Error>)
    ensures
        final(source).bytes@ == old(source).bytes@,
        match spec_instance(old(source).bytes@, old(source).pos as int) {
            Ok((m, end)) => {
                &&& r matches Ok(i) && instance_model(i) == m
                &&& final(source).pos == end
            },
            Err(e) => r == Err::<Instance, Error>(e),
        },
{
    let light_bytes = match source.read_bytes(2) {
        Ok(v) => v,
        Err(e) => {
            return Err(e);
        },
    };

    let light = match extract_light(light_bytes[0]) {
        Ok(v) => v,
        Err(_) => {
            return Err(Error::Format(Format::Data));
        },
    };

    let actions_bytes = match source.read_bytes(2) {
        Ok(v) => v,
        Err(e) => {
            return Err(e);
        },
    };

    let actions = match extract_actions(actions_bytes[1]) {
        Ok(v) => v,
        Err(_) => {
            return Err(Error::Format(Format::Data));
        },
    };

    let script_raw = match source.read_u32() {
        Ok(v) => v,
        Err(e) => {
            return Err(e);
        },
    };

    let script = match Identifier::try_from_optional(script_raw, SCRIPT_SENTINEL) {
        Ok(v) => v,
        Err(e) => {
            return Err(e);
        },
    };

    let type_id = match source.read_u32() {
        Ok(v) => v,
        Err(e) => {
            return Err(e);
        },
    };

    let material_raw = match source.read_u32() {
        Ok(v) => v,
        Err(e) => {
            return Err(e);
        },
    };

    let material = match Material::try_from(material_raw) {
        Ok(v) => v,
        Err(_) => {
            return Err(Error::Format(Format::Data));
        },
    };

    let sound_ids = match source.read_u8() {
        Ok(v) => v,
        Err(e) => {
            return Err(e);
        },
    };

    let body = match body(source, type_id) {
        Ok(v) => v,
        Err(e) => {
            return Err(e);
        },
    };

    Ok(Instance { body, light, script, material, actions, connections: Connections { sound_ids } })
}

} // verus!
