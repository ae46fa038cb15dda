use vstd::prelude::*;

use crate::errors::{Error, Format};
use crate::geometry::{Coordinate, Elevation, Orientation};
use crate::identifier::Identifier;
use crate::map::defaults;
use crate::map::prototype;
use crate::map::script;
use crate::map::spatial;
use crate::map::tiles;
use crate::map::time;
use crate::map::{map_model, tiles_vec_model, Elevations, Flag, MapFile, MapModel, Variables};
use crate::source::{be16, be32, be_i32, can_read, Source};

verus! {

/// The text a byte sequence decodes to under UTF-8, when it is
/// well-formed; a function of the bytes alone.
pub uninterp spec fn utf8_decode(bytes: Seq<u8>) -> Option<Seq<char>>;

/// Relies on std::str::from_utf8: it succeeds exactly on well-formed
/// UTF-8 input, yielding the text it decodes to, a function of the bytes
/// alone.
#[verifier::external_body]
fn decode_utf8(bytes: &Vec<u8>) -> (r: Option<String>)
    ensures
        match r {
            Some(s) => utf8_decode(bytes@) == Some(s@),
            None => utf8_decode(bytes@) is None,
        },
{
    match std::str::from_utf8(bytes.as_slice()) {
        Ok(s) => Some(String::from(s)),
        Err(_) => None,
    }
}

/// The absence sentinel of a blueprint's variables field.
pub const VARIABLES_SENTINEL: u32 = 0xFFFF_FFFF;

/// The absence sentinel of a blueprint's bound-object field.
pub const OBJECT_SENTINEL: u32 = 0xFFFF_FFFF;

/// The byte length of the reserved header gap, skipped and never
/// validated.
pub const RESERVED_GAP: usize = 176;

/// The map-wide flags the combined flags word encodes: its lowest bit
/// marks a saved map.
pub open spec fn spec_flags(raw: u32) -> Seq<Flag> {
    if raw % 2 == 1 {
        seq![Flag::Save]
    } else {
        Seq::empty()
    }
}

/// The elevation presence the combined flags word encodes: elevation `k`
/// is present exactly when bit `k + 1` is clear.
pub open spec fn spec_elevations(raw: u32) -> Elevations {
    Elevations {
        first: (raw / 2) % 2 == 0,
        second: (raw / 4) % 2 == 0,
        third: (raw / 8) % 2 == 0,
    }
}

/// Decodes the combined flags word: the flag set and the elevation
/// presence mask are packed into one field and cannot be decoded
/// independently.
pub fn flags_tuple(source: &mut Source) -> (r: Result<(Vec<Flag>, Elevations), Error>)
    ensures
        final(source).bytes@ == old(source).bytes@,
        can_read(old(source).bytes@, old(source).pos as int, 4) ==> {
            &&& r matches Ok((flags, elevations)) && flags@ == spec_flags(
                be32(old(source).bytes@, old(source).pos as int) as u32,
            ) && elevations == spec_elevations(
                be32(old(source).bytes@, old(source).pos as int) as u32,
            )
            &&& final(source).pos == old(source).pos + 4
        },
        !can_read(old(source).bytes@, old(source).pos as int, 4) ==> {
            &&& r == Err::<(Vec<Flag>, Elevations), Error>(Error::Read)
            &&& final(source).pos == old(source).pos
        },
{
    let raw = match source.read_u32() {
        Ok(v) => v,
        Err(e) => {
            return Err(e);
        },
    };
    let mut flags: Vec<Flag> = Vec::new();
    if raw % 2 == 1 {
        flags.push(Flag::Save);
    }
    let elevations = Elevations {
        first: (raw / 2) % 2 == 0,
        second: (raw / 4) % 2 == 0,
        third: (raw / 8) % 2 == 0,
    };
    assert(flags@ =~= spec_flags(raw));
    Ok((flags, elevations))
}

/// What the defaults block at `pos` decodes to, together with the
/// position after it: position, elevation, orientation, in order.
pub open spec fn spec_defaults(b: Seq<u8>, pos: int) -> Result<(defaults::Instance, int), Error> {
    if !can_read(b, pos, 4) {
        Err(Error::Read)
    } else if !Coordinate::valid_raw(be32(b, pos) as u32) {
        Err(Error::Format(Format::Data))
    } else if !can_read(b, pos + 4, 4) {
        Err(Error::Read)
    } else if !Elevation::valid_raw(be32(b, pos + 4) as u32) {
        Err(Error::Format(Format::Data))
    } else if !can_read(b, pos + 8, 4) {
        Err(Error::Read)
    } else if !Orientation::valid_raw(be32(b, pos + 8) as u32) {
        Err(Error::Format(Format::Data))
    } else {
        Ok(
            (
                defaults::Instance {
                    position: Coordinate::spec_from(be32(b, pos) as u32),
                    elevation: Elevation::spec_from(be32(b, pos + 4) as u32),
                    orientation: Orientation::spec_from(be32(b, pos + 8) as u32),
                },
                pos + 12,
            ),
        )
    }
}

/// Decodes the defaults block: default position, elevation and
/// orientation, each validated on read.
pub fn defaults_instance(source: &mut Source) -> (r: Result<defaults::Instance, Error>)
    ensures
        final(source).bytes@ == old(source).bytes@,
        match spec_defaults(old(source).bytes@, old(source).pos as int) {
            Ok((d, end)) => r == Ok::<defaults::Instance, Error>(d) && final(source).pos == end,
            Err(e) => r == Err::<defaults::Instance, Error>(e),
        },
{
    let position_raw = match source.read_u32() {
        Ok(v) => v,
        Err(e) => {
            return Err(e);
        },
    };
    let position = match Coordinate::try_from(position_raw) {
        Ok(v) => v,
        Err(e) => {
            return Err(e);
        },
    };
    let elevation_raw = match source.read_u32() {
        Ok(v) => v,
        Err(e) => {
            return Err(e);
        },
    };
    let elevation = match Elevation::try_from(elevation_raw) {
        Ok(v) => v,
        Err(e) => {
            return Err(e);
        },
    };
    let orientation_raw = match source.read_u32() {
        Ok(v) => v,
        Err(e) => {
            return Err(e);
        },
    };
    let orientation = match Orientation::try_from(orientation_raw) {
        Ok(v) => v,
        Err(e) => {
            return Err(e);
        },
    };
    Ok(defaults::Instance { position, elevation, orientation })
}

/// A sequence reduced to set contents: the first occurrence of each
/// value is kept, in order, and every later duplicate collapses. This is
/// how the map's set-valued collections (variable tables, script
/// blueprints, placed objects) are modelled as sequences.
pub open spec fn spec_dedup<T>(s: Seq<T>) -> Seq<T>
    decreases s.len(),
{
    if s.len() == 0 {
        Seq::empty()
    } else {
        let rest = spec_dedup(s.drop_last());
        if rest.contains(s.last()) {
            rest
        } else {
            rest.push(s.last())
        }
    }
}

/// A deduplicated sequence holds no value twice: the map's set-valued
/// collections are genuine sets.
pub proof fn lemma_dedup_distinct<T>(s: Seq<T>)
    ensures
        forall|i: int, j: int|
            0 <= i < j < spec_dedup(s).len() ==> spec_dedup(s)[i] != spec_dedup(s)[j],
    decreases s.len(),
{
    if s.len() > 0 {
        lemma_dedup_distinct(s.drop_last());
        let rest = spec_dedup(s.drop_last());
        if !rest.contains(s.last()) {
            assert forall|i: int| 0 <= i < rest.len() implies rest[i] != s.last() by {
                if rest[i] == s.last() {
                    assert(rest.contains(s.last()));
                }
            }
        }
    }
}

/// Deduplication keeps exactly the members: a value is in the
/// deduplicated sequence exactly when it is among the decoded values.
pub proof fn lemma_dedup_members<T>(s: Seq<T>, x: T)
    ensures
        spec_dedup(s).contains(x) <==> s.contains(x),
    decreases s.len(),
{
    broadcast use vstd::seq_lib::lemma_seq_contains_after_push;

    if s.len() > 0 {
        lemma_dedup_members(s.drop_last(), x);
        let rest = spec_dedup(s.drop_last());
        assert(s.drop_last().push(s.last()) =~= s);
        assert(s.contains(x) <==> s.last() == x || s.drop_last().contains(x));
        if rest.contains(s.last()) {
            lemma_dedup_members(s.drop_last(), s.last());
        } else {
            assert(rest.push(s.last()).contains(x) <==> s.last() == x || rest.contains(x));
        }
    }
}

/// What a table of `count` signed 32-bit variables at `pos` decodes to,
/// together with the position after it: exactly `count` entries are
/// read, and the table keeps the set of the decoded values, duplicates
/// collapsing onto their first occurrence.
pub open spec fn spec_vars(b: Seq<u8>, pos: int, count: u32) -> Result<(Seq<i32>, int), Error> {
    if count == 0 {
        Ok((Seq::empty(), pos))
    } else if pos + 4 * count <= b.len() {
        Ok(
            (
                spec_dedup(Seq::new(count as nat, |i: int| be_i32(b, pos + 4 * i))),
                pos + 4 * count,
            ),
        )
    } else {
        Err(Error::Read)
    }
}

/// Keeps the first occurrence of each value of a decoded table,
/// dropping later duplicates.
fn dedup_vars(raw: &Vec<i32>) -> (r: Vec<i32>)
    ensures
        r@ == spec_dedup(raw@),
{
    let mut out: Vec<i32> = Vec::new();
    let mut i: usize = 0;
    while i < raw.len()
        invariant
            i <= raw@.len(),
            out@ == spec_dedup(raw@.take(i as int)),
        decreases raw@.len() - i,
    {
        let x = raw[i];
        let mut found = false;
        let mut j: usize = 0;
        while j < out.len()
            invariant
                j <= out@.len(),
                found ==> out@.contains(x),
                !found ==> forall|k: int| 0 <= k < j ==> out@[k] != x,
            decreases out@.len() - j,
        {
            if out[j] == x {
                assert(out@[j as int] == x);
                found = true;
            }
            j = j + 1;
        }
        proof {
            assert(raw@.take(i + 1).drop_last() =~= raw@.take(i as int));
            assert(raw@.take(i + 1).last() == raw@[i as int]);
        }
        if !found {
            out.push(x);
        }
        i = i + 1;
    }
    proof {
        assert(raw@.take(raw@.len() as int) =~= raw@);
    }
    out
}

/// Decodes a length-known table of signed 32-bit variables: exactly
/// `count` entries are read, and the set of their values is kept,
/// duplicates collapsing onto their first occurrence.
pub fn variables_set(source: &mut Source, count: u32) -> (r: Result<Vec<i32>, Error>)
    ensures
        final(source).bytes@ == old(source).bytes@,
        match spec_vars(old(source).bytes@, old(source).pos as int, count) {
            Ok((s, end)) => r matches Ok(v) && v@ == s && final(source).pos == end,
            Err(e) => r == Err::<Vec<i32>, Error>(e),
        },
{
    let ghost b = source.bytes@;
    let ghost start = source.pos as int;
    let mut out: Vec<i32> = Vec::new();
    let mut i: u32 = 0;
    while i < count
        invariant
            i <= count,
            b == old(source).bytes@,
            start == old(source).pos as int,
            source.bytes@ == b,
            source.pos == start + 4 * i,
            i > 0 ==> source.pos <= b.len(),
            out@.len() == i,
            forall|j: int| 0 <= j < i ==> out@[j] == be_i32(b, start + 4 * j),
        decreases count - i,
    {
        let v = match source.read_i32() {
            Ok(v) => v,
            Err(e) => {
                assert(start + 4 * count > b.len());
                return Err(e);
            },
        };
        out.push(v);
        i = i + 1;
    }
    if count > 0 {
        assert(out@ =~= Seq::new(count as nat, |j: int| be_i32(b, start + 4 * j)));
    }
    Ok(dedup_vars(&out))
}

/// What a raw tile id decodes to: the all-ones sentinel marks an empty
/// cell.
pub open spec fn spec_tile(raw: u16) -> Option<u16> {
    if raw == tiles::TILE_SENTINEL {
        None
    } else {
        Some(raw)
    }
}

/// What one elevation's grids at `pos` decode to, together with the
/// position after them: `100 * 100` cells, each a 2-byte roof tile id
/// followed by a 2-byte floor tile id, in row-major order.
pub open spec fn spec_grid(b: Seq<u8>, pos: int) -> Result<(tiles::TilesModel, int), Error> {
    if pos + 40000 <= b.len() {
        Ok(
            (
                tiles::TilesModel {
                    roof: Seq::new(10000, |i: int| spec_tile(be16(b, pos + 4 * i) as u16)),
                    floor: Seq::new(10000, |i: int| spec_tile(be16(b, pos + 4 * i + 2) as u16)),
                },
                pos + 40000,
            ),
        )
    } else {
        Err(Error::Read)
    }
}

/// Decodes one elevation's roof and floor grids.
pub fn grid(source: &mut Source) -> (r: Result<tiles::Instance, Error>)
    ensures
        final(source).bytes@ == old(source).bytes@,
        match spec_grid(old(source).bytes@, old(source).pos as int) {
            Ok((t, end)) => {
                &&& r matches Ok(g) && tiles::instance_model(g) == t && g.wf()
                &&& final(source).pos == end
            },
            Err(e) => r == Err::<tiles::Instance, Error>(e),
        },
{
    let ghost b = source.bytes@;
    let ghost start = source.pos as int;
    let mut roof: Vec<Option<u16>> = Vec::new();
    let mut floor: Vec<Option<u16>> = Vec::new();
    let mut i: usize = 0;
    while i < 10000
        invariant
            i <= 10000,
            b == old(source).bytes@,
            start == old(source).pos as int,
            source.bytes@ == b,
            source.pos == start + 4 * i,
            i > 0 ==> source.pos <= b.len(),
            roof@.len() == i,
            floor@.len() == i,
            forall|j: int| 0 <= j < i ==> roof@[j] == spec_tile(be16(b, start + 4 * j) as u16),
            forall|j: int| 0 <= j < i ==> floor@[j] == spec_tile(be16(b, start + 4 * j + 2) as u16),
        decreases 10000 - i,
    {
        let roof_raw = match source.read_u16() {
            Ok(v) => v,
            Err(e) => {
                assert(start + 40000 > b.len());
                return Err(e);
            },
        };
        let floor_raw = match source.read_u16() {
            Ok(v) => v,
            Err(e) => {
                assert(start + 40000 > b.len());
                return Err(e);
            },
        };
        roof.push(if roof_raw == tiles::TILE_SENTINEL {
            None
        } else {
            Some(roof_raw)
        });
        floor.push(if floor_raw == tiles::TILE_SENTINEL {
            None
        } else {
            Some(floor_raw)
        });
        i = i + 1;
    }
    assert(roof@ =~= Seq::new(10000, |j: int| spec_tile(be16(b, start + 4 * j) as u16)));
    assert(floor@ =~= Seq::new(10000, |j: int| spec_tile(be16(b, start + 4 * j + 2) as u16)));
    Ok(tiles::Instance { roof, floor })
}

/// What one optional elevation's grids decode to: present elevations are
/// parsed, absent ones take no bytes at all.
pub open spec fn spec_grid_opt(b: Seq<u8>, pos: int, present: bool) -> Result<
    (Option<tiles::TilesModel>, int),
    Error,
> {
    if present {
        match spec_grid(b, pos) {
            Ok((t, end)) => Ok((Some(t), end)),
            Err(e) => Err(e),
        }
    } else {
        Ok((None, pos))
    }
}

/// What the tile section decodes to: one grid pair per present
/// elevation, in elevation order.
pub open spec fn spec_tiles(b: Seq<u8>, pos: int, e: Elevations) -> Result<
    (Seq<Option<tiles::TilesModel>>, int),
    Error,
> {
    match spec_grid_opt(b, pos, e.first) {
        Err(err) => Err(err),
        Ok((t0, p1)) => match spec_grid_opt(b, p1, e.second) {
            Err(err) => Err(err),
            Ok((t1, p2)) => match spec_grid_opt(b, p2, e.third) {
                Err(err) => Err(err),
                Ok((t2, p3)) => Ok((seq![t0, t1, t2], p3)),
            },
        },
    }
}

/// Decodes the grids of one elevation when it is present.
pub fn grid_opt(source: &mut Source, present: bool) -> (r: Result<
    Option<tiles::Instance>,
    Error,
>)
    ensures
        final(source).bytes@ == old(source).bytes@,
        match spec_grid_opt(old(source).bytes@, old(source).pos as int, present) {
            Ok((t, end)) => {
                &&& r matches Ok(g) && crate::map::tiles_opt_model(g) == t
                &&& final(source).pos == end
            },
            Err(e) => r == Err::<Option<tiles::Instance>, Error>(e),
        },
{
    if present {
        match grid(source) {
            Ok(g) => Ok(Some(g)),
            Err(e) => Err(e),
        }
    } else {
        Ok(None)
    }
}

/// Decodes the tile section: the grids of every present elevation, in
/// order.
pub fn tiles_list(source: &mut Source, elevations: Elevations) -> (r: Result<
    Vec<Option<tiles::Instance>>,
    Error,
>)
    ensures
        final(source).bytes@ == old(source).bytes@,
        match spec_tiles(old(source).bytes@, old(source).pos as int, elevations) {
            Ok((s, end)) => {
                &&& r matches Ok(v) && tiles_vec_model(v@) == s && v@.len() == 3
                &&& final(source).pos == end
            },
            Err(e) => r == Err::<Vec<Option<tiles::Instance>>, Error>(e),
        },
{
    let t0 = match grid_opt(source, elevations.first) {
        Ok(v) => v,
        Err(e) => {
            return Err(e);
        },
    };
    let t1 = match grid_opt(source, elevations.second) {
        Ok(v) => v,
        Err(e) => {
            return Err(e);
        },
    };
    let t2 = match grid_opt(source, elevations.third) {
        Ok(v) => v,
        Err(e) => {
            return Err(e);
        },
    };
    let mut out: Vec<Option<tiles::Instance>> = Vec::new();
    out.push(t0);
    out.push(t1);
    out.push(t2);
    proof {
        let s = spec_tiles(old(source).bytes@, old(source).pos as int, elevations)->Ok_0.0;
        assert(tiles_vec_model(out@) =~= s);
    }
    Ok(out)
}

/// What one script blueprint's trailing fields decode to, after its
/// kind-specific payload: the optional variables slice, then the
/// connections.
pub open spec fn spec_script_tail(b: Seq<u8>, pos: int, id: u16, kind: script::Type) -> Result<
    (script::Instance, int),
    Error,
> {
    if !can_read(b, pos, 4) {
        Err(Error::Read)
    } else {
        let offset_raw = be32(b, pos) as u32;
        let vars_end = if offset_raw == VARIABLES_SENTINEL {
            pos + 4
        } else {
            pos + 8
        };
        if offset_raw != VARIABLES_SENTINEL && !can_read(b, pos + 4, 4) {
            Err(Error::Read)
        } else {
            let variables = if offset_raw == VARIABLES_SENTINEL {
                None
            } else {
                Some(script::Variables { offset: offset_raw, count: be32(b, pos + 4) as u32 })
            };
            if !can_read(b, vars_end, 4) {
                Err(Error::Read)
            } else if !can_read(b, vars_end + 4, 4) {
                Err(Error::Read)
            } else {
                let object_raw = be32(b, vars_end + 4) as u32;
                Ok(
                    (
                        script::Instance {
                            id,
                            kind,
                            variables,
                            connections: script::Connections {
                                program_id: be32(b, vars_end) as u32,
                                object_id: if object_raw == OBJECT_SENTINEL {
                                    None
                                } else {
                                    Some(object_raw)
                                },
                            },
                        },
                        vars_end + 8,
                    ),
                )
            }
        }
    }
}

/// What one script blueprint record at `pos` decodes to, together with
/// the position after it: a 4-byte kind, a 2-byte id, the kind-specific
/// payload, the optional variables slice (sentinel `0xFFFFFFFF` on its
/// offset), and the connections (sentinel `0xFFFFFFFF` on the bound
/// object).
#[verifier::opaque]
pub open spec fn spec_script_one(b: Seq<u8>, pos: int) -> Result<(script::Instance, int), Error> {
    if !can_read(b, pos, 4) {
        Err(Error::Read)
    } else {
        let kind_raw = be32(b, pos) as u32;
        if kind_raw >= 5 {
            Err(Error::Format(Format::Data))
        } else if !can_read(b, pos + 4, 2) {
            Err(Error::Read)
        } else {
            let id = be16(b, pos + 4) as u16;
            let p = pos + 6;
            if kind_raw == 1 {
                if !can_read(b, p, 4) {
                    Err(Error::Read)
                } else if !Coordinate::valid_raw(be32(b, p) as u32) {
                    Err(Error::Format(Format::Data))
                } else if !can_read(b, p + 4, 2) {
                    Err(Error::Read)
                } else if !can_read(b, p + 6, 4) {
                    Err(Error::Read)
                } else if !Elevation::valid_raw(be32(b, p + 6) as u32) {
                    Err(Error::Format(Format::Data))
                } else {
                    spec_script_tail(
                        b,
                        p + 10,
                        id,
                        script::Type::Spatial(
                            spatial::Instance {
                                position: Coordinate::spec_from(be32(b, p) as u32),
                                distance: be16(b, p + 4) as u16,
                                elevation: Elevation::spec_from(be32(b, p + 6) as u32),
                            },
                        ),
                    )
                }
            } else if kind_raw == 2 {
                if !can_read(b, p, 4) {
                    Err(Error::Read)
                } else {
                    spec_script_tail(
                        b,
                        p + 4,
                        id,
                        script::Type::Time(time::Instance { duration: be32(b, p) as u32 }),
                    )
                }
            } else {
                let kind = if kind_raw == 0 {
                    script::Type::System
                } else if kind_raw == 3 {
                    script::Type::Item
                } else {
                    script::Type::Critter
                };
                spec_script_tail(b, p, id, kind)
            }
        }
    }
}

/// Decodes one script blueprint record's trailing fields.
fn script_tail(source: &mut Source, id: u16, kind: script::Type) -> (r: Result<
    script::Instance,
    Error,
>)
    ensures
        final(source).bytes@ == old(source).bytes@,
        match spec_script_tail(old(source).bytes@, old(source).pos as int, id, kind) {
            Ok((s, end)) => r == Ok::<script::Instance, Error>(s) && final(source).pos == end,
            Err(e) => r == Err::<script::Instance, Error>(e),
        },
{
    let offset_raw = match source.read_u32() {
        Ok(v) => v,
        Err(e) => {
            return Err(e);
        },
    };
    let variables = if offset_raw == VARIABLES_SENTINEL {
        None
    } else {
        let count = match source.read_u32() {
            Ok(v) => v,
            Err(e) => {
                return Err(e);
            },
        };
        Some(script::Variables { offset: offset_raw, count })
    };
    let program_id = match source.read_u32() {
        Ok(v) => v,
        Err(e) => {
            return Err(e);
        },
    };
    let object_raw = match source.read_u32() {
        Ok(v) => v,
        Err(e) => {
            return Err(e);
        },
    };
    let object_id = if object_raw == OBJECT_SENTINEL {
        None
    } else {
        Some(object_raw)
    };
    Ok(
        script::Instance {
            id,
            kind,
            variables,
            connections: script::Connections { program_id, object_id },
        },
    )
}

/// Decodes one script blueprint record.
#[verifier::rlimit(100)]
pub fn script_instance(source: &mut Source) -> (r: Result<script::Instance, Error>)
    ensures
        final(source).bytes@ == old(source).bytes@,
        match spec_script_one(old(source).bytes@, old(source).pos as int) {
            Ok((s, end)) => r == Ok::<script::Instance, Error>(s) && final(source).pos == end,
            Err(e) => r == Err::<script::Instance, Error>(e),
        },
{
    proof {
        reveal(spec_script_one);
    }
    let kind_raw = match source.read_u32() {
        Ok(v) => v,
        Err(e) => {
            return Err(e);
        },
    };
    if kind_raw >= 5 {
        return Err(Error::Format(Format::Data));
    }
    let id = match source.read_u16() {
        Ok(v) => v,
        Err(e) => {
            return Err(e);
        },
    };
    let kind = if kind_raw == 1 {
        let position_raw = match source.read_u32() {
            Ok(v) => v,
            Err(e) => {
                return Err(e);
            },
        };
        let position = match Coordinate::try_from(position_raw) {
            Ok(v) => v,
            Err(e) => {
                return Err(e);
            },
        };
        let distance = match source.read_u16() {
            Ok(v) => v,
            Err(e) => {
                return Err(e);
            },
        };
        let elevation_raw = match source.read_u32() {
            Ok(v) => v,
            Err(e) => {
                return Err(e);
            },
        };
        let elevation = match Elevation::try_from(elevation_raw) {
            Ok(v) => v,
            Err(e) => {
                return Err(e);
            },
        };
        script::Type::Spatial(spatial::Instance { position, distance, elevation })
    } else if kind_raw == 2 {
        let duration = match source.read_u32() {
            Ok(v) => v,
            Err(e) => {
                return Err(e);
            },
        };
        script::Type::Time(time::Instance { duration })
    } else if kind_raw == 0 {
        script::Type::System
    } else if kind_raw == 3 {
        script::Type::Item
    } else {
        script::Type::Critter
    };
    script_tail(source, id, kind)
}

/// What `n` script blueprint records at `pos` decode to, together with
/// the position after them.
pub open spec fn spec_scripts(b: Seq<u8>, pos: int, n: u32) -> Result<
    (Seq<script::Instance>, int),
    Error,
>
    decreases n,
{
    if n == 0 {
        Ok((Seq::empty(), pos))
    } else {
        match spec_script_one(b, pos) {
            Err(e) => Err(e),
            Ok((s, p)) => match spec_scripts(b, p, (n - 1) as u32) {
                Err(e) => Err(e),
                Ok((rest, end)) => Ok((seq![s] + rest, end)),
            },
        }
    }
}

/// What the script blueprint section at `pos` decodes to: a 4-byte
/// count, then that many records; the section keeps the set of the
/// decoded records, duplicates collapsing onto their first occurrence.
pub open spec fn spec_scripts_list(b: Seq<u8>, pos: int) -> Result<
    (Seq<script::Instance>, int),
    Error,
> {
    if !can_read(b, pos, 4) {
        Err(Error::Read)
    } else {
        match spec_scripts(b, pos + 4, be32(b, pos) as u32) {
            Err(e) => Err(e),
            Ok((s, end)) => Ok((spec_dedup(s), end)),
        }
    }
}

/// Keeps the first occurrence of each decoded script blueprint,
/// dropping later duplicates.
fn dedup_scripts(raw: &Vec<script::Instance>) -> (r: Vec<script::Instance>)
    ensures
        r@ == spec_dedup(raw@),
{
    let mut out: Vec<script::Instance> = Vec::new();
    let mut i: usize = 0;
    while i < raw.len()
        invariant
            i <= raw@.len(),
            out@ == spec_dedup(raw@.take(i as int)),
        decreases raw@.len() - i,
    {
        let x = raw[i];
        let mut found = false;
        let mut j: usize = 0;
        while j < out.len()
            invariant
                j <= out@.len(),
                found ==> out@.contains(x),
                !found ==> forall|k: int| 0 <= k < j ==> out@[k] != x,
            decreases out@.len() - j,
        {
            if out[j] == x {
                assert(out@[j as int] == x);
                found = true;
            }
            j = j + 1;
        }
        proof {
            assert(raw@.take(i + 1).drop_last() =~= raw@.take(i as int));
            assert(raw@.take(i + 1).last() == raw@[i as int]);
        }
        if !found {
            out.push(x);
        }
        i = i + 1;
    }
    proof {
        assert(raw@.take(raw@.len() as int) =~= raw@);
    }
    out
}

/// Decodes the script blueprint section: a length prefix, then exactly
/// that many records, no entries beyond the declared count; the set of
/// the records is kept, duplicates collapsing onto their first
/// occurrence.
#[verifier::rlimit(100)]
pub fn scripts_list(source: &mut Source) -> (r: Result<Vec<script::Instance>, Error>)
    ensures
        final(source).bytes@ == old(source).bytes@,
        match spec_scripts_list(old(source).bytes@, old(source).pos as int) {
            Ok((s, end)) => r matches Ok(v) && v@ == s && final(source).pos == end,
            Err(e) => r == Err::<Vec<script::Instance>, Error>(e),
        },
{
    let count = match source.read_u32() {
        Ok(v) => v,
        Err(e) => {
            return Err(e);
        },
    };
    let ghost b = source.bytes@;
    let ghost start = source.pos as int;
    let mut out: Vec<script::Instance> = Vec::new();
    let mut i: u32 = 0;
    while i < count
        invariant
            i <= count,
            b == old(source).bytes@,
            can_read(b, old(source).pos as int, 4),
            start == old(source).pos + 4,
            count == be32(b, old(source).pos as int) as u32,
            source.bytes@ == b,
            out@.len() == i,
            match spec_scripts(b, source.pos as int, (count - i) as u32) {
                Ok((rest, end)) => spec_scripts(b, start, count) == Ok::<
                    (Seq<script::Instance>, int),
                    Error,
                >((out@ + rest, end)),
                Err(e) => spec_scripts(b, start, count) == Err::<
                    (Seq<script::Instance>, int),
                    Error,
                >(e),
            },
        decreases count - i,
    {
        let ghost cur = source.pos as int;
        let ghost n = (count - i) as u32;
        let s = match script_instance(source) {
            Ok(v) => v,
            Err(e) => {
                assert(spec_scripts(b, cur, n) == Err::<(Seq<script::Instance>, int), Error>(e));
                return Err(e);
            },
        };
        proof {
            let rem = spec_scripts(b, source.pos as int, (n - 1) as u32);
            assert(spec_scripts(b, cur, n) == match rem {
                Err(e) => Err::<(Seq<script::Instance>, int), Error>(e),
                Ok((rest, end)) => Ok::<(Seq<script::Instance>, int), Error>(
                    (seq![s] + rest, end),
                ),
            });
            if rem is Ok {
                assert(out@ + (seq![s] + rem->Ok_0.0) =~= out@.push(s) + rem->Ok_0.0);
            }
        }
        out.push(s);
        i = i + 1;
    }
    assert(out@ + Seq::<script::Instance>::empty() =~= out@);
    Ok(dedup_scripts(&out))
}

/// What `n` placed-object records at `pos` decode to, together with the
/// position after them: each a 4-byte prototype identifier.
pub open spec fn spec_protos(b: Seq<u8>, pos: int, n: u32) -> Result<
    (Seq<prototype::Instance>, int),
    Error,
>
    decreases n,
{
    if n == 0 {
        Ok((Seq::empty(), pos))
    } else if !can_read(b, pos, 4) {
        Err(Error::Read)
    } else if !Identifier::valid_raw(be32(b, pos) as u32) {
        Err(Error::Format(Format::Data))
    } else {
        match spec_protos(b, pos + 4, (n - 1) as u32) {
            Err(e) => Err(e),
            Ok((rest, end)) => Ok(
                (
                    seq![
                        prototype::Instance {
                            identifier: Identifier::spec_from(be32(b, pos) as u32),
                        },
                    ] + rest,
                    end,
                ),
            ),
        }
    }
}

/// What one elevation's placed-object section decodes to: nothing at all
/// for an absent elevation, else a 4-byte count then that many records.
pub open spec fn spec_objects_level(b: Seq<u8>, pos: int, present: bool) -> Result<
    (Seq<prototype::Instance>, int),
    Error,
> {
    if !present {
        Ok((Seq::empty(), pos))
    } else if !can_read(b, pos, 4) {
        Err(Error::Read)
    } else {
        spec_protos(b, pos + 4, be32(b, pos) as u32)
    }
}

/// What the placed-object section decodes to: the records of every
/// present elevation in elevation order, kept as the set of the decoded
/// records, duplicates collapsing onto their first occurrence.
pub open spec fn spec_objects(b: Seq<u8>, pos: int, e: Elevations) -> Result<
    (Seq<prototype::Instance>, int),
    Error,
> {
    match spec_objects_level(b, pos, e.first) {
        Err(err) => Err(err),
        Ok((s0, p1)) => match spec_objects_level(b, p1, e.second) {
            Err(err) => Err(err),
            Ok((s1, p2)) => match spec_objects_level(b, p2, e.third) {
                Err(err) => Err(err),
                Ok((s2, p3)) => Ok((spec_dedup(s0 + s1 + s2), p3)),
            },
        },
    }
}

/// Keeps the first occurrence of each placed-object record, dropping
/// later duplicates.
fn dedup_protos(raw: &Vec<prototype::Instance>) -> (r: Vec<prototype::Instance>)
    ensures
        r@ == spec_dedup(raw@),
{
    let mut out: Vec<prototype::Instance> = Vec::new();
    let mut i: usize = 0;
    while i < raw.len()
        invariant
            i <= raw@.len(),
            out@ == spec_dedup(raw@.take(i as int)),
        decreases raw@.len() - i,
    {
        let x = raw[i];
        let mut found = false;
        let mut j: usize = 0;
        while j < out.len()
            invariant
                j <= out@.len(),
                found ==> out@.contains(x),
                !found ==> forall|k: int| 0 <= k < j ==> out@[k] != x,
            decreases out@.len() - j,
        {
            if out[j] == x {
                assert(out@[j as int] == x);
                found = true;
            }
            j = j + 1;
        }
        proof {
            assert(raw@.take(i + 1).drop_last() =~= raw@.take(i as int));
            assert(raw@.take(i + 1).last() == raw@[i as int]);
        }
        if !found {
            out.push(x);
        }
        i = i + 1;
    }
    proof {
        assert(raw@.take(raw@.len() as int) =~= raw@);
    }
    out
}

/// Decodes one elevation's placed-object section.
#[verifier::rlimit(100)]
pub fn protos_level(source: &mut Source, present: bool) -> (r: Result<
    Vec<prototype::Instance>,
    Error,
>)
    ensures
        final(source).bytes@ == old(source).bytes@,
        match spec_objects_level(old(source).bytes@, old(source).pos as int, present) {
            Ok((s, end)) => r matches Ok(v) && v@ == s && final(source).pos == end,
            Err(e) => r == Err::<Vec<prototype::Instance>, Error>(e),
        },
{
    if !present {
        let out: Vec<prototype::Instance> = Vec::new();
        return Ok(out);
    }
    let count = match source.read_u32() {
        Ok(v) => v,
        Err(e) => {
            return Err(e);
        },
    };
    let ghost b = source.bytes@;
    let ghost start = source.pos as int;
    let mut out: Vec<prototype::Instance> = Vec::new();
    let mut i: u32 = 0;
    while i < count
        invariant
            i <= count,
            b == old(source).bytes@,
            present,
            can_read(b, old(source).pos as int, 4),
            start == old(source).pos + 4,
            count == be32(b, old(source).pos as int) as u32,
            source.bytes@ == b,
            out@.len() == i,
            match spec_protos(b, source.pos as int, (count - i) as u32) {
                Ok((rest, end)) => spec_protos(b, start, count) == Ok::<
                    (Seq<prototype::Instance>, int),
                    Error,
                >((out@ + rest, end)),
                Err(e) => spec_protos(b, start, count) == Err::<
                    (Seq<prototype::Instance>, int),
                    Error,
                >(e),
            },
        decreases count - i,
    {
        let ghost cur = source.pos as int;
        let ghost n = (count - i) as u32;
        let raw = match source.read_u32() {
            Ok(v) => v,
            Err(e) => {
                assert(spec_protos(b, cur, n) == Err::<(Seq<prototype::Instance>, int), Error>(
                    Error::Read,
                ));
                return Err(e);
            },
        };
        let identifier = match Identifier::try_from(raw) {
            Ok(v) => v,
            Err(e) => {
                assert(spec_protos(b, cur, n) == Err::<(Seq<prototype::Instance>, int), Error>(
                    Error::Format(Format::Data),
                ));
                return Err(e);
            },
        };
        let inst = prototype::Instance { identifier };
        proof {
            let rem = spec_protos(b, cur + 4, (n - 1) as u32);
            assert(spec_protos(b, cur, n) == match rem {
                Err(e) => Err::<(Seq<prototype::Instance>, int), Error>(e),
                Ok((rest, end)) => Ok::<(Seq<prototype::Instance>, int), Error>(
                    (seq![inst] + rest, end),
                ),
            });
            if rem is Ok {
                assert(out@ + (seq![inst] + rem->Ok_0.0) =~= out@.push(inst) + rem->Ok_0.0);
            }
        }
        out.push(inst);
        i = i + 1;
    }
    assert(out@ + Seq::<prototype::Instance>::empty() =~= out@);
    Ok(out)
}

/// Decodes the placed-object section, scoped to the elevations flagged
/// present; the set of the records is kept, duplicates collapsing onto
/// their first occurrence.
pub fn objects_list(source: &mut Source, elevations: Elevations) -> (r: Result<
    Vec<prototype::Instance>,
    Error,
>)
    ensures
        final(source).bytes@ == old(source).bytes@,
        match spec_objects(old(source).bytes@, old(source).pos as int, elevations) {
            Ok((s, end)) => r matches Ok(v) && v@ == s && final(source).pos == end,
            Err(e) => r == Err::<Vec<prototype::Instance>, Error>(e),
        },
{
    let mut out = match protos_level(source, elevations.first) {
        Ok(v) => v,
        Err(e) => {
            return Err(e);
        },
    };
    let mut v1 = match protos_level(source, elevations.second) {
        Ok(v) => v,
        Err(e) => {
            return Err(e);
        },
    };
    let mut v2 = match protos_level(source, elevations.third) {
        Ok(v) => v,
        Err(e) => {
            return Err(e);
        },
    };
    out.append(&mut v1);
    out.append(&mut v2);
    Ok(dedup_protos(&out))
}

/// What a whole map file decodes to: the fixed header in strict
/// declaration order, the reserved gap, then the global and local
/// variable tables, the tile grids of the present elevations, the script
/// blueprints, and the placed objects.
pub open spec fn spec_map(b: Seq<u8>) -> Result<MapModel, Error> {
    if !can_read(b, 0, 4) {
        Err(Error::Read)
    } else if !can_read(b, 4, 16) {
        Err(Error::Read)
    } else {
        match utf8_decode(b.subrange(4, 20)) {
            None => Err(Error::Format(Format::Data)),
            Some(filename) => match spec_defaults(b, 20) {
                Err(e) => Err(e),
                Ok((defaults, p)) => {
                    if !can_read(b, p, 4) {
                        Err(Error::Read)
                    } else if !can_read(b, p + 4, 4) {
                        Err(Error::Read)
                    } else if !can_read(b, p + 8, 4) {
                        Err(Error::Read)
                    } else if !can_read(b, p + 12, 4) {
                        Err(Error::Read)
                    } else if !can_read(b, p + 16, 4) {
                        Err(Error::Read)
                    } else if !can_read(b, p + 20, 4) {
                        Err(Error::Read)
                    } else if !can_read(b, p + 24, 4) {
                        Err(Error::Read)
                    } else {
                        let local_count = be32(b, p) as u32;
                        let flags_raw = be32(b, p + 8) as u32;
                        let global_count = be32(b, p + 16) as u32;
                        let elevations = spec_elevations(flags_raw);
                        let gap_end = if p + 28 + RESERVED_GAP <= b.len() {
                            p + 28 + RESERVED_GAP
                        } else {
                            b.len() as int
                        };
                        match spec_vars(b, gap_end, global_count) {
                            Err(e) => Err(e),
                            Ok((global, p1)) => match spec_vars(b, p1, local_count) {
                                Err(e) => Err(e),
                                Ok((local, p2)) => match spec_tiles(b, p2, elevations) {
                                    Err(e) => Err(e),
                                    Ok((tile_grids, p3)) => match spec_scripts_list(b, p3) {
                                        Err(e) => Err(e),
                                        Ok((scripts, p4)) => match spec_objects(
                                            b,
                                            p4,
                                            elevations,
                                        ) {
                                            Err(e) => Err(e),
                                            Ok((prototypes, _p5)) => Ok(
                                                MapModel {
                                                    id: be32(b, p + 20) as u32,
                                                    version: be32(b, 0) as u32,
                                                    filename,
                                                    flags: spec_flags(flags_raw),
                                                    defaults,
                                                    local,
                                                    global,
                                                    ticks: be32(b, p + 24) as u32,
                                                    darkness: be32(b, p + 12) as u32,
                                                    tiles: tile_grids,
                                                    scripts,
                                                    prototypes,
                                                },
                                            ),
                                        },
                                    },
                                },
                            },
                        }
                    }
                },
            },
        }
    }
}

/// The map a parse result models, for stating the parse contract.
pub open spec fn result_model(r: Result<MapFile, Error>) -> Result<MapModel, Error> {
    match r {
        Ok(m) => Ok(map_model(m)),
        Err(e) => Err(e),
    }
}

/// Decodes a whole map file from the start of the source. Every header
/// field is read in strict declaration order; the first failure anywhere
/// aborts the parse, and no partial map is ever returned.
#[verifier::rlimit(100)]
pub fn map(source: &mut Source) -> (r: Result<MapFile, Error>)
    ensures
        final(source).bytes@ == old(source).bytes@,
        result_model(r) == spec_map(old(source).bytes@),
{
    source.seek_start();
    let version = match source.read_u32() {
        Ok(v) => v,
        Err(e) => {
            return Err(e);
        },
    };
    let filename_bytes = match source.read_bytes(16) {
        Ok(v) => v,
        Err(e) => {
            return Err(e);
        },
    };
    let filename = match decode_utf8(&filename_bytes) {
        Some(s) => s,
        None => {
            return Err(Error::Format(Format::Data));
        },
    };
    let defaults = match defaults_instance(source) {
        Ok(v) => v,
        Err(e) => {
            return Err(e);
        },
    };
    let local_vars_count = match source.read_u32() {
        Ok(v) => v,
        Err(e) => {
            return Err(e);
        },
    };
    match source.read_u32() {
        Ok(_) => (),
        Err(e) => {
            return Err(e);
        },
    };
    let (flags, elevations) = match flags_tuple(source) {
        Ok(v) => v,
        Err(e) => {
            return Err(e);
        },
    };
    let darkness = match source.read_u32() {
        Ok(v) => v,
        Err(e) => {
            return Err(e);
        },
    };
    let global_vars_count = match source.read_u32() {
        Ok(v) => v,
        Err(e) => {
            return Err(e);
        },
    };
    let id = match source.read_u32() {
        Ok(v) => v,
        Err(e) => {
            return Err(e);
        },
    };
    let ticks = match source.read_u32() {
        Ok(v) => v,
        Err(e) => {
            return Err(e);
        },
    };
    source.skip(RESERVED_GAP);
    let global_vars = match variables_set(source, global_vars_count) {
        Ok(v) => v,
        Err(e) => {
            return Err(e);
        },
    };
    let local_vars = match variables_set(source, local_vars_count) {
        Ok(v) => v,
        Err(e) => {
            return Err(e);
        },
    };
    let tile_grids = match tiles_list(source, elevations) {
        Ok(v) => v,
        Err(e) => {
            return Err(e);
        },
    };
    let scripts = match scripts_list(source) {
        Ok(v) => v,
        Err(e) => {
            return Err(e);
        },
    };
    let prototypes = match objects_list(source, elevations) {
        Ok(v) => v,
        Err(e) => {
            return Err(e);
        },
    };
    Ok(
        MapFile {
            id,
            version,
            filename,
            flags,
            defaults,
            variables: Variables { local: local_vars, global: global_vars },
            ticks,
            darkness,
            tiles: tile_grids,
            scripts,
            prototypes,
        },
    )
}

/// A source shorter than the 20 bytes of the version and filename fields
/// fails with `Read` before any later field is even looked at: the
/// header fields are evaluated strictly in declaration order.
pub proof fn lemma_short_header(b: Seq<u8>)
    requires
        b.len() < 20,
    ensures
        spec_map(b) == Err::<MapModel, Error>(Error::Read),
{
}

/// The header fields decide in strict declaration order: each field's
/// failure surfaces only when every field before it succeeded, whatever
/// the later bytes hold — the version and filename decide on any source
/// shorter than 20 bytes, the filename's encoding before the defaults
/// are looked at, each default before the next, and the seven plain
/// header words before anything after the reserved gap.
pub proof fn lemma_header_declaration_order(b: Seq<u8>)
    ensures
        b.len() < 20 ==> spec_map(b) == Err::<MapModel, Error>(Error::Read),
        b.len() >= 20 && utf8_decode(b.subrange(4, 20)) is None ==> spec_map(b) == Err::<
            MapModel,
            Error,
        >(Error::Format(Format::Data)),
        b.len() >= 20 && utf8_decode(b.subrange(4, 20)) is Some && b.len() < 24 ==> spec_map(b)
            == Err::<MapModel, Error>(Error::Read),
        b.len() >= 24 && utf8_decode(b.subrange(4, 20)) is Some && !Coordinate::valid_raw(
            be32(b, 20) as u32,
        ) ==> spec_map(b) == Err::<MapModel, Error>(Error::Format(Format::Data)),
        b.len() >= 24 && utf8_decode(b.subrange(4, 20)) is Some && Coordinate::valid_raw(
            be32(b, 20) as u32,
        ) && b.len() < 28 ==> spec_map(b) == Err::<MapModel, Error>(Error::Read),
        b.len() >= 28 && utf8_decode(b.subrange(4, 20)) is Some && Coordinate::valid_raw(
            be32(b, 20) as u32,
        ) && !Elevation::valid_raw(be32(b, 24) as u32) ==> spec_map(b) == Err::<MapModel, Error>(
            Error::Format(Format::Data),
        ),
        b.len() >= 28 && utf8_decode(b.subrange(4, 20)) is Some && Coordinate::valid_raw(
            be32(b, 20) as u32,
        ) && Elevation::valid_raw(be32(b, 24) as u32) && b.len() < 32 ==> spec_map(b) == Err::<
            MapModel,
            Error,
        >(Error::Read),
        b.len() >= 32 && utf8_decode(b.subrange(4, 20)) is Some && Coordinate::valid_raw(
            be32(b, 20) as u32,
        ) && Elevation::valid_raw(be32(b, 24) as u32) && !Orientation::valid_raw(
            be32(b, 28) as u32,
        ) ==> spec_map(b) == Err::<MapModel, Error>(Error::Format(Format::Data)),
        b.len() >= 32 && utf8_decode(b.subrange(4, 20)) is Some && Coordinate::valid_raw(
            be32(b, 20) as u32,
        ) && Elevation::valid_raw(be32(b, 24) as u32) && Orientation::valid_raw(
            be32(b, 28) as u32,
        ) && b.len() < 60 ==> spec_map(b) == Err::<MapModel, Error>(Error::Read),
{
}

/// Parsing is a pure function of the bytes: any two parse results that
/// meet the parse contract on identical byte buffers model the same map.
pub proof fn lemma_parse_deterministic(
    b1: Seq<u8>,
    b2: Seq<u8>,
    r1: Result<MapFile, Error>,
    r2: Result<MapFile, Error>,
)
    requires
        b1 == b2,
        result_model(r1) == spec_map(b1),
        result_model(r2) == spec_map(b2),
    ensures
        result_model(r1) == result_model(r2),
{
}

} // verus!
