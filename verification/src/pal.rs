use vstd::prelude::*;

use crate::geometry::Scaled;
use crate::source::Source;

verus! {

/// How a palette decode can fail. Unlike the other formats, out-of-range
/// channels are not an error here: they only mark the entry unused.
#[derive(Clone, Copy, Debug, PartialEq, Eq, Structural)]
pub enum Error {
    /// The source held fewer than the 768 bytes the table needs.
    Read,
    /// An internal conversion that is expected to be infallible failed.
    Source,
}

/// One palette color: three channels, each scaled to `[0, 64)`.
#[derive(Clone, Copy, Debug, PartialEq, Eq, Structural)]
pub struct Pixel {
    pub red: Scaled,
    pub green: Scaled,
    pub blue: Scaled,
}

/// A fixed table of 256 optional colors; `None` marks an unused slot.
#[derive(Debug, PartialEq)]
pub struct Palette {
    pub colors: Vec<Option<Pixel>>,
}

/// A channel byte wrapped in its `[0, 64)` scale.
pub open spec fn spec_channel(v: u8) -> Scaled {
    Scaled { value: v, start: 0, end: 64 }
}

/// What palette entry `k` decodes to: the 3-byte big-endian (R, G, B)
/// triple at offset `3 * k`, present exactly when every channel is below
/// 64.
pub open spec fn spec_entry(b: Seq<u8>, k: int) -> Option<Pixel> {
    let red = b[3 * k];
    let green = b[3 * k + 1];
    let blue = b[3 * k + 2];
    if red < 64 && green < 64 && blue < 64 {
        Some(
            Pixel {
                red: spec_channel(red),
                green: spec_channel(green),
                blue: spec_channel(blue),
            },
        )
    } else {
        None
    }
}

/// What a palette parse of `b` yields: 256 consecutive triples from
/// offset 0, or a `Read` failure when the source is shorter than 768
/// bytes.
pub open spec fn spec_palette(b: Seq<u8>) -> Result<Seq<Option<Pixel>>, Error> {
    if b.len() < 768 {
        Err(Error::Read)
    } else {
        Ok(Seq::new(256, |k: int| spec_entry(b, k)))
    }
}

/// The palette a parse result models, for stating the parse contract.
pub open spec fn result_model(r: Result<Palette, Error>) -> Result<Seq<Option<Pixel>>, Error> {
    match r {
        Ok(p) => Ok(p.colors@),
        Err(e) => Err(e),
    }
}

/// Reads exactly 256 consecutive 3-byte big-endian (R, G, B) triples from
/// offset 0. Each channel in `[0, 64)` yields a scaled pixel; any channel
/// outside that range marks the whole entry absent. A short source
/// surfaces as `Read`.
pub fn palette(source: &mut Source) -> (r: Result<Palette, Error>)
    ensures
        final(source).bytes@ == old(source).bytes@,
        result_model(r) == spec_palette(old(source).bytes@),
{
    source.seek_start();
    let mut colors: Vec<Option<Pixel>> = Vec::new();
    let mut k: usize = 0;
    while k < 256
        invariant
            k <= 256,
            source.bytes@ == old(source).bytes@,
            source.pos == 3 * k,
            source.pos <= source.bytes@.len(),
            colors@.len() == k,
            forall|i: int| 0 <= i < k ==> colors@[i] == spec_entry(source.bytes@, i),
        decreases 256 - k,
    {
        let red = match source.read_u8() {
            Ok(v) => v,
            Err(_) => {
                return Err(Error::Read);
            },
        };
        let green = match source.read_u8() {
            Ok(v) => v,
            Err(_) => {
                return Err(Error::Read);
            },
        };
        let blue = match source.read_u8() {
            Ok(v) => v,
            Err(_) => {
                return Err(Error::Read);
            },
        };
        if red < 64 && green < 64 && blue < 64 {
            colors.push(
                Some(
                    Pixel {
                        red: Scaled { value: red, start: 0, end: 64 },
                        green: Scaled { value: green, start: 0, end: 64 },
                        blue: Scaled { value: blue, start: 0, end: 64 },
                    },
                ),
            );
        } else {
            colors.push(None);
        }
        k = k + 1;
    }
    assert(colors@ =~= Seq::new(256, |i: int| spec_entry(source.bytes@, i)));
    Ok(Palette { colors })
}

/// Each palette entry depends on its own three bytes alone: changing one
/// channel of entry `k` to an out-of-range value makes exactly that
/// entry absent and leaves every other entry unchanged.
pub proof fn lemma_entry_locality(b1: Seq<u8>, b2: Seq<u8>, k: int, channel: int)
    requires
        b1.len() >= 768,
        b2.len() == b1.len(),
        0 <= k < 256,
        3 * k <= channel < 3 * k + 3,
        b2[channel] >= 64,
        forall|i: int| 0 <= i < b1.len() && i != channel ==> b1[i] == b2[i],
    ensures
        spec_palette(b2) matches Ok(p2) && p2[k] is None,
        forall|j: int|
            0 <= j < 256 && j != k ==> spec_palette(b2)->Ok_0[j] == spec_palette(b1)->Ok_0[j],
{
    assert(spec_entry(b2, k) is None);
    assert forall|j: int| 0 <= j < 256 && j != k implies spec_palette(b2)->Ok_0[j] == spec_palette(
        b1,
    )->Ok_0[j] by {
        assert(spec_entry(b2, j) == spec_entry(b1, j));
    }
}

/// Palette parsing is a pure function of the bytes: any two parse
/// results that meet the parse contract on identical byte buffers model
/// the same palette.
pub proof fn lemma_palette_deterministic(
    b1: Seq<u8>,
    b2: Seq<u8>,
    r1: Result<Palette, Error>,
    r2: Result<Palette, Error>,
)
    requires
        b1 == b2,
        result_model(r1) == spec_palette(b1),
        result_model(r2) == spec_palette(b2),
    ensures
        result_model(r1) == result_model(r2),
{
}

} // verus!
