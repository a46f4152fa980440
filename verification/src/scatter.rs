//! Procedural scatter placement.
//!
//! At scene-build time a configured number of placements is drawn from a
//! seeded random stream: position inside a bounding rectangle, scale
//! inside a range, rotation inside one turn. Every placement is a pure
//! function of the configuration (seed included), so a fixed seed
//! reproduces the same layout exactly.
use vstd::prelude::*;

use crate::rng::rng_word;
use crate::rng::SeededRng;
use crate::trig::FX_TAU;
use crate::ConfigurationError;

verus! {

/// Magnitude cap on the scatter rectangle's coordinates.
pub const SCATTER_POS_LIMIT: i64 = 0x100_0000;

/// Cap on scatter scales (2.0, fixed point).
pub const SCATTER_SCALE_LIMIT: i64 = 131072;

/// Cap on the number of scatter pairs.
pub const SCATTER_COUNT_LIMIT: usize = 0x10_0000;

/// How the scatter generator is configured: how many pairs, where, how
/// large, and from which seed.
#[derive(Clone, Copy, Debug, PartialEq, Eq, Structural)]
pub struct ScatterConfig {
    /// Number of placements; each placement yields a crossed pair of
    /// entities.
    pub count: usize,
    pub x_min: i64,
    pub x_max: i64,
    pub z_min: i64,
    pub z_max: i64,
    pub scale_min: i64,
    pub scale_max: i64,
    pub seed: u64,
}

/// One scatter placement: position on the ground plane, uniform scale,
/// and rotation about `+y`.
#[derive(Clone, Copy, Debug, PartialEq, Eq, Structural)]
pub struct Placement {
    pub x: i64,
    pub z: i64,
    pub scale: i64,
    pub rotation: i64,
}

pub open spec fn region_valid(c: ScatterConfig) -> bool {
    &&& -SCATTER_POS_LIMIT <= c.x_min < c.x_max <= SCATTER_POS_LIMIT
    &&& -SCATTER_POS_LIMIT <= c.z_min < c.z_max <= SCATTER_POS_LIMIT
}

pub open spec fn scale_valid(c: ScatterConfig) -> bool {
    0 < c.scale_min < c.scale_max <= SCATTER_SCALE_LIMIT
}

pub open spec fn scatter_valid(c: ScatterConfig) -> bool {
    &&& region_valid(c)
    &&& scale_valid(c)
    &&& c.count <= SCATTER_COUNT_LIMIT
}

impl ScatterConfig {
    /// Validate a scatter configuration; an empty rectangle or an empty
    /// scale range aborts the scene build before anything is placed.
    pub fn new(
        count: usize,
        x_min: i64,
        x_max: i64,
        z_min: i64,
        z_max: i64,
        scale_min: i64,
        scale_max: i64,
        seed: u64,
    ) -> (r: Result<ScatterConfig, ConfigurationError>)
        ensures
            ({
                let c = ScatterConfig { count, x_min, x_max, z_min, z_max, scale_min, scale_max, seed };
                &&& (scatter_valid(c) ==> r == Ok::<ScatterConfig, ConfigurationError>(c))
                &&& (!(region_valid(c) && count <= SCATTER_COUNT_LIMIT) ==> r == Err::<
                    ScatterConfig,
                    ConfigurationError,
                >(ConfigurationError::ScatterRegion))
                &&& (region_valid(c) && count <= SCATTER_COUNT_LIMIT && !scale_valid(c) ==> r
                    == Err::<ScatterConfig, ConfigurationError>(ConfigurationError::ScatterScale))
                &&& (r is Ok ==> scatter_valid(r->Ok_0) && r->Ok_0 == c)
            }),
    {
        let region_ok = -SCATTER_POS_LIMIT <= x_min && x_min < x_max && x_max <= SCATTER_POS_LIMIT
            && -SCATTER_POS_LIMIT <= z_min && z_min < z_max && z_max <= SCATTER_POS_LIMIT && count
            <= SCATTER_COUNT_LIMIT;
        if !region_ok {
            Err(ConfigurationError::ScatterRegion)
        } else if !(0 < scale_min && scale_min < scale_max && scale_max <= SCATTER_SCALE_LIMIT) {
            Err(ConfigurationError::ScatterScale)
        } else {
            Ok(ScatterConfig { count, x_min, x_max, z_min, z_max, scale_min, scale_max, seed })
        }
    }

    /// The default layout: 120 pairs over a 16x16 ground patch, scales
    /// between 0.4 and 1.0.
    pub fn with_defaults(seed: u64) -> (r: ScatterConfig)
        ensures
            r == (ScatterConfig {
                count: 120usize,
                x_min: -524288i64,
                x_max: 524288i64,
                z_min: -524288i64,
                z_max: 524288i64,
                scale_min: 26214i64,
                scale_max: 65536i64,
                seed,
            }),
            scatter_valid(r),
    {
        ScatterConfig {
            count: 120,
            x_min: -524288,
            x_max: 524288,
            z_min: -524288,
            z_max: 524288,
            scale_min: 26214,
            scale_max: 65536,
            seed,
        }
    }
}

/// A random word folded into the half-open range `[lo, hi)`.
pub open spec fn sample_spec(w: u64, lo: int, hi: int) -> int {
    lo + (w as int) % (hi - lo)
}

fn sample_range(w: u64, lo: i64, hi: i64) -> (r: i64)
    requires
        -0x4000_0000 <= lo < hi <= 0x4000_0000,
    ensures
        r == sample_spec(w, lo as int, hi as int),
        lo <= r < hi,
{
    let span: u64 = (hi - lo) as u64;
    let m: u64 = w % span;
    lo + (m as i64)
}

/// The `k`-th placement of a configuration: four consecutive words of
/// the seed's stream select position, scale, and rotation.
pub open spec fn placement_spec(c: ScatterConfig, k: int) -> Placement {
    Placement {
        x: sample_spec(rng_word(c.seed, (4 * k) as u64), c.x_min as int, c.x_max as int) as i64,
        z: sample_spec(rng_word(c.seed, (4 * k + 1) as u64), c.z_min as int, c.z_max as int) as i64,
        scale: sample_spec(
            rng_word(c.seed, (4 * k + 2) as u64),
            c.scale_min as int,
            c.scale_max as int,
        ) as i64,
        rotation: sample_spec(rng_word(c.seed, (4 * k + 3) as u64), 0, FX_TAU as int) as i64,
    }
}

/// Whether a placement lies inside its configuration's ranges.
pub open spec fn placement_in_range(c: ScatterConfig, p: Placement) -> bool {
    &&& c.x_min <= p.x < c.x_max
    &&& c.z_min <= p.z < c.z_max
    &&& c.scale_min <= p.scale < c.scale_max
    &&& 0 <= p.rotation < FX_TAU
}

/// Scatter is reproducible: any two placement lists that satisfy the
/// generator's contract for the same configuration are equal, because
/// each entry is pinned to `placement_spec` of the shared seed.
pub proof fn lemma_scatter_reproducible(c: ScatterConfig, r1: Seq<Placement>, r2: Seq<Placement>)
    requires
        r1.len() == c.count,
        r2.len() == c.count,
        forall|k: int| 0 <= k < c.count ==> #[trigger] r1[k] == placement_spec(c, k),
        forall|k: int| 0 <= k < c.count ==> #[trigger] r2[k] == placement_spec(c, k),
    ensures
        r1 == r2,
{
    assert(r1 =~= r2);
}

/// Draw every placement of the configuration from its seed's stream.
/// The result is a function of the configuration alone: the same seed
/// and count always reproduce the same placements.
pub fn generate_placements(c: &ScatterConfig) -> (r: Vec<Placement>)
    requires
        scatter_valid(*c),
    ensures
        r@.len() == c.count,
        forall|k: int|
            0 <= k < c.count ==> #[trigger] r@[k] == placement_spec(*c, k) && placement_in_range(
                *c,
                r@[k],
            ),
{
    let mut rng = SeededRng::new(c.seed);
    let mut out: Vec<Placement> = Vec::new();
    let mut k: usize = 0;
    while k < c.count
        invariant
            scatter_valid(*c),
            k <= c.count,
            out@.len() == k,
            rng.seed() == c.seed,
            rng.drawn() as int == 4 * k,
            forall|j: int|
                0 <= j < k ==> #[trigger] out@[j] == placement_spec(*c, j) && placement_in_range(
                    *c,
                    out@[j],
                ),
        decreases c.count - k,
    {
        let wx = rng.next_word();
        let wz = rng.next_word();
        let ws = rng.next_word();
        let wr = rng.next_word();
        let p = Placement {
            x: sample_range(wx, c.x_min, c.x_max),
            z: sample_range(wz, c.z_min, c.z_max),
            scale: sample_range(ws, c.scale_min, c.scale_max),
            rotation: sample_range(wr, 0, FX_TAU),
        };
        out.push(p);
        k = k + 1;
    }
    out
}

} // verus!
