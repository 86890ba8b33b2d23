//! Terrain material classification: a nearest-neighbour Voronoi lookup from
//! a fixed codebook of biome anchor points in elevation/rainfall/temperature
//! space.
//!
//! Coordinates are quarter-unit fixed point: every anchor of the codebook
//! lies on a quarter-unit grid, so a point's distance comparisons against
//! the anchors are exact integer arithmetic on squared distances.  Ties go
//! to the anchor latest in the codebook.

use vstd::prelude::*;

verus! {

/// Largest coordinate magnitude the classifier accepts, in quarter units;
/// keeps every squared distance inside `i64`.
pub const TERRAIN_COORD_LIMIT: i64 = 1000000;

/// A terrain material.
#[derive(Clone, Copy, PartialEq, Eq, Structural, Debug)]
pub enum Material {
    Stone,
    Gravelstone,
    Graveldirt,
    Dirt,
    Grass,
    Flowergrass,
    Greystone,
    Redstone,
    Blackstone,
    GreySand,
    Sand,
    Redsand,
    Mud,
    Lava,
    Ice,
    Snow,
}

/// A point of elevation/rainfall/temperature space, in quarter units.
#[derive(Clone, Copy, PartialEq, Eq, Structural, Debug)]
pub struct TerrainPoint {
    pub elevation: i64,
    pub rainfall: i64,
    pub temperature: i64,
}

/// One Voronoi cell: an anchor point and the material of everything
/// nearest to it.
#[derive(Clone, Copy, PartialEq, Eq, Structural, Debug)]
pub struct VoronoiInfo {
    pub location: TerrainPoint,
    pub material: Material,
}

/// Holds when every coordinate of `p` is within the accepted range.
pub open spec fn bounded_point(p: TerrainPoint) -> bool {
    &&& -TERRAIN_COORD_LIMIT <= p.elevation <= TERRAIN_COORD_LIMIT
    &&& -TERRAIN_COORD_LIMIT <= p.rainfall <= TERRAIN_COORD_LIMIT
    &&& -TERRAIN_COORD_LIMIT <= p.temperature <= TERRAIN_COORD_LIMIT
}

/// Squared Euclidean distance between two points, exact.
pub open spec fn dist2(a: TerrainPoint, b: TerrainPoint) -> int {
    (a.elevation - b.elevation) * (a.elevation - b.elevation) + (a.rainfall - b.rainfall) * (
    a.rainfall - b.rainfall) + (a.temperature - b.temperature) * (a.temperature - b.temperature)
}

/// The fixed codebook of biome anchors, in codebook order.
pub open spec fn voronoi_anchors() -> Seq<VoronoiInfo> {
    Seq::empty()
        .push(VoronoiInfo { location: TerrainPoint { elevation: 0, rainfall: -12i64, temperature: 0 }, material: Material::Stone })
        .push(VoronoiInfo { location: TerrainPoint { elevation: 0, rainfall: -4i64, temperature: 0 }, material: Material::Gravelstone })
        .push(VoronoiInfo { location: TerrainPoint { elevation: 0, rainfall: 8, temperature: 0 }, material: Material::Graveldirt })
        .push(VoronoiInfo { location: TerrainPoint { elevation: 0, rainfall: 10, temperature: 0 }, material: Material::Dirt })
        .push(VoronoiInfo { location: TerrainPoint { elevation: 0, rainfall: 14, temperature: 0 }, material: Material::Grass })
        .push(VoronoiInfo { location: TerrainPoint { elevation: 0, rainfall: 19, temperature: 0 }, material: Material::Flowergrass })
        .push(VoronoiInfo { location: TerrainPoint { elevation: 0, rainfall: -14i64, temperature: -16i64 }, material: Material::Greystone })
        .push(VoronoiInfo { location: TerrainPoint { elevation: 0, rainfall: 10, temperature: 16 }, material: Material::Redstone })
        .push(VoronoiInfo { location: TerrainPoint { elevation: 0, rainfall: -8i64, temperature: 16 }, material: Material::Blackstone })
        .push(VoronoiInfo { location: TerrainPoint { elevation: 0, rainfall: 0, temperature: 16 }, material: Material::GreySand })
        .push(VoronoiInfo { location: TerrainPoint { elevation: 0, rainfall: 8, temperature: 20 }, material: Material::Sand })
        .push(VoronoiInfo { location: TerrainPoint { elevation: 0, rainfall: 10, temperature: 16 }, material: Material::Redsand })
        .push(VoronoiInfo { location: TerrainPoint { elevation: 0, rainfall: 15, temperature: 20 }, material: Material::Mud })
        .push(VoronoiInfo { location: TerrainPoint { elevation: 0, rainfall: -8i64, temperature: 40 }, material: Material::Lava })
        .push(VoronoiInfo { location: TerrainPoint { elevation: 0, rainfall: 20, temperature: -24i64 }, material: Material::Ice })
        .push(VoronoiInfo { location: TerrainPoint { elevation: 4, rainfall: 10, temperature: -20i64 }, material: Material::Snow })
}

/// Index of the winning anchor among the first `k`: the nearest one, and
/// on a tie of squared distances the latest.
pub open spec fn best_anchor_index(y: TerrainPoint, k: int) -> int
    decreases k,
{
    if k <= 1 {
        0
    } else {
        let prev = best_anchor_index(y, k - 1);
        if dist2(voronoi_anchors()[k - 1].location, y) <= dist2(
            voronoi_anchors()[prev].location,
            y,
        ) {
            k - 1
        } else {
            prev
        }
    }
}

/// The material of the winning anchor over the whole codebook.
pub open spec fn voronoi_material_spec(y: TerrainPoint) -> Material {
    voronoi_anchors()[best_anchor_index(y, 16)].material
}

/// The winner among the first `k` anchors is a valid index, no anchor is
/// strictly nearer, and every later anchor is strictly farther (ties go to
/// the latest).
pub proof fn lemma_best_anchor_minimal(y: TerrainPoint, k: int)
    requires
        1 <= k <= 16,
    ensures
        0 <= best_anchor_index(y, k) < k,
        forall|i: int|
            0 <= i < k ==> dist2(voronoi_anchors()[best_anchor_index(y, k)].location, y) <= dist2(
                #[trigger] voronoi_anchors()[i].location,
                y,
            ),
        forall|j: int|
            best_anchor_index(y, k) < j < k ==> dist2(#[trigger] voronoi_anchors()[j].location, y)
                > dist2(voronoi_anchors()[best_anchor_index(y, k)].location, y),
    decreases k,
{
    if k > 1 {
        lemma_best_anchor_minimal(y, k - 1);
    }
}

impl VoronoiInfo {
    /// Pair a material with its anchor location, given in quarter units of
    /// elevation, rainfall and temperature.
    pub fn new(mat: Material, elev: i64, rain: i64, temp: i64) -> (r: VoronoiInfo)
        ensures
            r.material == mat,
            r.location == (TerrainPoint { elevation: elev, rainfall: rain, temperature: temp }),
    {
        VoronoiInfo {
            location: TerrainPoint { elevation: elev, rainfall: rain, temperature: temp },
            material: mat,
        }
    }

    /// Classify a point of climate space: the material of the nearest
    /// anchor of the codebook, ties going to the anchor latest in it.
    pub fn terraingen_voronoi(y: TerrainPoint) -> (material: Material)
        requires
            bounded_point(y),
        ensures
            material == voronoi_material_spec(y),
            forall|i: int|
                0 <= i < 16 ==> dist2(
                    voronoi_anchors()[best_anchor_index(y, 16)].location,
                    y,
                ) <= dist2(#[trigger] voronoi_anchors()[i].location, y),
    {
        let first = voronoi_anchor(0);
        let mut best: usize = 0;
        let mut best_d: i64 = dist2_exec(&first.location, &y);
        let mut i: usize = 1;
        while i < 16
            invariant
                1 <= i <= 16,
                best < i,
                bounded_point(y),
                best as int == best_anchor_index(y, i as int),
                best_d == dist2(voronoi_anchors()[best as int].location, y),
            decreases 16 - i,
        {
            let a = voronoi_anchor(i);
            let d = dist2_exec(&a.location, &y);
            if d <= best_d {
                best_d = d;
                best = i;
            }
            i = i + 1;
        }
        proof {
            lemma_best_anchor_minimal(y, 16);
        }
        let winner = voronoi_anchor(best);
        winner.material
    }
}

/// The `i`th anchor of the codebook.
pub fn voronoi_anchor(i: usize) -> (r: VoronoiInfo)
    requires
        i < 16,
    ensures
        r == voronoi_anchors()[i as int],
        bounded_point(r.location),
{
    if i == 0 {
        VoronoiInfo::new(Material::Stone, 0, -12, 0)
    } else if i == 1 {
        VoronoiInfo::new(Material::Gravelstone, 0, -4, 0)
    } else if i == 2 {
        VoronoiInfo::new(Material::Graveldirt, 0, 8, 0)
    } else if i == 3 {
        VoronoiInfo::new(Material::Dirt, 0, 10, 0)
    } else if i == 4 {
        VoronoiInfo::new(Material::Grass, 0, 14, 0)
    } else if i == 5 {
        VoronoiInfo::new(Material::Flowergrass, 0, 19, 0)
    } else if i == 6 {
        VoronoiInfo::new(Material::Greystone, 0, -14, -16)
    } else if i == 7 {
        VoronoiInfo::new(Material::Redstone, 0, 10, 16)
    } else if i == 8 {
        VoronoiInfo::new(Material::Blackstone, 0, -8, 16)
    } else if i == 9 {
        VoronoiInfo::new(Material::GreySand, 0, 0, 16)
    } else if i == 10 {
        VoronoiInfo::new(Material::Sand, 0, 8, 20)
    } else if i == 11 {
        VoronoiInfo::new(Material::Redsand, 0, 10, 16)
    } else if i == 12 {
        VoronoiInfo::new(Material::Mud, 0, 15, 20)
    } else if i == 13 {
        VoronoiInfo::new(Material::Lava, 0, -8, 40)
    } else if i == 14 {
        VoronoiInfo::new(Material::Ice, 0, 20, -24)
    } else {
        VoronoiInfo::new(Material::Snow, 4, 10, -20)
    }
}

/// Exact squared distance between two bounded points.
fn dist2_exec(a: &TerrainPoint, b: &TerrainPoint) -> (r: i64)
    requires
        bounded_point(*a),
        bounded_point(*b),
    ensures
        r == dist2(*a, *b),
{
    let de = a.elevation - b.elevation;
    let dr = a.rainfall - b.rainfall;
    let dt = a.temperature - b.temperature;
    proof {
        assert((-4000000000000 <= de * de <= 4000000000000 && -4000000000000 <= dr * dr
            <= 4000000000000 && -4000000000000 <= dt * dt <= 4000000000000)) by (nonlinear_arith)
            requires
                -2000000 <= de <= 2000000,
                -2000000 <= dr <= 2000000,
                -2000000 <= dt <= 2000000,
        ;
    }
    de * de + dr * dr + dt * dt
}

} // verus!
