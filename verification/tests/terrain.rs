use voxel_render::terrain::{Material, TerrainPoint, VoronoiInfo, TERRAIN_COORD_LIMIT};

fn point(elevation: i64, rainfall: i64, temperature: i64) -> TerrainPoint {
    TerrainPoint { elevation, rainfall, temperature }
}

#[test]
fn voronoi_info_new_stores_location_and_material() {
    let v = VoronoiInfo::new(Material::Snow, 4, 10, -20);
    assert_eq!(v.material, Material::Snow);
    assert_eq!(v.location, point(4, 10, -20));
}

#[test]
fn classification_at_anchor_points() {
    // Points lying exactly on an anchor classify as that anchor's
    // material (coordinates in quarter units).
    assert_eq!(VoronoiInfo::terraingen_voronoi(point(0, 14, 0)), Material::Grass);
    assert_eq!(VoronoiInfo::terraingen_voronoi(point(0, -12, 0)), Material::Stone);
    assert_eq!(VoronoiInfo::terraingen_voronoi(point(4, 10, -20)), Material::Snow);
}

#[test]
fn classification_between_anchors() {
    assert_eq!(VoronoiInfo::terraingen_voronoi(point(0, 0, 0)), Material::Gravelstone);
    assert_eq!(VoronoiInfo::terraingen_voronoi(point(8, 4, -8)), Material::Graveldirt);
    assert_eq!(VoronoiInfo::terraingen_voronoi(point(0, -4, 28)), Material::Lava);
}

#[test]
fn equidistant_points_take_the_later_anchor() {
    // Graveldirt (0, 8, 0) and Dirt (0, 10, 0) are both one quarter unit
    // from (0, 9, 0); the later codebook entry wins.
    assert_eq!(VoronoiInfo::terraingen_voronoi(point(0, 9, 0)), Material::Dirt);
    // Redstone and Redsand share the anchor (0, 10, 16); Redsand comes
    // later in the codebook, so Redstone is never produced.
    assert_eq!(VoronoiInfo::terraingen_voronoi(point(0, 10, 16)), Material::Redsand);
}

#[test]
fn classification_at_coordinate_limit() {
    let far = point(TERRAIN_COORD_LIMIT, TERRAIN_COORD_LIMIT, TERRAIN_COORD_LIMIT);
    assert_eq!(VoronoiInfo::terraingen_voronoi(far), Material::Mud);
    let far_negative = point(-TERRAIN_COORD_LIMIT, -TERRAIN_COORD_LIMIT, -TERRAIN_COORD_LIMIT);
    // Nearest to heavy negative rainfall and temperature: Greystone.
    assert_eq!(VoronoiInfo::terraingen_voronoi(far_negative), Material::Greystone);
}
