use island_map::beach::BeachLayer;
use island_map::geom::WorldPoint;
use island_map::grass::GrassLayer;
use island_map::rng::SeedRng;
use island_map::tileset::{CharacterAction, TileIndex};
use island_map::world_map::Layer;

#[test]
fn atlas_indices_match_the_tile_sheet() {
    assert_eq!(TileIndex::Sand.atlas_index(), 70);
    assert_eq!(TileIndex::SandSpotted1.atlas_index(), 72);
    assert_eq!(TileIndex::GrassDark.atlas_index(), 66);
    assert_eq!(TileIndex::GrassLight.atlas_index(), 67);
    assert_eq!(TileIndex::Ocean1.atlas_index(), 1164);
    assert_eq!(TileIndex::Ocean16.atlas_index(), 1359);
    // The edge and corner sprites sit on a 64-column sheet.
    assert_eq!(TileIndex::SandEdgeTop.atlas_index(), 28 * 64 + 7);
    assert_eq!(TileIndex::SandEdgeBottom.atlas_index(), 32 * 64 + 7);
    assert_eq!(TileIndex::SandEdgeLeft.atlas_index(), 30 * 64 + 5);
    assert_eq!(TileIndex::SandEdgeRight.atlas_index(), 30 * 64 + 9);
    assert_eq!(TileIndex::SandCornerTopLeft.atlas_index(), 28 * 64 + 6);
    assert_eq!(TileIndex::SandCornerBottomRight.atlas_index(), 32 * 64 + 8);
}

#[test]
fn seeded_rng_is_reproducible() {
    let mut a = SeedRng::new(12345);
    let mut b = SeedRng::new(12345);
    for _ in 0..100 {
        assert_eq!(a.pick(1000), b.pick(1000));
    }
    let mut c = SeedRng::new(54321);
    let first: Vec<u32> = (0..8).map(|_| a.pick(1000)).collect();
    let other: Vec<u32> = (0..8).map(|_| c.pick(1000)).collect();
    assert_ne!(first, other);
}

#[test]
fn rng_draws_stay_below_the_bound() {
    let mut rng = SeedRng::new(0);
    for n in [1u32, 2, 3, 7, 64] {
        for _ in 0..50 {
            assert!(rng.pick(n) < n);
        }
    }
}

#[test]
fn beach_catalog_separates_roles() {
    let cat = BeachLayer::catalog();
    assert_eq!(
        cat.centers,
        vec![
            TileIndex::Sand,
            TileIndex::SandSpotted1,
            TileIndex::SandSpotted2,
            TileIndex::SandSpotted3,
        ]
    );
    assert_eq!(cat.sprites.top_edge, TileIndex::SandEdgeTop);
    assert_eq!(cat.sprites.bottom_left_corner, TileIndex::SandCornerBottomLeft);
}

#[test]
fn grass_catalog_uses_one_boundary_sprite() {
    let cat = GrassLayer::catalog();
    assert_eq!(cat.centers.len(), 4);
    assert_eq!(cat.sprites.top_edge, TileIndex::GrassDark);
    assert_eq!(cat.sprites.bottom_edge, TileIndex::GrassDark);
    assert_eq!(cat.sprites.top_left_corner, TileIndex::GrassDark);
}

#[test]
fn beach_new_advances_the_seed() {
    let mut seed = 10u64;
    let first = BeachLayer::new(&mut seed, 12, 12).unwrap();
    assert_eq!(seed, 11);
    let second = BeachLayer::new(&mut seed, 12, 12).unwrap();
    assert_eq!(seed, 12);
    // Layers from consecutive seeds are built; the same seed rebuilds the
    // same layer.
    let mut again = 10u64;
    let repeat = BeachLayer::new(&mut again, 12, 12).unwrap();
    for y in 0..12 {
        for x in 0..12 {
            assert_eq!(first.get_tile(x, y), repeat.get_tile(x, y));
        }
    }
    assert_eq!(first.center, repeat.center);
    let _ = second;
}

#[test]
fn grass_altitude_stacks() {
    let mut seed = 1u64;
    let ground = GrassLayer::new(&mut seed, 8, 8, None).unwrap();
    assert_eq!(ground.altitude, 0);
    let upper = GrassLayer::new(&mut seed, 8, 8, Some(&Layer::Grass(ground))).unwrap();
    assert_eq!(upper.altitude, 1);
    let mut seed2 = 9u64;
    let beach = BeachLayer::new(&mut seed2, 8, 8).unwrap();
    let over_beach = GrassLayer::new(&mut seed, 8, 8, Some(&Layer::Beach(beach))).unwrap();
    assert_eq!(over_beach.altitude, 0);
}

#[test]
fn beach_walkability_follows_presence() {
    let mut seed = 4u64;
    let beach = BeachLayer::new(&mut seed, 16, 16).unwrap();
    // Off the grid is walkable by convention.
    assert!(beach.is_walkable(WorldPoint { x: -10, y: 8 }));
    assert!(beach.is_walkable(WorldPoint { x: 16 * 16 + 1, y: 8 }));
    // Over a cell: walkable exactly when the layer leaves it empty.
    for y in 0..16i64 {
        for x in 0..16i64 {
            let pos = WorldPoint { x: x * 16 + 8, y: y * 16 + 8 };
            let empty = beach.get_tile(x as usize, y as usize).is_none();
            assert_eq!(beach.is_walkable(pos), empty);
        }
    }
}

#[test]
fn water_only_allows_idling() {
    assert_eq!(TileIndex::Ocean1.move_action(), CharacterAction::IDLE);
    assert_eq!(TileIndex::Ocean16.move_action(), CharacterAction::IDLE);
    assert_eq!(TileIndex::Sand.move_action(), CharacterAction::WALKING);
    assert_eq!(TileIndex::GrassLight.move_action(), CharacterAction::WALKING);
    assert_eq!(TileIndex::SandEdgeTop.move_action(), CharacterAction::WALKING);
}

#[test]
fn grass_generation_is_reproducible() {
    let mut s1 = 21u64;
    let mut s2 = 21u64;
    let g1 = GrassLayer::new(&mut s1, 14, 14, None).unwrap();
    let g2 = GrassLayer::new(&mut s2, 14, 14, None).unwrap();
    for y in 0..14 {
        for x in 0..14 {
            assert_eq!(g1.get_tile(x, y), g2.get_tile(x, y));
        }
    }
    assert_eq!(g1.center, g2.center);
    let (lo, hi) = g1.get_bounds();
    assert_eq!((lo.x, lo.y), (0, 0));
    assert_eq!((hi.x, hi.y), (14 * 16, 14 * 16));
}
