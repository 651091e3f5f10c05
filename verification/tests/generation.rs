use island_map::beach::BeachLayer;
use island_map::blob::{GrowConfig, grow_blob};
use island_map::catalog::TileCatalog;
use island_map::layer::generate_layer;
use island_map::gapfill::fill_single_tile_gaps;
use island_map::grid::TileGrid;
use island_map::layer::ConfigError;
use island_map::rng::SeedRng;
use island_map::tileset::TileIndex;
use island_map::world_map::WorldMap;

fn occupied_count(grid: &TileGrid) -> usize {
    let mut n = 0;
    for y in 0..grid.height {
        for x in 0..grid.width {
            if grid.get(x, y).is_some() {
                n += 1;
            }
        }
    }
    n
}

#[test]
fn deterministic_worlds_match() {
    let w1 = WorldMap::new(32, 24, 7).unwrap();
    let w2 = WorldMap::new(32, 24, 7).unwrap();
    assert_eq!(w1.start_location, w2.start_location);
    assert_eq!(w1.layers.len(), w2.layers.len());
    for l in 0..w1.layers.len() {
        for y in 0..24 {
            for x in 0..32 {
                assert_eq!(w1.tile_at(l, x, y), w2.tile_at(l, x, y));
            }
        }
    }
}

#[test]
fn different_seeds_still_seed_the_blob() {
    for seed in [0u64, 1, 42, 0xFFFF_FFFF_FFFF_FFFE] {
        let wm = WorldMap::new(16, 16, seed).unwrap();
        // The start location is a cell center: 16 * cell + 8 on each axis.
        assert_eq!((wm.start_location.x - 8) % 16, 0);
        assert_eq!((wm.start_location.y - 8) % 16, 0);
    }
}

#[test]
fn grow_seed_cell_is_land() {
    let cfg = GrowConfig {
        width: 10,
        height: 10,
        sub_x: 0,
        sub_y: 0,
        sub_w: 5,
        sub_h: 5,
        tolerance: 32,
    };
    let mut rng = SeedRng::new(42);
    let (grid, centroid) = grow_blob(&cfg, &beach_centers(), &mut rng);
    // The sub-region is 5x5 at the origin, so its center cell is (2, 2).
    assert!(grid.get(2, 2).is_some());
    assert_eq!(grid.get(2, 2), Some(TileIndex::Sand));
    assert_eq!(centroid.x, 2 * 16 + 8);
    assert_eq!(centroid.y, 2 * 16 + 8);
}

fn beach_centers() -> Vec<TileIndex> {
    vec![
        TileIndex::Sand,
        TileIndex::SandSpotted1,
        TileIndex::SandSpotted2,
        TileIndex::SandSpotted3,
    ]
}

#[test]
fn grown_land_stays_inside_ellipse() {
    let cfg = GrowConfig {
        width: 10,
        height: 10,
        sub_x: 0,
        sub_y: 0,
        sub_w: 5,
        sub_h: 5,
        tolerance: 32,
    };
    let mut rng = SeedRng::new(42);
    let (grid, _) = grow_blob(&cfg, &beach_centers(), &mut rng);
    // Every land cell satisfies the integer containment inequality around
    // the seed cell (2, 2) with semi-axes 5/2 and tolerance 32.
    for y in 0..10i64 {
        for x in 0..10i64 {
            if grid.get(x as usize, y as usize).is_some() {
                let dx = x - 2;
                let dy = y - 2;
                let lhs = 4 * dx * dx * 25 + 4 * dy * dy * 25;
                assert!(lhs <= 32 * 25 * 25, "cell ({x}, {y}) escaped the ellipse");
            }
        }
    }
}

#[test]
fn gap_fill_never_shrinks_land() {
    let cfg = GrowConfig {
        width: 12,
        height: 12,
        sub_x: 2,
        sub_y: 2,
        sub_w: 6,
        sub_h: 6,
        tolerance: 32,
    };
    let mut rng = SeedRng::new(9);
    let (mut grid, _) = grow_blob(&cfg, &beach_centers(), &mut rng);
    let before = occupied_count(&grid);
    let kept: Vec<(usize, usize)> = (0..12usize)
        .flat_map(|y| (0..12usize).map(move |x| (x, y)))
        .filter(|&(x, y)| grid.get(x, y).is_some())
        .collect();
    fill_single_tile_gaps(&mut grid, &beach_centers(), &mut rng);
    for (x, y) in kept {
        assert!(grid.get(x, y).is_some());
    }
    assert!(occupied_count(&grid) >= before);
}

#[test]
fn gap_fill_reaches_a_gap_free_fixed_point() {
    let cfg = GrowConfig {
        width: 14,
        height: 14,
        sub_x: 1,
        sub_y: 1,
        sub_w: 7,
        sub_h: 7,
        tolerance: 32,
    };
    let mut rng = SeedRng::new(123);
    let (mut grid, _) = grow_blob(&cfg, &beach_centers(), &mut rng);
    fill_single_tile_gaps(&mut grid, &beach_centers(), &mut rng);
    for y in 0..14usize {
        for x in 0..14usize {
            if grid.get(x, y).is_none() {
                let mut neighbors = 0;
                if grid.is_occupied(x, y.wrapping_sub(1)) {
                    neighbors += 1;
                }
                if grid.is_occupied(x, y + 1) {
                    neighbors += 1;
                }
                if grid.is_occupied(x.wrapping_sub(1), y) {
                    neighbors += 1;
                }
                if grid.is_occupied(x + 1, y) {
                    neighbors += 1;
                }
                assert!(neighbors < 3, "empty cell ({x}, {y}) still has {neighbors} neighbors");
            }
        }
    }
}

#[test]
fn gap_fill_closes_a_single_hole() {
    let mut grid = TileGrid::new(5, 5);
    // A ring of land around (2, 2).
    for (x, y) in [(1, 1), (2, 1), (3, 1), (1, 2), (3, 2), (1, 3), (2, 3), (3, 3)] {
        grid.set(x, y, Some(TileIndex::Sand));
    }
    let mut rng = SeedRng::new(1);
    fill_single_tile_gaps(&mut grid, &beach_centers(), &mut rng);
    let filled = grid.get(2, 2).expect("hole must be filled");
    assert!(beach_centers().contains(&filled));
}

fn rejection(width: usize, height: usize) -> ConfigError {
    match WorldMap::new(width, height, 1) {
        Err(e) => e,
        Ok(_) => panic!("a {width}x{height} world should be rejected"),
    }
}

#[test]
fn zero_dimension_is_rejected() {
    assert_eq!(rejection(0, 10), ConfigError::ZeroDimension);
    assert_eq!(rejection(10, 0), ConfigError::ZeroDimension);
}

#[test]
fn oversize_dimension_is_rejected() {
    assert_eq!(rejection(5000, 10), ConfigError::DimensionTooLarge);
    assert_eq!(rejection(10, 4097), ConfigError::DimensionTooLarge);
}

#[test]
fn catalog_errors_are_reported() {
    let mut rng = SeedRng::new(1);
    let mut cat = TileCatalog { centers: Vec::new(), sprites: BeachLayer::catalog().sprites };
    match generate_layer(10, 10, 32, &cat, &mut rng) {
        Err(e) => assert_eq!(e, ConfigError::EmptyCenterTiles),
        Ok(_) => panic!("an empty center set should be rejected"),
    }
    for _ in 0..65 {
        cat.centers.push(TileIndex::Sand);
    }
    match generate_layer(10, 10, 32, &cat, &mut rng) {
        Err(e) => assert_eq!(e, ConfigError::CenterSetTooLarge),
        Ok(_) => panic!("an oversized center set should be rejected"),
    }
}

#[test]
fn tolerance_errors_are_reported() {
    let mut rng = SeedRng::new(1);
    let cat = BeachLayer::catalog();
    for bad in [0u32, 1025, 40_000] {
        match generate_layer(10, 10, bad, &cat, &mut rng) {
            Err(e) => assert_eq!(e, ConfigError::ToleranceOutOfRange),
            Ok(_) => panic!("tolerance {bad} should be rejected"),
        }
    }
}
