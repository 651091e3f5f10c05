use island_map::geom::WorldPoint;
use island_map::tileset::TileIndex;
use island_map::ocean::OceanLayer;
use island_map::world_map::{Layer, Viewport, WorldMap};

fn point(x: i64, y: i64) -> WorldPoint {
    WorldPoint { x, y }
}

#[test]
fn queries_are_idempotent() {
    let wm = WorldMap::new(12, 12, 99).unwrap();
    for l in 0..2 {
        for y in 0..12 {
            for x in 0..12 {
                assert_eq!(wm.tile_at(l, x, y), wm.tile_at(l, x, y));
            }
        }
    }
    let pos = point(40, 40);
    let size = point(12, 12);
    assert_eq!(wm.is_collision(pos, size), wm.is_collision(pos, size));
}

#[test]
fn tile_at_answers_none_out_of_range() {
    let wm = WorldMap::new(6, 4, 3).unwrap();
    assert_eq!(wm.tile_at(0, 6, 0), None);
    assert_eq!(wm.tile_at(0, 0, 4), None);
    assert_eq!(wm.tile_at(2, 0, 0), None);
    assert!(wm.tile_at(0, 5, 3).is_some());
}

#[test]
fn box_over_the_right_edge_is_blocked() {
    let wm = WorldMap::new(8, 8, 1).unwrap();
    // The box starts inside but its far corner reaches world x = 132,
    // which floors to tile 8, one past the last column.
    assert!(wm.is_collision(point(8 * 16 - 4, 40), point(8, 8)));
    // Same on the bottom edge.
    assert!(wm.is_collision(point(40, 8 * 16 - 4), point(8, 8)));
    // And a box with any negative-coordinate corner is blocked.
    assert!(wm.is_collision(point(-1, 40), point(8, 8)));
}

#[test]
fn start_location_is_not_blocked() {
    let wm = WorldMap::new(24, 24, 5).unwrap();
    // The seed cell is always land, and the start location is its center.
    assert!(!wm.is_collision(wm.start_location, point(0, 0)));
}

#[test]
fn visible_range_is_always_clamped() {
    let wm = WorldMap::new(10, 10, 2).unwrap();
    let cases = [
        (point(80, 80), point(32, 32)),
        (point(-5000, -5000), point(64, 64)),
        (point(100_000, 3), point(640, 480)),
        (point(80, 100_000), point(0, 0)),
        (point(0, 0), point(1_000_000, 1_000_000)),
    ];
    for (target, half_extent) in cases {
        let r = wm.visible_tile_range(Viewport { target, half_extent });
        assert!(r.x1 <= 10);
        assert!(r.y1 <= 10);
        assert!(r.x0 <= r.x1);
        assert!(r.y0 <= r.y1);
    }
}

#[test]
fn visible_range_matches_the_view_rectangle() {
    let wm = WorldMap::new(10, 10, 2).unwrap();
    // View from 48 to 112 world units on both axes: tiles 3..7.
    let r = wm.visible_tile_range(Viewport { target: point(80, 80), half_extent: point(32, 32) });
    assert_eq!((r.x0, r.x1, r.y0, r.y1), (3, 7, 3, 7));
    // An unaligned view rounds outward: 50..90 covers tiles 3..6.
    let r = wm.visible_tile_range(Viewport { target: point(70, 70), half_extent: point(20, 20) });
    assert_eq!((r.x0, r.x1, r.y0, r.y1), (3, 6, 3, 6));
}

#[test]
fn ocean_repeats_its_four_by_four_pattern() {
    let ocean = OceanLayer::new(9, 9);
    assert_eq!(ocean.get_tile(0, 0), Some(TileIndex::Ocean1));
    assert_eq!(ocean.get_tile(1, 0), Some(TileIndex::Ocean2));
    assert_eq!(ocean.get_tile(2, 0), Some(TileIndex::Ocean3));
    assert_eq!(ocean.get_tile(3, 0), Some(TileIndex::Ocean4));
    assert_eq!(ocean.get_tile(0, 1), Some(TileIndex::Ocean5));
    assert_eq!(ocean.get_tile(3, 2), Some(TileIndex::Ocean12));
    assert_eq!(ocean.get_tile(0, 3), Some(TileIndex::Ocean13));
    assert_eq!(ocean.get_tile(3, 3), Some(TileIndex::Ocean16));
    // The pattern wraps every four tiles.
    assert_eq!(ocean.get_tile(4, 4), Some(TileIndex::Ocean1));
    assert_eq!(ocean.get_tile(8, 8), Some(TileIndex::Ocean1));
    assert_eq!(ocean.get_tile(7, 2), Some(TileIndex::Ocean12));
}

#[test]
fn ocean_covers_every_cell() {
    let ocean = OceanLayer::new(5, 7);
    for y in 0..7 {
        for x in 0..5 {
            assert!(ocean.get_tile(x, y).is_some());
        }
    }
}

#[test]
fn layer_bounds_span_the_grid_in_world_units() {
    let ocean = OceanLayer::new(6, 4);
    let (lo, hi) = ocean.get_bounds();
    assert_eq!((lo.x, lo.y), (0, 0));
    assert_eq!((hi.x, hi.y), (6 * 16, 4 * 16));
}

#[test]
fn layer_names() {
    let wm = WorldMap::new(4, 4, 8).unwrap();
    assert_eq!(wm.layers[0].to_string(), "Ocean");
    assert_eq!(wm.layers[1].to_string(), "Beach");
    let mut seed = 3u64;
    let grass = island_map::grass::GrassLayer::new(&mut seed, 4, 4, None).unwrap();
    assert_eq!(Layer::Grass(grass).to_string(), "Grass");
}

#[test]
fn world_bottom_layer_is_ocean() {
    let wm = WorldMap::new(16, 16, 77).unwrap();
    assert!(matches!(wm.layers[0], Layer::Ocean(_)));
    assert!(matches!(wm.layers[1], Layer::Beach(_)));
    // The ocean never leaves a hole, so layer 0 answers on every cell.
    for y in 0..16 {
        for x in 0..16 {
            assert!(wm.tile_at(0, x, y).is_some());
        }
    }
}
