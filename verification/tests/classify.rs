use island_map::beach::BeachLayer;
use island_map::classify::{populate_corners, populate_edges};
use island_map::grid::TileGrid;
use island_map::tileset::TileIndex;

/// A 7x7 grid whose center 3x3 block (cells 2..=4 on both axes) is land.
fn block_grid() -> TileGrid {
    let mut grid = TileGrid::new(7, 7);
    for y in 2..5 {
        for x in 2..5 {
            grid.set(x, y, Some(TileIndex::Sand));
        }
    }
    grid
}

#[test]
fn edge_pass_decorates_the_block_sides() {
    let mut grid = block_grid();
    let sprites = BeachLayer::catalog().sprites;
    let unmatched = populate_edges(&mut grid, &sprites);
    assert_eq!(unmatched, 0);
    // Each side cell orthogonally adjacent to the block gets that side's
    // edge sprite.
    for x in 2..5 {
        assert_eq!(grid.get(x, 1), Some(TileIndex::SandEdgeTop));
        assert_eq!(grid.get(x, 5), Some(TileIndex::SandEdgeBottom));
    }
    for y in 2..5 {
        assert_eq!(grid.get(1, y), Some(TileIndex::SandEdgeLeft));
        assert_eq!(grid.get(5, y), Some(TileIndex::SandEdgeRight));
    }
    // The diagonally adjacent cells have no occupied cardinal neighbour
    // yet, so the edge pass leaves them empty.
    assert_eq!(grid.get(1, 1), None);
    assert_eq!(grid.get(5, 1), None);
    assert_eq!(grid.get(1, 5), None);
    assert_eq!(grid.get(5, 5), None);
}

#[test]
fn corner_pass_fills_the_diagonals_and_nothing_else() {
    let mut grid = block_grid();
    let sprites = BeachLayer::catalog().sprites;
    populate_edges(&mut grid, &sprites);
    populate_corners(&mut grid, &sprites);
    // The four diagonal transitions get the four corner sprites.
    assert_eq!(grid.get(1, 1), Some(TileIndex::SandCornerTopLeft));
    assert_eq!(grid.get(5, 1), Some(TileIndex::SandCornerTopRight));
    assert_eq!(grid.get(1, 5), Some(TileIndex::SandCornerBottomLeft));
    assert_eq!(grid.get(5, 5), Some(TileIndex::SandCornerBottomRight));
    // The far corners, two diagonal steps out, stay empty.
    assert_eq!(grid.get(0, 0), None);
    assert_eq!(grid.get(6, 0), None);
    assert_eq!(grid.get(0, 6), None);
    assert_eq!(grid.get(6, 6), None);
    // The outermost ring is otherwise untouched: the corner pass
    // discounts neighbours whose edge sprite already covers that side.
    for i in 1..6 {
        assert_eq!(grid.get(i, 0), None);
        assert_eq!(grid.get(i, 6), None);
        assert_eq!(grid.get(0, i), None);
        assert_eq!(grid.get(6, i), None);
    }
}

#[test]
fn corner_pass_never_reassigns_an_edge_cell() {
    let mut grid = block_grid();
    let sprites = BeachLayer::catalog().sprites;
    populate_edges(&mut grid, &sprites);
    let mut after_edges: Vec<Option<TileIndex>> = Vec::new();
    for y in 0..7usize {
        for x in 0..7usize {
            after_edges.push(grid.get(x, y));
        }
    }
    populate_corners(&mut grid, &sprites);
    let mut i = 0;
    for y in 0..7usize {
        for x in 0..7usize {
            if after_edges[i].is_some() {
                assert_eq!(grid.get(x, y), after_edges[i]);
            }
            i += 1;
        }
    }
}

#[test]
fn no_cell_holds_both_edge_and_corner_roles() {
    let mut grid = block_grid();
    let cat = BeachLayer::catalog();
    populate_edges(&mut grid, &cat.sprites);
    populate_corners(&mut grid, &cat.sprites);
    let edges = [
        TileIndex::SandEdgeTop,
        TileIndex::SandEdgeTopRight,
        TileIndex::SandEdgeRight,
        TileIndex::SandEdgeBottomRight,
        TileIndex::SandEdgeBottom,
        TileIndex::SandEdgeBottomLeft,
        TileIndex::SandEdgeLeft,
        TileIndex::SandEdgeTopLeft,
    ];
    let corners = [
        TileIndex::SandCornerTopRight,
        TileIndex::SandCornerTopLeft,
        TileIndex::SandCornerBottomRight,
        TileIndex::SandCornerBottomLeft,
    ];
    for y in 0..7usize {
        for x in 0..7usize {
            if let Some(t) = grid.get(x, y) {
                assert!(!(edges.contains(&t) && corners.contains(&t)));
            }
        }
    }
}

#[test]
fn isolated_empty_cells_are_skipped() {
    let mut grid = TileGrid::new(3, 3);
    grid.set(1, 1, Some(TileIndex::Sand));
    let sprites = BeachLayer::catalog().sprites;
    let unmatched = populate_edges(&mut grid, &sprites);
    assert_eq!(unmatched, 0);
    // A lone land cell: its four cardinal neighbours each get the facing
    // edge sprite; the diagonals see no cardinal neighbour and stay empty.
    assert_eq!(grid.get(1, 0), Some(TileIndex::SandEdgeTop));
    assert_eq!(grid.get(1, 2), Some(TileIndex::SandEdgeBottom));
    assert_eq!(grid.get(0, 1), Some(TileIndex::SandEdgeLeft));
    assert_eq!(grid.get(2, 1), Some(TileIndex::SandEdgeRight));
    assert_eq!(grid.get(0, 0), None);
    assert_eq!(grid.get(2, 2), None);
}

#[test]
fn tunnel_masks_are_counted_as_unmatched() {
    // Land above and below an empty cell, nothing beside it: the mask is
    // outside the table and counted as a diagnostic.
    let mut grid = TileGrid::new(3, 3);
    grid.set(1, 0, Some(TileIndex::Sand));
    grid.set(1, 2, Some(TileIndex::Sand));
    let sprites = BeachLayer::catalog().sprites;
    let unmatched = populate_edges(&mut grid, &sprites);
    assert_eq!(unmatched, 1);
    assert_eq!(grid.get(1, 1), None);
}
