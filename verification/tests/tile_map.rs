use board_plugin::Coordinates;
use board_plugin::Tile;
use board_plugin::TileMap;

#[test]
fn empty_yields_all_empty_grid() {
    let m = TileMap::empty(3, 4);
    assert_eq!(m.width(), 3);
    assert_eq!(m.height(), 4);
    assert_eq!(m.bomb_count(), 0);
    for row in 0..4 {
        for col in 0..3 {
            assert_eq!(m.tile_at(row, col), Tile::Empty);
        }
    }
}

#[test]
fn empty_degenerate_dimensions() {
    let m = TileMap::empty(0, 0);
    assert_eq!(m.width(), 0);
    assert_eq!(m.height(), 0);
    assert_eq!(m.bomb_count(), 0);
    let n = TileMap::empty(0, 2);
    assert_eq!(n.width(), 0);
    assert_eq!(n.height(), 2);
}

#[test]
fn accessor_round_trip() {
    let m = TileMap::empty(5, 3);
    assert_eq!(m.width(), 5);
    assert_eq!(m.height(), 3);
    assert_eq!(m.bomb_count(), 0);
}

#[test]
fn safe_square_at_fixed_order() {
    let m = TileMap::empty(4, 4);
    let c = Coordinates { x: 2, y: 1 };
    let neighbors = m.safe_square_at(c);
    let expected = vec![
        Coordinates { x: 1, y: 0 },
        Coordinates { x: 2, y: 0 },
        Coordinates { x: 3, y: 0 },
        Coordinates { x: 1, y: 1 },
        Coordinates { x: 3, y: 1 },
        Coordinates { x: 1, y: 2 },
        Coordinates { x: 2, y: 2 },
        Coordinates { x: 3, y: 2 },
    ];
    assert_eq!(neighbors, expected);
}

#[test]
fn safe_square_at_corner_unfiltered() {
    let m = TileMap::empty(8, 8);
    let origin = Coordinates { x: 0, y: 0 };
    let neighbors = m.safe_square_at(origin);
    assert_eq!(neighbors.len(), 8);
    let with_negative_component = neighbors.iter().filter(|c| c.x < 0 || c.y < 0).count();
    assert!(with_negative_component >= 4);
    assert_eq!(with_negative_component, 5);
    // The sequence is restartable: a second call yields the same values.
    assert_eq!(m.safe_square_at(origin), neighbors);
}

#[test]
fn safe_square_at_negative_input() {
    let m = TileMap::empty(2, 2);
    let neighbors = m.safe_square_at(Coordinates { x: -3, y: -7 });
    assert_eq!(neighbors.len(), 8);
    assert_eq!(neighbors[0], Coordinates { x: -4, y: -8 });
    assert_eq!(neighbors[7], Coordinates { x: -2, y: -6 });
}

#[test]
fn mutation_is_visible_and_local() {
    let mut m = TileMap::empty(2, 2);
    m.set_tile(0, 0, Tile::Bomb);
    assert_eq!(m.tile_at(0, 0), Tile::Bomb);
    assert_eq!(m.tile_at(0, 1), Tile::Empty);
    assert_eq!(m.tile_at(1, 0), Tile::Empty);
    assert_eq!(m.tile_at(1, 1), Tile::Empty);
    m.set_tile(1, 1, Tile::BombNeighbor(2));
    assert_eq!(m.tile_at(1, 1), Tile::BombNeighbor(2));
    assert_eq!(m.tile_at(0, 0), Tile::Bomb);
}

#[test]
fn offset_by_adds_componentwise() {
    let c = Coordinates { x: 10, y: -4 };
    assert_eq!(c.offset_by(-1, 1), Coordinates { x: 9, y: -3 });
    assert_eq!(c.offset_by(0, 0), c);
}

#[test]
fn clone_is_independent_deep_copy() {
    let mut m = TileMap::empty(2, 2);
    let snapshot = m.clone();
    m.set_tile(0, 0, Tile::Bomb);
    assert_eq!(snapshot.tile_at(0, 0), Tile::Empty);
    assert_eq!(m.tile_at(0, 0), Tile::Bomb);
    assert_eq!(snapshot.width(), 2);
    assert_eq!(snapshot.height(), 2);
}
