use board_plugin::Tile;
use board_plugin::TileMap;

#[test]
fn console_output_two_by_two() {
    let m = TileMap::empty(2, 2);
    let out = m.console_output();
    assert_eq!(out, "Map (2, 2) with 0 bombs: \n----\n|  |\n|  |\n----");
    let lines: Vec<&str> = out.split('\n').collect();
    assert_eq!(lines.len(), 5);
    assert_eq!(lines[1], "----");
    assert_eq!(lines[4], "----");
    for line in &lines[2..4] {
        assert_eq!(line.len(), 4);
        assert!(line.starts_with('|') && line.ends_with('|'));
    }
}

#[test]
fn console_output_shows_tiles() {
    let mut m = TileMap::empty(2, 1);
    m.set_tile(0, 0, Tile::Bomb);
    m.set_tile(0, 1, Tile::BombNeighbor(3));
    assert_eq!(m.console_output(), "Map (2, 1) with 0 bombs: \n----\n|*3|\n----");
}

#[test]
fn console_output_renders_rows_in_reverse() {
    let mut m = TileMap::empty(1, 2);
    // Row 0 is rendered last, at the bottom of the dump.
    m.set_tile(0, 0, Tile::Bomb);
    assert_eq!(m.console_output(), "Map (1, 2) with 0 bombs: \n---\n| |\n|*|\n---");
}

#[test]
fn console_output_multi_digit_dimensions() {
    let m = TileMap::empty(12, 10);
    let out = m.console_output();
    assert!(out.starts_with("Map (12, 10) with 0 bombs: \n"));
    let lines: Vec<&str> = out.split('\n').collect();
    assert_eq!(lines.len(), 13);
    assert_eq!(lines[1], "--------------");
    assert_eq!(lines[1].len(), 14);
    assert_eq!(lines[12], lines[1]);
    for line in &lines[2..12] {
        assert_eq!(line.len(), 14);
        assert!(line.starts_with('|') && line.ends_with('|'));
    }
}

#[test]
fn console_output_degenerate_map() {
    let m = TileMap::empty(0, 0);
    assert_eq!(m.console_output(), "Map (0, 0) with 0 bombs: \n--\n--");
}

#[test]
fn console_output_widest_map() {
    let m = TileMap::empty(u16::MAX, 1);
    let out = m.console_output();
    assert!(out.starts_with("Map (65535, 1) with 0 bombs: \n"));
    let lines: Vec<&str> = out.split('\n').collect();
    assert_eq!(lines.len(), 4);
    assert_eq!(lines[1].len(), 65537);
    assert!(lines[1].chars().all(|c| c == '-'));
    assert_eq!(lines[2].len(), 65537);
}

#[test]
fn tile_glyphs() {
    assert_eq!(Tile::Empty.console_output(), " ");
    assert_eq!(Tile::Bomb.console_output(), "*");
    assert_eq!(Tile::BombNeighbor(0).console_output(), "0");
    assert_eq!(Tile::BombNeighbor(8).console_output(), "8");
    assert_eq!(Tile::BombNeighbor(200).console_output(), "?");
}
