//! Board data structure for a Minesweeper-style tile game: a rectangular
//! grid of tiles together with the eight-connected neighbor geometry.
//!
//! The grid itself is a passive container: it is built once, all cells
//! empty, and collaborators then read and write individual cells through
//! bounds-checked accessors. Neighbor enumeration is deliberately
//! unfiltered; callers discard the candidates that fall outside the grid.

mod coordinates;
mod text;
mod tile;
mod tile_map;

pub use coordinates::Coordinates;
pub use tile::Tile;
pub use tile_map::TileMap;
pub use tile_map::spec_row_line;
pub use tile_map::spec_rows_rendered;
pub use tile_map::lemma_console_output_shape;
pub use text::digit_char;
pub use text::spec_decimal;
pub use text::spec_dashes;
pub use coordinates::square_neighbors_of;
pub use coordinates::lemma_square_neighbors_of;
pub use coordinates::lemma_origin_neighbors_unfiltered;
