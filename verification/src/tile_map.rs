//! The tile map: a rectangular grid of tiles plus a bomb counter.

use vstd::prelude::*;
use vstd::string::StringExecFns;
use vstd::pervasive::VecAdditionalExecFns;
use crate::coordinates::Coordinates;
use crate::coordinates::square_neighbors_of;
use crate::tile::Tile;
use crate::text::spec_decimal;
use crate::text::spec_dashes;
use crate::text::u16_decimal;
use crate::text::dashes;

verus! {

/// One rendered grid row: the row's tile glyphs between `|` bars, with a
/// trailing newline.
pub open spec fn spec_row_line(row: Seq<Tile>) -> Seq<char> {
    seq!['|'] + row.map_values(|t: Tile| t.glyph()) + seq!['|', '\n']
}

/// The rows of `grid` with index below `r`, rendered last row first.
pub open spec fn spec_rows_rendered(grid: Seq<Seq<Tile>>, r: int) -> Seq<char>
    decreases r,
{
    if r <= 0 {
        Seq::empty()
    } else {
        spec_row_line(grid[r - 1]) + spec_rows_rendered(grid, r - 1)
    }
}

proof fn lemma_rows_rendered_len(grid: Seq<Seq<Tile>>, w: int, r: int)
    requires
        0 <= r <= grid.len(),
        forall|i: int| 0 <= i < grid.len() ==> (#[trigger] grid[i]).len() == w,
    ensures
        spec_rows_rendered(grid, r).len() == r * (w + 3),
    decreases r,
{
    if r > 0 {
        lemma_rows_rendered_len(grid, w, r - 1);
        assert(spec_row_line(grid[r - 1]).len() == w + 3);
        assert(r * (w + 3) == (r - 1) * (w + 3) + (w + 3)) by (nonlinear_arith);
        assert(spec_rows_rendered(grid, r).len() == spec_row_line(grid[r - 1]).len()
            + spec_rows_rendered(grid, r - 1).len());
    } else {
        assert(r * (w + 3) == 0) by (nonlinear_arith)
            requires r == 0;
    }
}

/// Law: the rendering follows the shape formula. The two borders are
/// `width + 2` dashes, the body consists of one line of `width + 3`
/// characters (bars, glyphs, newline) per grid row, and no tile glyph is
/// ever a newline, so the body really breaks into `height` content lines.
pub proof fn lemma_console_output_shape(m: &TileMap)
    requires
        m.well_formed(),
    ensures
        spec_dashes(m.spec_width() as nat + 2).len() == m.spec_width() + 2,
        spec_rows_rendered(m.grid(), m.grid().len() as int).len() == m.spec_height() * (
        m.spec_width() + 3),
        forall|t: Tile| #[trigger] t.glyph() != '\n',
{
    lemma_rows_rendered_len(m.grid(), m.spec_width() as int, m.grid().len() as int);
}

/// A rectangular grid of tiles. The dimensions are fixed at construction;
/// the cells start out all `Empty` and are mutated in place by
/// collaborators through `set_tile`. The bomb counter is likewise owned by
/// collaborators; nothing in the map itself increments it.
#[derive(Clone, Debug)]
pub struct TileMap {
    bomb_count: u16,
    height: u16,
    width: u16,
    map: Vec<Vec<Tile>>,
}

impl TileMap {
    /// The grid's width as the contracts speak of it.
    pub closed spec fn spec_width(&self) -> u16 {
        self.width
    }

    /// The grid's height as the contracts speak of it.
    pub closed spec fn spec_height(&self) -> u16 {
        self.height
    }

    /// The bomb counter as the contracts speak of it.
    pub closed spec fn spec_bomb_count(&self) -> u16 {
        self.bomb_count
    }

    /// The grid contents: `spec_height()` rows, each a sequence of
    /// `spec_width()` tiles, in row-major order.
    pub closed spec fn grid(&self) -> Seq<Seq<Tile>> {
        self.map@.map_values(|row: Vec<Tile>| row@)
    }

    /// The shape invariant: exactly `height` rows, each of length `width`.
    /// Established by `empty` and preserved by every mutation; the grid is
    /// never resized.
    pub open spec fn well_formed(&self) -> bool {
        &&& self.grid().len() == self.spec_height() as int
        &&& forall|r: int|
            0 <= r < self.grid().len() ==> (#[trigger] self.grid()[r]).len()
                == self.spec_width() as int
    }

    /// A map of the given dimensions with every cell `Empty` and the bomb
    /// counter at zero. Zero extents are legal and give a degenerate grid.
    pub fn empty(width: u16, height: u16) -> (m: TileMap)
        ensures
            m.well_formed(),
            m.spec_width() == width,
            m.spec_height() == height,
            m.spec_bomb_count() == 0,
            forall|r: int, c: int|
                0 <= r < height && 0 <= c < width ==> m.grid()[r][c] == Tile::Empty,
    {
        let mut map: Vec<Vec<Tile>> = Vec::new();
        let mut r: u16 = 0;
        while r < height
            invariant
                r <= height,
                map@.len() == r as int,
                forall|i: int| 0 <= i < r ==> (#[trigger] map@[i])@.len() == width as int,
                forall|i: int, j: int|
                    0 <= i < r && 0 <= j < width ==> #[trigger] map@[i]@[j] == Tile::Empty,
            decreases height - r,
        {
            let mut row: Vec<Tile> = Vec::new();
            let mut c: u16 = 0;
            while c < width
                invariant
                    c <= width,
                    row@.len() == c as int,
                    forall|j: int| 0 <= j < c ==> #[trigger] row@[j] == Tile::Empty,
                decreases width - c,
            {
                row.push(Tile::Empty);
                c = c + 1;
            }
            map.push(row);
            r = r + 1;
        }
        TileMap { bomb_count: 0, height, width, map }
    }

    /// The eight neighbor candidates of `coordinates`, in the fixed order
    /// of the offset table. No bounds filtering takes place: candidates of
    /// edge and corner cells fall outside the grid, and callers must check
    /// them against the grid's extents before indexing.
    pub fn safe_square_at(&self, coordinates: Coordinates) -> (neighbors: Vec<Coordinates>)
        requires
            i32::MIN < coordinates.x < i32::MAX,
            i32::MIN < coordinates.y < i32::MAX,
        ensures
            neighbors@ == square_neighbors_of(coordinates),
    {
        let mut neighbors: Vec<Coordinates> = Vec::new();
        neighbors.push(coordinates.offset_by(-1, -1));
        neighbors.push(coordinates.offset_by(0, -1));
        neighbors.push(coordinates.offset_by(1, -1));
        neighbors.push(coordinates.offset_by(-1, 0));
        neighbors.push(coordinates.offset_by(1, 0));
        neighbors.push(coordinates.offset_by(-1, 1));
        neighbors.push(coordinates.offset_by(0, 1));
        neighbors.push(coordinates.offset_by(1, 1));
        proof {
            assert(neighbors@ =~= square_neighbors_of(coordinates));
        }
        neighbors
    }

    /// The grid's width.
    pub fn width(&self) -> (w: u16)
        ensures
            w == self.spec_width(),
    {
        self.width
    }

    /// The grid's height.
    pub fn height(&self) -> (h: u16)
        ensures
            h == self.spec_height(),
    {
        self.height
    }

    /// The number of bombs the map is tracking.
    pub fn bomb_count(&self) -> (n: u16)
        ensures
            n == self.spec_bomb_count(),
    {
        self.bomb_count
    }

    /// The tile at the given cell.
    pub fn tile_at(&self, row: u16, col: u16) -> (t: Tile)
        requires
            self.well_formed(),
            row < self.spec_height(),
            col < self.spec_width(),
        ensures
            t == self.grid()[row as int][col as int],
    {
        self.map[row as usize][col as usize]
    }

    /// The full debug text dump of the map: a header with the dimensions
    /// and the bomb count, a dash border of width `spec_width() + 2`, the
    /// rows rendered last row first between `|` bars, and a matching
    /// bottom border with no trailing newline.
    pub open spec fn spec_console_output(&self) -> Seq<char> {
        "Map ("@ + spec_decimal(self.spec_width() as nat) + ", "@ + spec_decimal(
            self.spec_height() as nat,
        ) + ") with "@ + spec_decimal(self.spec_bomb_count() as nat) + " bombs: \n"@ + spec_dashes(
            self.spec_width() as nat + 2,
        ) + seq!['\n'] + spec_rows_rendered(self.grid(), self.grid().len() as int) + spec_dashes(
            self.spec_width() as nat + 2,
        )
    }

    /// A human-readable multi-line rendering of the map, for inspection
    /// while debugging.
    pub fn console_output(&self) -> (out: String)
        requires
            self.well_formed(),
        ensures
            out@ == self.spec_console_output(),
    {
        let mut buffer = "Map (".to_owned();
        let w = u16_decimal(self.width);
        buffer.append(w.as_str());
        buffer.append(", ");
        let h = u16_decimal(self.height);
        buffer.append(h.as_str());
        buffer.append(") with ");
        let b = u16_decimal(self.bomb_count);
        buffer.append(b.as_str());
        buffer.append(" bombs: \n");
        let topline = dashes(self.width as usize + 2);
        buffer.append(topline.as_str());
        buffer.append("\n");
        proof {
            reveal_strlit("\n");
            assert("\n"@ =~= seq!['\n']);
        }
        let ghost head = buffer@;
        let mut r: usize = self.map.len();
        while r > 0
            invariant
                r <= self.grid().len(),
                self.well_formed(),
                buffer@ + spec_rows_rendered(self.grid(), r as int) =~= head + spec_rows_rendered(
                    self.grid(),
                    self.grid().len() as int,
                ),
            decreases r,
        {
            let ghost row_spec = self.grid()[r - 1];
            let ghost before_row = buffer@;
            buffer.append("|");
            proof {
                reveal_strlit("|");
                assert(buffer@ =~= before_row + seq!['|'] + row_spec.map_values(
                    |t: Tile| t.glyph(),
                ).take(0));
            }
            let row: &Vec<Tile> = &self.map[r - 1];
            let mut c: usize = 0;
            while c < row.len()
                invariant
                    c <= row@.len(),
                    row@ == row_spec,
                    buffer@ =~= before_row + seq!['|'] + row_spec.map_values(
                        |t: Tile| t.glyph(),
                    ).take(c as int),
                decreases row@.len() - c,
            {
                let t = row[c];
                buffer.append(t.console_output());
                c = c + 1;
                proof {
                    assert(row_spec.map_values(|t: Tile| t.glyph()).take(c as int)
                        =~= row_spec.map_values(|t: Tile| t.glyph()).take(c - 1) + seq![
                        row_spec[c - 1].glyph(),
                    ]);
                    assert(buffer@ =~= before_row + seq!['|'] + row_spec.map_values(
                        |t: Tile| t.glyph(),
                    ).take(c as int));
                }
            }
            buffer.append("|\n");
            r = r - 1;
            proof {
                reveal_strlit("|\n");
                assert(row_spec.map_values(|t: Tile| t.glyph()).take(row_spec.len() as int)
                    =~= row_spec.map_values(|t: Tile| t.glyph()));
                assert(buffer@ =~= before_row + spec_row_line(row_spec));
                assert(buffer@ + spec_rows_rendered(self.grid(), r as int) =~= head
                    + spec_rows_rendered(self.grid(), self.grid().len() as int));
            }
        }
        buffer.append(topline.as_str());
        proof {
            assert(buffer@ =~= self.spec_console_output());
        }
        buffer
    }

    /// Writes one cell in place. Only that cell changes: the dimensions,
    /// the bomb counter and every other cell stay as they were.
    pub fn set_tile(&mut self, row: u16, col: u16, tile: Tile)
        requires
            old(self).well_formed(),
            row < old(self).spec_height(),
            col < old(self).spec_width(),
        ensures
            final(self).well_formed(),
            final(self).spec_width() == old(self).spec_width(),
            final(self).spec_height() == old(self).spec_height(),
            final(self).spec_bomb_count() == old(self).spec_bomb_count(),
            final(self).grid() == old(self).grid().update(
                row as int,
                old(self).grid()[row as int].update(col as int, tile),
            ),
            final(self).grid()[row as int][col as int] == tile,
            forall|r: int, c: int|
                0 <= r < old(self).spec_height() && 0 <= c < old(self).spec_width() && !(r == row
                    && c == col) ==> final(self).grid()[r][c] == old(self).grid()[r][c],
    {
        let row_vec: &mut Vec<Tile> = &mut self.map[row as usize];
        proof {
            assert(old(self).grid()[row as int] == old(self).map@[row as int]@);
            assert(old(self).grid()[row as int].len() == old(self).spec_width() as int);
        }
        row_vec.set(col as usize, tile);
        proof {
            assert(self.grid() =~= old(self).grid().update(
                row as int,
                old(self).grid()[row as int].update(col as int, tile),
            ));
        }
    }
}

} // verus!
