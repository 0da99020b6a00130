//! The per-cell state of the board.

use vstd::prelude::*;
use crate::text::digit_char;
use crate::text::digit_str;

verus! {

/// What a single board cell holds. The map only ever writes `Empty`
/// itself (at construction); collaborators set the other variants.
#[derive(Clone, Copy, Debug, PartialEq, Eq, Structural)]
pub enum Tile {
    /// A cell with nothing in it.
    Empty,
    /// A cell holding a bomb.
    Bomb,
    /// A cell adjacent to the given number of bombs.
    BombNeighbor(u8),
}

impl Tile {
    /// The single-character textual representation of the tile.
    pub open spec fn glyph(self) -> char {
        match self {
            Tile::Empty => ' ',
            Tile::Bomb => '*',
            Tile::BombNeighbor(n) => digit_char(n as nat),
        }
    }

    /// The tile's one-character rendering for the debug text dump.
    pub fn console_output(&self) -> (s: &'static str)
        ensures
            s@ == seq![self.glyph()],
    {
        match self {
            Tile::Empty => {
                proof {
                    reveal_strlit(" ");
                    assert(" "@ =~= seq![self.glyph()]);
                }
                " "
            },
            Tile::Bomb => {
                proof {
                    reveal_strlit("*");
                    assert("*"@ =~= seq![self.glyph()]);
                }
                "*"
            },
            Tile::BombNeighbor(n) => digit_str(*n),
        }
    }
}

} // verus!
