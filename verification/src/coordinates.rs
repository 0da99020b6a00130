//! Grid coordinates: a signed integer pair, together with the
//! eight-connected neighbor offset geometry.

use vstd::prelude::*;

verus! {

/// A grid cell position. The components are signed: coordinates produced
/// by neighbor enumeration may lie outside any grid (negative, or past an
/// edge), and callers are expected to bounds-check before indexing.
#[derive(Clone, Copy, Debug, PartialEq, Eq, Structural)]
pub struct Coordinates {
    pub x: i32,
    pub y: i32,
}

impl Coordinates {
    /// The coordinate shifted by a small relative offset.
    pub fn offset_by(self, dx: i8, dy: i8) -> (r: Coordinates)
        requires
            i32::MIN <= self.x + dx <= i32::MAX,
            i32::MIN <= self.y + dy <= i32::MAX,
        ensures
            r.x == self.x + dx,
            r.y == self.y + dy,
    {
        Coordinates { x: self.x + dx as i32, y: self.y + dy as i32 }
    }
}

/// The eight neighbor candidates of `c`, in a fixed order: `c` plus each
/// of the eight unit and diagonal offsets
/// (-1,-1), (0,-1), (1,-1), (-1,0), (1,0), (-1,1), (0,1), (1,1).
/// No bounds filtering takes place: candidates may lie outside any grid.
pub open spec fn square_neighbors_of(c: Coordinates) -> Seq<Coordinates> {
    seq![
        Coordinates { x: (c.x - 1) as i32, y: (c.y - 1) as i32 },
        Coordinates { x: c.x, y: (c.y - 1) as i32 },
        Coordinates { x: (c.x + 1) as i32, y: (c.y - 1) as i32 },
        Coordinates { x: (c.x - 1) as i32, y: c.y },
        Coordinates { x: (c.x + 1) as i32, y: c.y },
        Coordinates { x: (c.x - 1) as i32, y: (c.y + 1) as i32 },
        Coordinates { x: c.x, y: (c.y + 1) as i32 },
        Coordinates { x: (c.x + 1) as i32, y: (c.y + 1) as i32 },
    ]
}

/// Law: neighbor enumeration yields exactly eight results, equal to the
/// input coordinate plus each of the eight listed offsets, in the fixed
/// order given — regardless of where the coordinate lies.
pub proof fn lemma_square_neighbors_of(c: Coordinates)
    requires
        i32::MIN < c.x < i32::MAX,
        i32::MIN < c.y < i32::MAX,
    ensures
        square_neighbors_of(c).len() == 8,
        square_neighbors_of(c)[0] == (Coordinates { x: (c.x - 1) as i32, y: (c.y - 1) as i32 }),
        square_neighbors_of(c)[1] == (Coordinates { x: c.x, y: (c.y - 1) as i32 }),
        square_neighbors_of(c)[2] == (Coordinates { x: (c.x + 1) as i32, y: (c.y - 1) as i32 }),
        square_neighbors_of(c)[3] == (Coordinates { x: (c.x - 1) as i32, y: c.y }),
        square_neighbors_of(c)[4] == (Coordinates { x: (c.x + 1) as i32, y: c.y }),
        square_neighbors_of(c)[5] == (Coordinates { x: (c.x - 1) as i32, y: (c.y + 1) as i32 }),
        square_neighbors_of(c)[6] == (Coordinates { x: c.x, y: (c.y + 1) as i32 }),
        square_neighbors_of(c)[7] == (Coordinates { x: (c.x + 1) as i32, y: (c.y + 1) as i32 }),
        forall|i: int| 0 <= i < 8 ==> -1 <= #[trigger] square_neighbors_of(c)[i].x - c.x <= 1,
        forall|i: int| 0 <= i < 8 ==> -1 <= #[trigger] square_neighbors_of(c)[i].y - c.y <= 1,
        forall|i: int| 0 <= i < 8 ==> #[trigger] square_neighbors_of(c)[i] != c,
{
}

/// Law: at the grid origin the enumeration is still unfiltered. It yields
/// eight candidates, and the five whose offset has a negative component
/// fall outside every grid.
pub proof fn lemma_origin_neighbors_unfiltered()
    ensures
        square_neighbors_of(Coordinates { x: 0, y: 0 }).len() == 8,
        square_neighbors_of(Coordinates { x: 0, y: 0 })[0].x < 0,
        square_neighbors_of(Coordinates { x: 0, y: 0 })[1].y < 0,
        square_neighbors_of(Coordinates { x: 0, y: 0 })[2].y < 0,
        square_neighbors_of(Coordinates { x: 0, y: 0 })[3].x < 0,
        square_neighbors_of(Coordinates { x: 0, y: 0 })[5].x < 0,
        square_neighbors_of(Coordinates { x: 0, y: 0 })[4].x >= 0
            && square_neighbors_of(Coordinates { x: 0, y: 0 })[4].y >= 0,
        square_neighbors_of(Coordinates { x: 0, y: 0 })[6].x >= 0
            && square_neighbors_of(Coordinates { x: 0, y: 0 })[6].y >= 0,
        square_neighbors_of(Coordinates { x: 0, y: 0 })[7].x >= 0
            && square_neighbors_of(Coordinates { x: 0, y: 0 })[7].y >= 0,
{
}

} // verus!
