use crate::model::grid::lemma_index_in_range;
use vstd::prelude::*;

verus! {

#[derive(Clone, Copy, Debug, PartialEq, Eq, Structural)]
pub enum Tile {
    Empty,
    Dirt,
    /// Outside the mine.
    Invalid,
}

/// The mine as a mathematical object, indexed by `(row, col)`.
pub struct MineView {
    pub height: int,
    pub width: int,
    pub cells: Map<(int, int), Tile>,
}

impl MineView {
    pub open spec fn tile_at(self, row: int, col: int) -> Tile {
        if 0 <= row < self.height && 0 <= col < self.width {
            self.cells[(row, col)]
        } else {
            Tile::Invalid
        }
    }
}

/// A 50 × 50 mine full of dirt.
pub struct Mine {
    height: u32,
    width: u32,
    tiles: Vec<Tile>,
}

impl View for Mine {
    type V = MineView;

    closed spec fn view(&self) -> MineView {
        MineView {
            height: self.height as int,
            width: self.width as int,
            cells: Map::new(
                |p: (int, int)| 0 <= p.0 < self.height && 0 <= p.1 < self.width,
                |p: (int, int)| self.tiles@[p.0 * self.width + p.1],
            ),
        }
    }
}

impl Mine {
    pub closed spec fn wf(&self) -> bool {
        &&& self.tiles@.len() == self.height * self.width
        &&& self.height * self.width <= u32::MAX
    }

    pub fn new() -> (r: Mine)
        ensures
            r.wf(),
            r@.height == 50,
            r@.width == 50,
            forall|row: int, col: int|
                0 <= row < 50 && 0 <= col < 50 ==> #[trigger] r@.tile_at(row, col) == Tile::Dirt,
    {
        let mut tiles: Vec<Tile> = Vec::new();
        while tiles.len() < 50 * 50
            invariant
                tiles@.len() <= 50 * 50,
                forall|i: int| 0 <= i < tiles@.len() ==> tiles@[i] == Tile::Dirt,
            decreases 50 * 50 - tiles@.len(),
        {
            tiles.push(Tile::Dirt);
        }
        let r = Mine { height: 50, width: 50, tiles };
        proof {
            assert forall|row: int, col: int|
                0 <= row < 50 && 0 <= col < 50 implies #[trigger] r@.tile_at(row, col)
                == Tile::Dirt by {
                lemma_index_in_range(col, row, 50, 50);
            }
        }
        r
    }

    /// The tile at `(row, col)`, or `Invalid` outside the mine.
    pub fn get_tile(&self, row: u32, col: u32) -> (r: Tile)
        requires
            self.wf(),
        ensures
            r == self@.tile_at(row as int, col as int),
    {
        if row >= self.height || col >= self.width {
            return Tile::Invalid;
        }
        proof {
            lemma_index_in_range(col as int, row as int, self.width as int, self.height as int);
            assert(row * self.width == self.width * row) by (nonlinear_arith);
        }
        let idx = (row * self.width + col) as usize;
        self.tiles[idx]
    }
}

} // verus!
