use crate::model::grid::{lemma_index_in_range, lemma_index_unique};
use vstd::prelude::*;

verus! {

#[derive(Clone, Copy, Debug, PartialEq, Eq, Structural)]
pub enum MineTile {
    /// Empty space.
    Empty,
    /// Looks like dirt until examined.
    UnexploredDirt,
    /// Just plain dirt: diggable.
    KnownDirt,
    /// Impenetrable surface material.
    Grass,
    Ladder,
    /// Beyond the edge of the universe.
    Invalid,
}

/// The mine as a mathematical object, indexed by `(x, y)`.
#[verifier::ext_equal]
pub struct MineView {
    pub width: int,
    pub height: int,
    pub cells: Map<(int, int), MineTile>,
}

impl MineView {
    pub open spec fn in_bounds(self, x: int, y: int) -> bool {
        0 <= x < self.width && 0 <= y < self.height
    }

    pub open spec fn tile_at(self, x: int, y: int) -> MineTile {
        if self.in_bounds(x, y) {
            self.cells[(x, y)]
        } else {
            MineTile::Invalid
        }
    }
}

pub const MINE_SIZE: u32 = 50;

/// The starting mine: two rows of sky over a row of grass, an open shaft one
/// column in from the right, and unexplored dirt everywhere else.
pub open spec fn initial_mine_tile(x: int, y: int) -> MineTile {
    if x == MINE_SIZE - 2 {
        MineTile::Empty
    } else if y <= 1 {
        MineTile::Empty
    } else if y == 2 {
        MineTile::Grass
    } else {
        MineTile::UnexploredDirt
    }
}

pub struct Mine {
    height: u32,
    width: u32,
    tiles: Vec<MineTile>,
}

impl View for Mine {
    type V = MineView;

    closed spec fn view(&self) -> MineView {
        MineView {
            width: self.width as int,
            height: self.height as int,
            cells: Map::new(
                |p: (int, int)| 0 <= p.0 < self.width && 0 <= p.1 < self.height,
                |p: (int, int)| self.tiles@[p.0 + p.1 * self.width],
            ),
        }
    }
}

impl Mine {
    pub closed spec fn storage_ok(&self) -> bool {
        &&& self.tiles@.len() == self.width * self.height
        &&& self.width * self.height <= u32::MAX
    }

    pub open spec fn wf(&self) -> bool {
        &&& self.storage_ok()
        &&& 0 <= self@.width <= u32::MAX
        &&& 0 <= self@.height <= u32::MAX
    }

    pub fn new() -> (r: Mine)
        ensures
            r.wf(),
            r@.width == MINE_SIZE,
            r@.height == MINE_SIZE,
            forall|x: int, y: int|
                r@.in_bounds(x, y) ==> #[trigger] r@.tile_at(x, y) == initial_mine_tile(x, y),
    {
        let mut tiles: Vec<MineTile> = Vec::new();
        while tiles.len() < (MINE_SIZE * MINE_SIZE) as usize
            invariant
                tiles@.len() <= MINE_SIZE * MINE_SIZE,
                forall|i: int| 0 <= i < tiles@.len() ==> tiles@[i] == MineTile::UnexploredDirt,
            decreases MINE_SIZE * MINE_SIZE - tiles@.len(),
        {
            tiles.push(MineTile::UnexploredDirt);
        }
        let mut m = Mine { height: MINE_SIZE, width: MINE_SIZE, tiles };
        let mut x: u32 = 0;
        while x < m.width
            invariant
                m.wf(),
                m.width == MINE_SIZE,
                m.height == MINE_SIZE,
                0 <= x <= MINE_SIZE,
                forall|a: int, b: int|
                    m@.in_bounds(a, b) ==> #[trigger] m@.tile_at(a, b) == if a < x && b <= 1 {
                        MineTile::Empty
                    } else if a < x && b == 2 {
                        MineTile::Grass
                    } else {
                        MineTile::UnexploredDirt
                    },
            decreases MINE_SIZE - x,
        {
            // Two rows of sky.
            m.set_tile(x, 0, MineTile::Empty);
            m.set_tile(x, 1, MineTile::Empty);
            // One row of impenetrable grass.
            m.set_tile(x, 2, MineTile::Grass);
            x += 1;
        }
        let mut y: u32 = 0;
        while y < m.height
            invariant
                m.wf(),
                m.width == MINE_SIZE,
                m.height == MINE_SIZE,
                0 <= y <= MINE_SIZE,
                forall|a: int, b: int|
                    m@.in_bounds(a, b) ==> #[trigger] m@.tile_at(a, b) == if a == MINE_SIZE - 2
                        && b < y {
                        MineTile::Empty
                    } else if b <= 1 {
                        MineTile::Empty
                    } else if b == 2 {
                        MineTile::Grass
                    } else {
                        MineTile::UnexploredDirt
                    },
            decreases MINE_SIZE - y,
        {
            // The elevator shaft.
            m.set_tile(m.width - 2, y, MineTile::Empty);
            y += 1;
        }
        m
    }

    pub fn width(&self) -> (r: u32)
        ensures
            r == self@.width,
    {
        self.width
    }

    pub fn height(&self) -> (r: u32)
        ensures
            r == self@.height,
    {
        self.height
    }

    /// The tile at `(x, y)`, or `Invalid` outside the mine.
    pub fn get_tile(&self, x: u32, y: u32) -> (r: MineTile)
        requires
            self.wf(),
        ensures
            r == self@.tile_at(x as int, y as int),
    {
        if x >= self.width || y >= self.height {
            return MineTile::Invalid;
        }
        let idx = self.index(x, y);
        self.tiles[idx]
    }

    /// Overwrites the tile at `(x, y)`, which must lie inside the mine.
    pub fn set_tile(&mut self, x: u32, y: u32, tile: MineTile)
        requires
            old(self).wf(),
            old(self)@.in_bounds(x as int, y as int),
        ensures
            final(self).wf(),
            final(self)@ == (MineView {
                cells: old(self)@.cells.insert((x as int, y as int), tile),
                ..old(self)@
            }),
            forall|a: int, b: int|
                (a, b) != (x as int, y as int) ==> #[trigger] final(self)@.tile_at(a, b) == old(
                    self,
                )@.tile_at(a, b),
            final(self)@.tile_at(x as int, y as int) == tile,
    {
        let idx = self.index(x, y);
        self.tiles.set(idx, tile);
        proof {
            let w = self.width as int;
            assert forall|p: (int, int)|
                0 <= p.0 < self.width && 0 <= p.1 < self.height && p != (
                    x as int,
                    y as int,
                ) implies self.tiles@[p.0 + p.1 * w] == old(self).tiles@[p.0 + p.1 * w] by {
                lemma_index_in_range(p.0, p.1, w, self.height as int);
                if p.0 + p.1 * w == idx {
                    lemma_index_unique(p.0, p.1, x as int, y as int, w);
                }
            }
            assert(self@.cells =~= old(self)@.cells.insert((x as int, y as int), tile));
        }
    }

    fn index(&self, x: u32, y: u32) -> (r: usize)
        requires
            self.wf(),
            x < self.width,
            y < self.height,
        ensures
            r == x + y * self.width,
            r < self.tiles@.len(),
    {
        proof {
            lemma_index_in_range(x as int, y as int, self.width as int, self.height as int);
        }
        (y * self.width + x) as usize
    }
}

} // verus!
