use crate::constants::{GRASS_LEVEL, MAP_WIDTH, SKY_HEIGHT};
use vstd::prelude::*;

verus! {

/// What one cell of the grid holds.
#[derive(Clone, Copy, Debug, PartialEq, Eq, Structural)]
pub enum TileType {
    Border,
    Dirt,
    Empty,
    Grass,
    Ladder,
    Rock { hardness: u8 },
    Sky,
    Treasure { value: u8 },
    /// Outside the grid: returned by reads out of range, never stored.
    Void,
    Water,
}

/// The grid as a mathematical object: its size, and a tile for each in-range cell.
#[verifier::ext_equal]
pub struct GridView {
    pub width: int,
    pub height: int,
    pub cells: Map<(int, int), TileType>,
}

pub open spec fn in_rect(x: int, y: int, x0: int, x1: int, y0: int, y1: int) -> bool {
    x0 <= x < x1 && y0 <= y < y1
}

impl GridView {
    pub open spec fn in_bounds(self, x: int, y: int) -> bool {
        0 <= x < self.width && 0 <= y < self.height
    }

    /// Every in-range cell holds a tile, none of them `Void`, and nothing else is held.
    pub open spec fn wf(self) -> bool {
        &&& 0 <= self.width <= i32::MAX
        &&& 0 <= self.height <= i32::MAX
        &&& forall|p: (int, int)| #[trigger]
            self.cells.contains_key(p) <==> self.in_bounds(p.0, p.1)
        &&& forall|p: (int, int)| #[trigger]
            self.cells.contains_key(p) ==> self.cells[p] != TileType::Void
    }

    /// The tile at `(x, y)`; `Void` outside the grid.
    pub open spec fn tile_at(self, x: int, y: int) -> TileType {
        if self.in_bounds(x, y) {
            self.cells[(x, y)]
        } else {
            TileType::Void
        }
    }

    pub open spec fn with_tile(self, x: int, y: int, t: TileType) -> GridView {
        GridView { cells: self.cells.insert((x, y), t), ..self }
    }

    /// Every cell of `[x0, x1) × [y0, y1)` set to `t`.
    pub open spec fn with_rect(self, x0: int, x1: int, y0: int, y1: int, t: TileType) -> GridView {
        GridView {
            cells: Map::new(
                |p: (int, int)| self.cells.contains_key(p),
                |p: (int, int)|
                    if in_rect(p.0, p.1, x0, x1, y0, y1) {
                        t
                    } else {
                        self.cells[p]
                    },
            ),
            ..self
        }
    }

    /// The grid of the given size whose tile at `(x, y)` is `f(x, y)`.
    pub open spec fn filled(width: int, height: int, f: spec_fn(int, int) -> TileType) -> GridView {
        GridView {
            width,
            height,
            cells: Map::new(
                |p: (int, int)| 0 <= p.0 < width && 0 <= p.1 < height,
                |p: (int, int)| f(p.0, p.1),
            ),
        }
    }
}

pub open spec fn is_border_cell(w: int, h: int, x: int, y: int) -> bool {
    x == 0 || x == w - 1 || y == 0 || y == h - 1
}

pub open spec fn is_sky_cell(w: int, x: int, y: int) -> bool {
    1 <= x < w - 1 && 1 <= y <= SKY_HEIGHT
}

pub open spec fn is_grass_cell(w: int, x: int, y: int) -> bool {
    1 <= x < w - 1 && y == GRASS_LEVEL
}

pub open spec fn is_ladder_cell(x: int, y: int) -> bool {
    (x == 3 || x == MAP_WIDTH / 2) && GRASS_LEVEL <= y <= GRASS_LEVEL + 2
}

/// The elevator shaft: two columns in from the right border, from the grass
/// line down to the bottom border.
pub open spec fn is_shaft_cell(w: int, h: int, x: int, y: int) -> bool {
    x == w - 3 && GRASS_LEVEL <= y < h - 1
}

/// Scenery beside the shaft: rocks of hardness 0 to 3 at depths 10, 20, 30, 40.
pub open spec fn is_scenery_cell(w: int, x: int, y: int) -> bool {
    x == w - 4 && 10 <= y <= 40 && y % 10 == 0
}

/// The tile that a freshly made grid of size `w × h` holds at `(x, y)`.
/// Later items of the layout are drawn over earlier ones.
pub open spec fn initial_tile(w: int, h: int, x: int, y: int) -> TileType {
    if is_scenery_cell(w, x, y) {
        TileType::Rock { hardness: (y / 10 - 1) as u8 }
    } else {
        unadorned_tile(w, h, x, y)
    }
}

/// The starting layout before the scenery rocks are placed.
pub open spec fn unadorned_tile(w: int, h: int, x: int, y: int) -> TileType {
    if is_shaft_cell(w, h, x, y) {
        TileType::Empty
    } else if is_ladder_cell(x, y) {
        TileType::Ladder
    } else if is_grass_cell(w, x, y) {
        TileType::Grass
    } else if is_sky_cell(w, x, y) {
        TileType::Sky
    } else if is_border_cell(w, h, x, y) {
        TileType::Border
    } else {
        TileType::Dirt
    }
}

pub open spec fn initial_grid(w: int, h: int) -> GridView {
    GridView::filled(w, h, |x: int, y: int| initial_tile(w, h, x, y))
}

/// Writing an in-range cell and reading it back gives the tile written.
pub proof fn lemma_set_then_tile(g: GridView, x: int, y: int, t: TileType)
    requires
        g.wf(),
        g.in_bounds(x, y),
    ensures
        g.with_tile(x, y, t).tile_at(x, y) == t,
        forall|a: int, b: int|
            (a, b) != (x, y) ==> #[trigger] g.with_tile(x, y, t).tile_at(a, b) == g.tile_at(a, b),
{
}

/// Reading outside the grid gives `Void`, and nothing in the grid is `Void`.
pub proof fn lemma_void_outside(g: GridView, x: int, y: int)
    requires
        g.wf(),
    ensures
        g.tile_at(x, y) == TileType::Void <==> !g.in_bounds(x, y),
{
    if g.in_bounds(x, y) {
        assert(g.cells.contains_key((x, y)));
    }
}

pub(crate) proof fn lemma_index_in_range(x: int, y: int, w: int, h: int)
    requires
        0 <= x < w,
        0 <= y < h,
    ensures
        0 <= x + y * w < w * h,
        y * w <= w * h,
{
    assert(0 <= y * w) by (nonlinear_arith)
        requires
            0 <= y,
            0 <= w,
    ;
    assert(y * w + w <= w * h) by (nonlinear_arith)
        requires
            y < h,
            0 <= w,
    ;
}

pub(crate) proof fn lemma_index_unique(x1: int, y1: int, x2: int, y2: int, w: int)
    requires
        0 <= x1 < w,
        0 <= x2 < w,
        0 <= y1,
        0 <= y2,
        x1 + y1 * w == x2 + y2 * w,
    ensures
        x1 == x2,
        y1 == y2,
{
    if y1 < y2 {
        assert(y1 * w + w <= y2 * w) by (nonlinear_arith)
            requires
                y1 < y2,
                0 <= w,
        ;
    } else if y2 < y1 {
        assert(y2 * w + w <= y1 * w) by (nonlinear_arith)
            requires
                y2 < y1,
                0 <= w,
        ;
    }
}

/// A fixed-size grid of tiles, stored row by row.
pub struct Grid {
    height: usize,
    width: usize,
    tiles: Vec<TileType>,
}

impl View for Grid {
    type V = GridView;

    closed spec fn view(&self) -> GridView {
        GridView {
            width: self.width as int,
            height: self.height as int,
            cells: Map::new(
                |p: (int, int)| 0 <= p.0 < self.width && 0 <= p.1 < self.height,
                |p: (int, int)| self.tiles@[p.0 + p.1 * self.width],
            ),
        }
    }
}

impl Grid {
    pub closed spec fn storage_ok(&self) -> bool {
        &&& self.tiles@.len() == self.width * self.height
        &&& self.width * self.height <= usize::MAX
        &&& self.width <= i32::MAX
        &&& self.height <= i32::MAX
    }

    pub open spec fn wf(&self) -> bool {
        self.storage_ok() && self@.wf()
    }

    /// A grid of the given size with the starting layout: borders all round, a
    /// band of sky, a grass line with two short ladders, the elevator shaft,
    /// a few rocks beside it, and dirt everywhere else. The layout places a
    /// ladder at column `MAP_WIDTH / 2` and a rock at row 40, so the grid must
    /// reach past both.
    pub fn new(width: usize, height: usize) -> (r: Grid)
        requires
            MAP_WIDTH / 2 < width <= i32::MAX,
            40 < height <= i32::MAX,
            width * height <= usize::MAX,
        ensures
            r.wf(),
            r@ == initial_grid(width as int, height as int),
    {
        let n = height * width;
        let mut tiles: Vec<TileType> = Vec::with_capacity(n);
        while tiles.len() < n
            invariant
                tiles@.len() <= n,
                forall|i: int| 0 <= i < tiles@.len() ==> tiles@[i] == TileType::Dirt,
            decreases n - tiles@.len(),
        {
            tiles.push(TileType::Dirt);
        }
        let mut map = Grid { height, width, tiles };
        proof {
            assert forall|p: (int, int)|
                0 <= p.0 < width && 0 <= p.1 < height implies map.tiles@[p.0 + p.1 * width]
                == TileType::Dirt by {
                lemma_index_in_range(p.0, p.1, width as int, height as int);
            }
            assert(map@.cells =~= GridView::filled(
                width as int,
                height as int,
                |x: int, y: int| TileType::Dirt,
            ).cells);
        }
        map.init_default_tiles();
        map
    }

    /// The tile at `(x, y)`, or `Void` outside the grid.
    pub fn tile(&self, x: i32, y: i32) -> (r: TileType)
        requires
            self.wf(),
        ensures
            r == self@.tile_at(x as int, y as int),
    {
        if x < 0 || x as usize >= self.width {
            return TileType::Void;
        }
        if y < 0 || y as usize >= self.height {
            return TileType::Void;
        }
        self.tiles[self.tile_idx(x, y)]
    }

    /// Overwrites the tile at `(x, y)`, which must lie inside the grid.
    pub fn set_tile(&mut self, x: i32, y: i32, t: TileType)
        requires
            old(self).wf(),
            old(self)@.in_bounds(x as int, y as int),
            t != TileType::Void,
        ensures
            final(self).wf(),
            final(self)@ == old(self)@.with_tile(x as int, y as int, t),
    {
        let idx = self.tile_idx(x, y);
        self.tiles.set(idx, t);
        proof {
            let w = self.width as int;
            assert forall|p: (int, int)|
                0 <= p.0 < self.width && 0 <= p.1 < self.height && p != (
                    x as int,
                    y as int,
                ) implies self.tiles@[p.0 + p.1 * w] == old(self).tiles@[p.0 + p.1 * w] by {
                lemma_index_in_range(p.0, p.1, w, self.height as int);
                if p.0 + p.1 * w == idx {
                    lemma_index_unique(p.0, p.1, x as int, y as int, w);
                }
            }
            assert(self@.cells =~= old(self)@.cells.insert((x as int, y as int), t));
        }
    }

    /// Sets every cell of `[x0, x1) × [y0, y1)` to `t`.
    fn fill_rect(&mut self, x0: i32, x1: i32, y0: i32, y1: i32, t: TileType)
        requires
            old(self).wf(),
            0 <= x0 <= x1 <= old(self)@.width,
            0 <= y0 <= y1 <= old(self)@.height,
            t != TileType::Void,
        ensures
            final(self).wf(),
            final(self)@ == old(self)@.with_rect(x0 as int, x1 as int, y0 as int, y1 as int, t),
    {
        let ghost g0 = self@;
        let mut x = x0;
        while x < x1
            invariant
                self.wf(),
                0 <= x0 <= x <= x1,
                self@ == g0.with_rect(x0 as int, x as int, y0 as int, y1 as int, t),
                g0.wf(),
                x1 <= g0.width,
                0 <= y0 <= y1 <= g0.height,
                t != TileType::Void,
            decreases x1 - x,
        {
            let mut y = y0;
            while y < y1
                invariant
                    self.wf(),
                    0 <= x0 <= x < x1,
                    y0 <= y <= y1,
                    self@ == g0.with_rect(x0 as int, x as int, y0 as int, y1 as int, t).with_rect(
                        x as int,
                        x + 1,
                        y0 as int,
                        y as int,
                        t,
                    ),
                    g0.wf(),
                    x1 <= g0.width,
                    0 <= y0 <= y1 <= g0.height,
                    t != TileType::Void,
                decreases y1 - y,
            {
                self.set_tile(x, y, t);
                y += 1;
                assert(self@ =~= g0.with_rect(x0 as int, x as int, y0 as int, y1 as int, t).with_rect(
                    x as int,
                    x + 1,
                    y0 as int,
                    y as int,
                    t,
                ));
            }
            x += 1;
            assert(self@ =~= g0.with_rect(x0 as int, x as int, y0 as int, y1 as int, t));
        }
    }

    fn init_default_tiles(&mut self)
        requires
            old(self).wf(),
            old(self)@ == GridView::filled(
                old(self)@.width,
                old(self)@.height,
                |x: int, y: int| TileType::Dirt,
            ),
            MAP_WIDTH / 2 < old(self)@.width,
            40 < old(self)@.height,
        ensures
            final(self).wf(),
            final(self)@ == initial_grid(old(self)@.width, old(self)@.height),
    {
        let h = self.height as i32;
        let w = self.width as i32;

        // Borders.
        self.fill_rect(0, w, 0, 1, TileType::Border);
        self.fill_rect(0, w, h - 1, h, TileType::Border);
        self.fill_rect(0, 1, 0, h, TileType::Border);
        self.fill_rect(w - 1, w, 0, h, TileType::Border);
        // Sky, and the grass line beneath it.
        self.fill_rect(1, w - 1, 1, SKY_HEIGHT + 1, TileType::Sky);
        self.fill_rect(1, w - 1, GRASS_LEVEL, GRASS_LEVEL + 1, TileType::Grass);
        // Two short ladders down from the grass.
        self.fill_rect(3, 4, GRASS_LEVEL, GRASS_LEVEL + 3, TileType::Ladder);
        self.fill_rect(MAP_WIDTH / 2, MAP_WIDTH / 2 + 1, GRASS_LEVEL, GRASS_LEVEL + 3, TileType::Ladder);
        // The elevator shaft; column w - 2 stays dirt, w - 1 is the border.
        self.fill_rect(w - 3, w - 2, GRASS_LEVEL, h - 1, TileType::Empty);
        let ghost wv = w as int;
        let ghost hv = h as int;
        assert(self@ =~= GridView::filled(wv, hv, |x: int, y: int| unadorned_tile(wv, hv, x, y)));

        // A little scenery along the shaft.
        let mut i: i32 = 0;
        while i <= 3
            invariant
                self.wf(),
                0 <= i <= 4,
                self@.width == wv,
                self@.height == hv,
                wv == w,
                hv == h,
                MAP_WIDTH / 2 < w,
                40 < h,
                self@ == GridView::filled(
                    wv,
                    hv,
                    |x: int, y: int|
                        if is_scenery_cell(wv, x, y) && y < 10 * i + 10 {
                            TileType::Rock { hardness: (y / 10 - 1) as u8 }
                        } else {
                            unadorned_tile(wv, hv, x, y)
                        },
                ),
            decreases 4 - i,
        {
            self.set_tile(w - 4, 10 * i + 10, TileType::Rock { hardness: i as u8 });
            i += 1;
            assert(self@ =~= GridView::filled(
                wv,
                hv,
                |x: int, y: int|
                    if is_scenery_cell(wv, x, y) && y < 10 * i + 10 {
                        TileType::Rock { hardness: (y / 10 - 1) as u8 }
                    } else {
                        unadorned_tile(wv, hv, x, y)
                    },
            ));
        }
        assert(self@ =~= initial_grid(wv, hv));
    }

    fn tile_idx(&self, x: i32, y: i32) -> (r: usize)
        requires
            self.storage_ok(),
            0 <= x < self.width,
            0 <= y < self.height,
        ensures
            r == x + y * self.width,
            r < self.tiles@.len(),
    {
        proof {
            lemma_index_in_range(x as int, y as int, self.width as int, self.height as int);
            assert(y as int * self.width as int <= self.tiles@.len());
        }
        x as usize + y as usize * self.width
    }
}

} // verus!
