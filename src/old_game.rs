//! The first playable prototype: a player walking, falling and climbing
//! through a small mine, with no digging yet.

pub mod mine;

use crate::old_game::mine::{Mine, MineTile, MineView};
use vstd::prelude::*;
use vstd::string::StringExecFns;

verus! {

#[derive(Clone, Copy, Debug, PartialEq, Eq, Structural)]
pub enum Direction {
    Left,
    Right,
    Up,
    Down,
}

#[derive(Clone, Copy, Debug, PartialEq, Eq, Structural)]
pub struct Point {
    pub x: u32,
    pub y: u32,
}

/// The cell one step from `p` in direction `d`.
pub open spec fn step(p: (int, int), d: Direction) -> (int, int) {
    match d {
        Direction::Left => (p.0 - 1, p.1),
        Direction::Right => (p.0 + 1, p.1),
        Direction::Up => (p.0, p.1 - 1),
        Direction::Down => (p.0, p.1 + 1),
    }
}

/// Where a command leaves a player standing at `p`: someone in open space
/// with open space below falls instead; climbing needs a ladder; any step
/// needs open space to step into.
pub open spec fn after_command(m: MineView, p: (int, int), d: Direction) -> (int, int) {
    let here = m.tile_at(p.0, p.1);
    if here == MineTile::Empty && m.tile_at(p.0, p.1 + 1) == MineTile::Empty {
        (p.0, p.1 + 1)
    } else if d == Direction::Up && here != MineTile::Ladder {
        p
    } else if m.tile_at(step(p, d).0, step(p, d).1) == MineTile::Empty {
        step(p, d)
    } else {
        p
    }
}

pub open spec fn pos_of(p: Point) -> (int, int) {
    (p.x as int, p.y as int)
}

/// How one cell is drawn as text: the player as `*`, open space, dirt and
/// grass as three shades, anything else as `?`.
pub open spec fn cell_char(m: MineView, player: Point, x: int, y: int) -> char {
    if player.x == x && player.y == y {
        '*'
    } else {
        match m.tile_at(x, y) {
            MineTile::Empty => '\u{2591}',
            MineTile::KnownDirt | MineTile::UnexploredDirt => '\u{2592}',
            MineTile::Grass => '\u{2593}',
            _ => '?',
        }
    }
}

/// Row `y` drawn as text, ending in a newline.
pub open spec fn row_text(m: MineView, player: Point, y: int) -> Seq<char> {
    Seq::new(m.width as nat, |x: int| cell_char(m, player, x, y)).push('\n')
}

/// The first `n` rows drawn as text.
pub open spec fn rows_text(m: MineView, player: Point, n: nat) -> Seq<char>
    decreases n,
{
    if n == 0 {
        seq![]
    } else {
        rows_text(m, player, (n - 1) as nat) + row_text(m, player, n - 1)
    }
}

pub struct Game {
    pub mine: Mine,
    pub player_pos: Point,
}

impl Game {
    pub open spec fn wf(&self) -> bool {
        self.mine.wf()
    }

    pub fn new() -> (r: Game)
        ensures
            r.wf(),
            r.player_pos == (Point { x: 40, y: 1 }),
            r.mine@.width == 50,
            r.mine@.height == 50,
            forall|x: int, y: int|
                r.mine@.in_bounds(x, y) ==> #[trigger] r.mine@.tile_at(x, y)
                    == crate::old_game::mine::initial_mine_tile(x, y),
    {
        Game { mine: Mine::new(), player_pos: Point { x: 40, y: 1 } }
    }

    pub fn player_tile(&self) -> (r: MineTile)
        requires
            self.wf(),
        ensures
            r == self.mine@.tile_at(self.player_pos.x as int, self.player_pos.y as int),
    {
        self.get_tile(self.player_pos)
    }

    pub fn move_player(&mut self, command: Direction)
        requires
            old(self).wf(),
        ensures
            final(self).wf(),
            final(self).mine == old(self).mine,
            pos_of(final(self).player_pos) == after_command(
                old(self).mine@,
                pos_of(old(self).player_pos),
                command,
            ),
    {
        let pos = self.player_pos;
        let here = self.player_tile();
        if here == MineTile::Empty && pos.y < u32::MAX {
            let below = Point { x: pos.x, y: pos.y + 1 };
            if self.get_tile(below) == MineTile::Empty {
                // Fall.
                self.set_player_pos(below);
                return;
            }
        }
        if command == Direction::Up && here != MineTile::Ladder {
            // Can't climb without a ladder.
            return;
        }
        // A step off the edge of `u32` leads nowhere.
        let target = match command {
            Direction::Left => if pos.x > 0 {
                Some(Point { x: pos.x - 1, y: pos.y })
            } else {
                None
            },
            Direction::Right => if pos.x < u32::MAX {
                Some(Point { x: pos.x + 1, y: pos.y })
            } else {
                None
            },
            Direction::Up => if pos.y > 0 {
                Some(Point { x: pos.x, y: pos.y - 1 })
            } else {
                None
            },
            Direction::Down => if pos.y < u32::MAX {
                Some(Point { x: pos.x, y: pos.y + 1 })
            } else {
                None
            },
        };
        if let Some(t) = target {
            if self.get_tile(t) == MineTile::Empty {
                self.set_player_pos(t);
            }
        }
    }

    /// The whole mine drawn as text, one line per row.
    pub fn render_text(&self) -> (r: String)
        requires
            self.wf(),
        ensures
            r@ == rows_text(self.mine@, self.player_pos, self.mine@.height as nat),
    {
        let mut out = String::new();
        let height = self.mine.height();
        let width = self.mine.width();
        let mut y: u32 = 0;
        while y < height
            invariant
                self.wf(),
                height == self.mine@.height,
                width == self.mine@.width,
                y <= height,
                out@ == rows_text(self.mine@, self.player_pos, y as nat),
            decreases height - y,
        {
            let ghost start = out@;
            let mut x: u32 = 0;
            while x < width
                invariant
                    self.wf(),
                    height == self.mine@.height,
                    width == self.mine@.width,
                    y < height,
                    x <= width,
                    out@ == start + Seq::new(
                        x as nat,
                        |i: int| cell_char(self.mine@, self.player_pos, i, y as int),
                    ),
                decreases width - x,
            {
                if self.player_pos.x == x && self.player_pos.y == y {
                    out.append("*");
                    proof {
                        reveal_strlit("*");
                    }
                } else {
                    match self.get_tile(Point { x, y }) {
                        MineTile::Empty => {
                            out.append("\u{2591}");
                            proof {
                                reveal_strlit("\u{2591}");
                            }
                        },
                        MineTile::KnownDirt | MineTile::UnexploredDirt => {
                            out.append("\u{2592}");
                            proof {
                                reveal_strlit("\u{2592}");
                            }
                        },
                        MineTile::Grass => {
                            out.append("\u{2593}");
                            proof {
                                reveal_strlit("\u{2593}");
                            }
                        },
                        _ => {
                            out.append("?");
                            proof {
                                reveal_strlit("?");
                            }
                        },
                    }
                }
                x += 1;
                assert(out@ =~= start + Seq::new(
                    x as nat,
                    |i: int| cell_char(self.mine@, self.player_pos, i, y as int),
                ));
            }
            out.append("\n");
            proof {
                reveal_strlit("\n");
            }
            y += 1;
            assert(out@ =~= rows_text(self.mine@, self.player_pos, y as nat));
        }
        out
    }

    pub fn get_tile(&self, pt: Point) -> (r: MineTile)
        requires
            self.wf(),
        ensures
            r == self.mine@.tile_at(pt.x as int, pt.y as int),
    {
        self.mine.get_tile(pt.x, pt.y)
    }

    pub fn set_player_pos(&mut self, pt: Point)
        ensures
            *final(self) == (Game { player_pos: pt, ..*old(self) }),
    {
        self.player_pos = pt;
    }
}

} // verus!
