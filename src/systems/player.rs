use crate::constants::{
    BANK_X, BANK_Y, ELEVATOR_SHAFT_X, SKY_HEIGHT, TREASURE_BASE_VALUE,
};
use crate::model::elevator::Elevator;
use crate::model::grid::{Grid, GridView, TileType};
use crate::model::player::Player;
use crate::random::roll_below;
use vstd::arithmetic::power2::{
    lemma2_to64, lemma_pow2_strictly_increases, lemma_pow2_unfold, pow2,
};
use vstd::prelude::*;

verus! {

/// Digging draws its outcome from `[0, OUTCOME_ROLLS)`.
pub const OUTCOME_ROLLS: u32 = 50;

/// Outcome rolls in `[0, ROCK_ROLLS_END)` turn the dirt into rock.
pub const ROCK_ROLLS_END: u32 = 10;

/// Outcome rolls in `[ROCK_ROLLS_END, TREASURE_ROLLS_END)` uncover treasure.
pub const TREASURE_ROLLS_END: u32 = 13;

/// The one outcome roll that floods the neighbourhood.
pub const FLOOD_ROLL: u32 = 20;

/// The one outcome roll that caves the neighbourhood in.
pub const CAVE_IN_ROLL: u32 = 21;

/// The roll that, with the depth, sets a new rock's hardness or a treasure's value.
pub const SEVERITY_ROLLS: u32 = 50;

/// Depth (plus severity roll) per step of hardness or value.
pub const DEPTH_PER_SEVERITY: i32 = 25;

pub const MAX_ROCK_HARDNESS: u8 = 3;

pub const MAX_TREASURE_VALUE: u8 = 2;

/// A hazard reaches this many cells from the dug cell along each axis.
pub const HAZARD_RADIUS: i32 = 5;

/// Side of the hazard square: `2 * HAZARD_RADIUS + 1`.
pub const HAZARD_SIDE: i32 = 11;

/// One roll per cell of the hazard square.
pub const HAZARD_CELLS: usize = 121;

/// Hazard rolls are drawn from `[0, HAZARD_ROLLS)`, i.e. in percent.
pub const HAZARD_ROLLS: u32 = 100;

/// Chance in percent that a flood reaches a given cell.
pub const FLOOD_CHANCE: u32 = 10;

/// Chance in percent that a cave-in reaches a given cell.
pub const CAVE_IN_CHANCE: u32 = 50;

/// What digging a dirt tile turns into.
#[derive(Clone, Copy, Debug, PartialEq, Eq, Structural)]
pub enum DigOutcome {
    Rock,
    Treasure,
    Flood,
    CaveIn,
    Clear,
}

/// The weighted outcome table: ten rolls of fifty give rock, three give
/// treasure, one floods, one caves in, and the rest clear the tile.
pub open spec fn outcome_of(roll: int) -> DigOutcome {
    if 0 <= roll < ROCK_ROLLS_END {
        DigOutcome::Rock
    } else if ROCK_ROLLS_END <= roll < TREASURE_ROLLS_END {
        DigOutcome::Treasure
    } else if roll == FLOOD_ROLL {
        DigOutcome::Flood
    } else if roll == CAVE_IN_ROLL {
        DigOutcome::CaveIn
    } else {
        DigOutcome::Clear
    }
}

pub fn dig_outcome(roll: u32) -> (r: DigOutcome)
    ensures
        r == outcome_of(roll as int),
{
    if roll < ROCK_ROLLS_END {
        DigOutcome::Rock
    } else if roll < TREASURE_ROLLS_END {
        DigOutcome::Treasure
    } else if roll == FLOOD_ROLL {
        DigOutcome::Flood
    } else if roll == CAVE_IN_ROLL {
        DigOutcome::CaveIn
    } else {
        DigOutcome::Clear
    }
}

/// The random numbers one tick of digging may use.
pub struct DigRolls {
    pub outcome: u32,
    pub severity: u32,
    /// One roll per cell of a hazard's square, column by column.
    pub hazard: Vec<u32>,
}

impl DigRolls {
    pub open spec fn wf(&self) -> bool {
        &&& self.outcome < OUTCOME_ROLLS
        &&& self.severity < SEVERITY_ROLLS
        &&& self.hazard@.len() == HAZARD_CELLS
        &&& forall|i: int| 0 <= i < self.hazard@.len() ==> #[trigger] self.hazard@[i] < HAZARD_ROLLS
    }

    /// Draws every roll a tick of digging may need.
    pub fn draw() -> (r: DigRolls)
        ensures
            r.wf(),
    {
        let outcome = roll_below(OUTCOME_ROLLS);
        let severity = roll_below(SEVERITY_ROLLS);
        let mut hazard: Vec<u32> = Vec::new();
        while hazard.len() < HAZARD_CELLS
            invariant
                hazard@.len() <= HAZARD_CELLS,
                forall|i: int| 0 <= i < hazard@.len() ==> #[trigger] hazard@[i] < HAZARD_ROLLS,
            decreases HAZARD_CELLS - hazard@.len(),
        {
            hazard.push(roll_below(HAZARD_ROLLS));
        }
        DigRolls { outcome, severity, hazard }
    }
}

/// The player stands in the cab: on the shaft column, at the cab's depth.
pub open spec fn in_cab(p: Player, depth: int) -> bool {
    p.x == ELEVATOR_SHAFT_X && p.y - SKY_HEIGHT == depth
}

/// The cell the player tries to enter this tick. Riding the cab cancels
/// vertical intent; with nothing below and no ladder to hold, the player falls.
pub open spec fn proposed_target(p: Player, g: GridView, depth: int) -> (int, int) {
    if in_cab(p, depth) {
        (p.target_x as int, p.y as int)
    } else if g.tile_at(p.x as int, p.y + 1) == TileType::Empty && g.tile_at(p.x as int, p.y as int)
        != TileType::Ladder {
        (p.x as int, p.y + 1)
    } else {
        (p.target_x as int, p.target_y as int)
    }
}

/// Hardness or value of what digging at depth `y` uncovers, before capping.
pub open spec fn severity_of(roll: int, y: int) -> int {
    (roll + y) / (DEPTH_PER_SEVERITY as int)
}

pub open spec fn capped(v: int, cap: int) -> int {
    if v <= cap {
        v
    } else {
        cap
    }
}

/// Money paid for a treasure of the given value: `(1 << value) * TREASURE_BASE_VALUE`.
pub open spec fn treasure_reward(value: int) -> int {
    pow2(value as nat) * TREASURE_BASE_VALUE
}

/// Passable tiles: the player may stand in them.
pub open spec fn passable(t: TileType) -> bool {
    t == TileType::Empty || t == TileType::Ladder || t == TileType::Sky
}

pub open spec fn in_hazard_square(tx: int, ty: int, x: int, y: int) -> bool {
    tx - HAZARD_RADIUS <= x <= tx + HAZARD_RADIUS && ty - HAZARD_RADIUS <= y <= ty + HAZARD_RADIUS
}

/// Which hazard roll belongs to cell `(x, y)` of the square around `(tx, ty)`.
pub open spec fn hazard_index(tx: int, ty: int, x: int, y: int) -> int {
    (x - tx + HAZARD_RADIUS) * HAZARD_SIDE + (y - ty + HAZARD_RADIUS)
}

/// A flood turns open space and dirt into water; a cave-in turns open space
/// and ladders into dirt.
pub open spec fn hazard_takes(flood: bool, t: TileType) -> bool {
    if flood {
        t == TileType::Empty || t == TileType::Dirt
    } else {
        t == TileType::Empty || t == TileType::Ladder
    }
}

pub open spec fn hazard_result(flood: bool) -> TileType {
    if flood {
        TileType::Water
    } else {
        TileType::Dirt
    }
}

pub open spec fn hazard_chance(flood: bool) -> int {
    if flood {
        FLOOD_CHANCE as int
    } else {
        CAVE_IN_CHANCE as int
    }
}

/// Whether a hazard around `(tx, ty)` changes cell `(x, y)`: its roll comes
/// in under the chance, the tile is one the hazard takes, and the cell is
/// neither the player's `(px, py)` nor at or beyond the shaft column.
pub open spec fn hazard_hits(
    g: GridView,
    px: int,
    py: int,
    tx: int,
    ty: int,
    rolls: Seq<u32>,
    flood: bool,
    x: int,
    y: int,
) -> bool {
    &&& in_hazard_square(tx, ty, x, y)
    &&& rolls[hazard_index(tx, ty, x, y)] < hazard_chance(flood)
    &&& hazard_takes(flood, g.tile_at(x, y))
    &&& !(x == px && y == py)
    &&& x < ELEVATOR_SHAFT_X
}

/// The grid after the hazard has been applied to the cells whose roll comes
/// before `done`.
pub open spec fn hazard_upto(
    g: GridView,
    px: int,
    py: int,
    tx: int,
    ty: int,
    rolls: Seq<u32>,
    flood: bool,
    done: int,
) -> GridView {
    GridView {
        cells: Map::new(
            |q: (int, int)| g.cells.contains_key(q),
            |q: (int, int)|
                if hazard_index(tx, ty, q.0, q.1) < done && hazard_hits(
                    g,
                    px,
                    py,
                    tx,
                    ty,
                    rolls,
                    flood,
                    q.0,
                    q.1,
                ) {
                    hazard_result(flood)
                } else {
                    g.cells[q]
                },
        ),
        ..g
    }
}

/// The grid after a flood (or cave-in) around `(tx, ty)`.
pub open spec fn after_hazard(
    g: GridView,
    px: int,
    py: int,
    tx: int,
    ty: int,
    rolls: Seq<u32>,
    flood: bool,
) -> GridView {
    hazard_upto(g, px, py, tx, ty, rolls, flood, HAZARD_CELLS as int)
}

/// What happens to the targeted cell `t` and to the player: dirt is dug if
/// one unit of energy can be spent, treasure is collected and stepped onto,
/// anything else is left alone.
pub open spec fn dug(
    p: Player,
    g: GridView,
    t: (int, int),
    outcome: int,
    severity: int,
    hazard: Seq<u32>,
) -> (Player, GridView) {
    let (tx, ty) = t;
    match g.tile_at(tx, ty) {
        TileType::Dirt => {
            if p.energy >= 1 {
                let p_dug = Player { energy: (p.energy - 1) as i32, ..p };
                let level = severity_of(severity, ty);
                match outcome_of(outcome) {
                    DigOutcome::Rock => (
                        p_dug,
                        g.with_tile(
                            tx,
                            ty,
                            TileType::Rock { hardness: capped(level, MAX_ROCK_HARDNESS as int) as u8 },
                        ),
                    ),
                    DigOutcome::Treasure => (
                        p_dug,
                        g.with_tile(
                            tx,
                            ty,
                            TileType::Treasure {
                                value: capped(level, MAX_TREASURE_VALUE as int) as u8,
                            },
                        ),
                    ),
                    DigOutcome::Flood => (p_dug, after_hazard(g, p.x as int, p.y as int, tx, ty, hazard, true)),
                    DigOutcome::CaveIn => (
                        p_dug,
                        after_hazard(g, p.x as int, p.y as int, tx, ty, hazard, false),
                    ),
                    DigOutcome::Clear => (p_dug, g.with_tile(tx, ty, TileType::Empty)),
                }
            } else {
                (p, g)
            }
        },
        TileType::Treasure { value } => (
            Player {
                money: (p.money + treasure_reward(value as int)) as i32,
                x: tx as i32,
                y: ty as i32,
                ..p
            },
            g.with_tile(tx, ty, TileType::Empty),
        ),
        _ => (p, g),
    }
}

/// One full player tick, given the rolls: the target is chosen, the targeted
/// cell resolved, climbing through open air cancelled, the move made if the
/// cell is passable, and energy recharged on the bank cell.
pub open spec fn resolved(
    p: Player,
    g: GridView,
    depth: int,
    outcome: int,
    severity: int,
    hazard: Seq<u32>,
) -> (Player, GridView) {
    let t = proposed_target(p, g, depth);
    let (p_dug, g_dug) = dug(p, g, t, outcome, severity, hazard);
    let ty = if !in_cab(p, depth) && g_dug.tile_at(p_dug.x as int, p_dug.y as int) == TileType::Empty && t.1
        < p_dug.y {
        p_dug.y as int
    } else {
        t.1
    };
    let moves = passable(g_dug.tile_at(t.0, ty));
    let nx = if moves {
        t.0
    } else {
        p_dug.x as int
    };
    let ny = if moves {
        ty
    } else {
        p_dug.y as int
    };
    let p_moved = Player { x: nx as i32, y: ny as i32, target_x: nx as i32, target_y: ny as i32, ..p_dug };
    if nx == BANK_X && ny == BANK_Y {
        (p_moved.refilled(), g_dug)
    } else {
        (p_moved, g_dug)
    }
}

/// Collecting a treasure, if that is what the target holds, leaves the money
/// representable.
pub open spec fn reward_fits(p: Player, g: GridView, depth: int) -> bool {
    let t = proposed_target(p, g, depth);
    match g.tile_at(t.0, t.1) {
        TileType::Treasure { value } => {
            &&& treasure_reward(value as int) <= i32::MAX
            &&& p.money + treasure_reward(value as int) <= i32::MAX
        },
        _ => true,
    }
}

fn tile_below(map: &Grid, x: i32, y: i32) -> (r: TileType)
    requires
        map.wf(),
    ensures
        r == map@.tile_at(x as int, y + 1),
{
    if y == i32::MAX {
        TileType::Void
    } else {
        map.tile(x, y + 1)
    }
}

/// Whether the player stands in the cab at `depth`.
pub fn player_in_cab(player: &Player, depth: i32) -> (r: bool)
    ensures
        r == in_cab(*player, depth as int),
{
    player.x == ELEVATOR_SHAFT_X && player.y as i64 - SKY_HEIGHT as i64 == depth as i64
}

/// The cell the player tries to enter this tick.
pub fn target_of(player: &Player, map: &Grid, depth: i32) -> (r: (i32, i32))
    requires
        map.wf(),
    ensures
        (r.0 as int, r.1 as int) == proposed_target(*player, map@, depth as int),
{
    if player_in_cab(player, depth) {
        (player.target_x, player.y)
    } else if tile_below(map, player.x, player.y) == TileType::Empty && map.tile(player.x, player.y)
        != TileType::Ladder {
        proof {
            assert(map@.in_bounds(player.x as int, player.y + 1));
        }
        (player.x, player.y + 1)
    } else {
        (player.target_x, player.target_y)
    }
}

/// Whether collecting what the player targets keeps money representable,
/// as `resolve_move` and `move_player` require.
pub fn collect_fits(player: &Player, map: &Grid, depth: i32) -> (r: bool)
    requires
        map.wf(),
    ensures
        r == reward_fits(*player, map@, depth as int),
{
    let (tx, ty) = target_of(player, map, depth);
    match map.tile(tx, ty) {
        TileType::Treasure { value } => {
            proof {
                lemma2_to64();
            }
            if value > 23 {
                proof {
                    if value > 24 {
                        lemma_pow2_strictly_increases(24, value as nat);
                    }
                }
                false
            } else {
                proof {
                    if value < 23 {
                        lemma_pow2_strictly_increases(value as nat, 23);
                    }
                }
                let reward = reward_for(value);
                player.money as i64 + reward as i64 <= i32::MAX as i64
            }
        },
        _ => true,
    }
}

/// `(1 << value) * TREASURE_BASE_VALUE`, computed by doubling.
pub fn reward_for(value: u8) -> (r: i32)
    requires
        treasure_reward(value as int) <= i32::MAX,
    ensures
        r == treasure_reward(value as int),
{
    let mut r: i32 = TREASURE_BASE_VALUE;
    let mut i: u8 = 0;
    proof {
        lemma2_to64();
    }
    while i < value
        invariant
            i <= value,
            r == pow2(i as nat) * TREASURE_BASE_VALUE,
            pow2(value as nat) * TREASURE_BASE_VALUE <= i32::MAX,
        decreases value - i,
    {
        proof {
            lemma_pow2_unfold((i + 1) as nat);
            if i + 1 < value {
                lemma_pow2_strictly_increases((i + 1) as nat, value as nat);
            }
        }
        r = r * 2;
        i += 1;
    }
    r
}

/// Hardness or value of what digging at depth `y` uncovers, capped at `cap`.
fn severity_level(roll: u32, y: i32, cap: u8) -> (r: u8)
    requires
        y >= 0,
    ensures
        r == capped(severity_of(roll as int, y as int), cap as int),
{
    let level = (roll as i64 + y as i64) / (DEPTH_PER_SEVERITY as i64);
    if level <= cap as i64 {
        level as u8
    } else {
        cap
    }
}

/// Spreads a flood (or a cave-in) over the square around `(tx, ty)`, one
/// roll per cell, sparing the player's cell `(px, py)` and the shaft side.
fn spread_hazard(map: &mut Grid, px: i32, py: i32, tx: i32, ty: i32, rolls: &Vec<u32>, flood: bool)
    requires
        old(map).wf(),
        rolls@.len() == HAZARD_CELLS,
        old(map)@.in_bounds(tx as int, ty as int),
    ensures
        final(map).wf(),
        final(map)@ == after_hazard(
            old(map)@,
            px as int,
            py as int,
            tx as int,
            ty as int,
            rolls@,
            flood,
        ),
{
    let ghost g0 = map@;
    let chance = if flood {
        FLOOD_CHANCE
    } else {
        CAVE_IN_CHANCE
    };
    let into = if flood {
        TileType::Water
    } else {
        TileType::Dirt
    };
    let mut dx: i32 = 0;
    while dx < HAZARD_SIDE
        invariant
            0 <= dx <= HAZARD_SIDE,
            map.wf(),
            g0.wf(),
            g0.in_bounds(tx as int, ty as int),
            rolls@.len() == HAZARD_CELLS,
            chance == hazard_chance(flood),
            into == hazard_result(flood),
            map@ == hazard_upto(
                g0,
                px as int,
                py as int,
                tx as int,
                ty as int,
                rolls@,
                flood,
                dx * HAZARD_SIDE,
            ),
        decreases HAZARD_SIDE - dx,
    {
        let mut dy: i32 = 0;
        while dy < HAZARD_SIDE
            invariant
                0 <= dx < HAZARD_SIDE,
                0 <= dy <= HAZARD_SIDE,
                map.wf(),
                g0.wf(),
                g0.in_bounds(tx as int, ty as int),
                rolls@.len() == HAZARD_CELLS,
                chance == hazard_chance(flood),
                into == hazard_result(flood),
                map@ == hazard_upto(
                    g0,
                    px as int,
                    py as int,
                    tx as int,
                    ty as int,
                    rolls@,
                    flood,
                    dx * HAZARD_SIDE + dy,
                ),
            decreases HAZARD_SIDE - dy,
        {
            let x = tx as i64 - HAZARD_RADIUS as i64 + dx as i64;
            let y = ty as i64 - HAZARD_RADIUS as i64 + dy as i64;
            let idx = (dx * HAZARD_SIDE + dy) as usize;
            let ghost done = dx * HAZARD_SIDE + dy;
            assert(hazard_index(tx as int, ty as int, x as int, y as int) == done);
            if x < ELEVATOR_SHAFT_X as i64 && y <= i32::MAX as i64 && rolls[idx] < chance {
                let t = map.tile(x as i32, y as i32);
                if (t == TileType::Empty || (flood && t == TileType::Dirt) || (!flood && t
                    == TileType::Ladder)) && !(x == px as i64 && y == py as i64) {
                    map.set_tile(x as i32, y as i32, into);
                }
            }
            dy += 1;
            proof {
                assert(dx * HAZARD_SIDE + dy == done + 1);
                assert forall|q: (int, int)| #[trigger]
                    g0.cells.contains_key(q) && in_hazard_square(
                        tx as int,
                        ty as int,
                        q.0,
                        q.1,
                    ) && hazard_index(tx as int, ty as int, q.0, q.1) == done implies q == (
                    x as int,
                    y as int,
                ) by {}
                assert(map@ =~= hazard_upto(
                    g0,
                    px as int,
                    py as int,
                    tx as int,
                    ty as int,
                    rolls@,
                    flood,
                    dx * HAZARD_SIDE + dy,
                ));
            }
        }
        assert(dx * HAZARD_SIDE + HAZARD_SIDE == (dx + 1) * HAZARD_SIDE);
        dx += 1;
    }
    assert(dx * HAZARD_SIDE == HAZARD_CELLS);
    assert(map@ =~= after_hazard(g0, px as int, py as int, tx as int, ty as int, rolls@, flood));
}

/// One player tick with the given rolls. See `resolved` for what it does.
pub fn resolve_move(player: &mut Player, map: &mut Grid, depth: i32, rolls: &DigRolls)
    requires
        old(map).wf(),
        rolls.hazard@.len() == HAZARD_CELLS,
        reward_fits(*old(player), old(map)@, depth as int),
    ensures
        final(map).wf(),
        (*final(player), final(map)@) == resolved(
            *old(player),
            old(map)@,
            depth as int,
            rolls.outcome as int,
            rolls.severity as int,
            rolls.hazard@,
        ),
{
    let player_in_elevator = player_in_cab(player, depth);
    // Riding the cab cancels vertical intent; with nothing to stand on, the player falls.
    let (tx, ty) = target_of(player, map, depth);
    player.target_x = tx;
    player.target_y = ty;

    // Resolve the targeted cell.
    match map.tile(tx, ty) {
        TileType::Dirt => {
            if player.use_energy(1) {
                match dig_outcome(rolls.outcome) {
                    DigOutcome::Rock => {
                        let hardness = severity_level(rolls.severity, ty, MAX_ROCK_HARDNESS);
                        map.set_tile(tx, ty, TileType::Rock { hardness });
                    },
                    DigOutcome::Treasure => {
                        let value = severity_level(rolls.severity, ty, MAX_TREASURE_VALUE);
                        map.set_tile(tx, ty, TileType::Treasure { value });
                    },
                    DigOutcome::Flood => {
                        spread_hazard(map, player.x, player.y, tx, ty, &rolls.hazard, true);
                    },
                    DigOutcome::CaveIn => {
                        spread_hazard(map, player.x, player.y, tx, ty, &rolls.hazard, false);
                    },
                    DigOutcome::Clear => {
                        map.set_tile(tx, ty, TileType::Empty);
                    },
                }
            }
        },
        TileType::Rock { .. } => {
            // Rock cannot be broken.
        },
        TileType::Treasure { value } => {
            // Collect the treasure and step onto its cell.
            player.receive_money(reward_for(value));
            map.set_tile(tx, ty, TileType::Empty);
            player.x = tx;
            player.y = ty;
        },
        _ => {},
    }

    // No climbing up through thin air.
    if !player_in_elevator && map.tile(player.x, player.y) == TileType::Empty && player.target_y
        < player.y {
        player.target_y = player.y;
    }

    // Move to the target if it can be entered; otherwise give it up.
    match map.tile(player.target_x, player.target_y) {
        TileType::Empty | TileType::Ladder | TileType::Sky => {
            player.x = player.target_x;
            player.y = player.target_y;
        },
        _ => {
            player.target_x = player.x;
            player.target_y = player.y;
        },
    }

    // Cash in and recharge at the bank.
    if player.x == BANK_X && player.y == BANK_Y {
        player.refill_energy();
    }
}

/// Digging dirt without a unit of energy to spend leaves the grid, and so
/// the dirt itself, unchanged.
pub proof fn lemma_dig_without_energy(
    p: Player,
    g: GridView,
    depth: int,
    outcome: int,
    severity: int,
    hazard: Seq<u32>,
)
    requires
        g.wf(),
        g.tile_at(proposed_target(p, g, depth).0, proposed_target(p, g, depth).1)
            == TileType::Dirt,
        p.energy < 1,
    ensures
        resolved(p, g, depth, outcome, severity, hazard).1 == g,
        resolved(p, g, depth, outcome, severity, hazard).1.tile_at(
            proposed_target(p, g, depth).0,
            proposed_target(p, g, depth).1,
        ) == TileType::Dirt,
{
}

/// Collecting a treasure of value `v` pays exactly `(1 << v) * TREASURE_BASE_VALUE`,
/// empties its cell and puts the player there (away from the bank cell,
/// where the recharge that follows would spend money).
pub proof fn lemma_collect_treasure(
    p: Player,
    g: GridView,
    depth: int,
    outcome: int,
    severity: int,
    hazard: Seq<u32>,
    v: u8,
)
    requires
        g.wf(),
        g.tile_at(proposed_target(p, g, depth).0, proposed_target(p, g, depth).1)
            == (TileType::Treasure { value: v }),
        p.money + treasure_reward(v as int) <= i32::MAX,
        proposed_target(p, g, depth) != (BANK_X as int, BANK_Y as int),
    ensures
        resolved(p, g, depth, outcome, severity, hazard).0.money == p.money + treasure_reward(
            v as int,
        ),
        resolved(p, g, depth, outcome, severity, hazard).1.tile_at(
            proposed_target(p, g, depth).0,
            proposed_target(p, g, depth).1,
        ) == TileType::Empty,
        (
            resolved(p, g, depth, outcome, severity, hazard).0.x as int,
            resolved(p, g, depth, outcome, severity, hazard).0.y as int,
        ) == proposed_target(p, g, depth),
{
    let t = proposed_target(p, g, depth);
    assert(g.in_bounds(t.0, t.1));
}

/// A step straight towards rock or border never moves the player.
pub proof fn lemma_blocked_by_rock_or_border(
    p: Player,
    g: GridView,
    depth: int,
    outcome: int,
    severity: int,
    hazard: Seq<u32>,
)
    requires
        g.wf(),
        p.target_x == p.x || p.target_y == p.y,
        g.tile_at(proposed_target(p, g, depth).0, proposed_target(p, g, depth).1) is Rock
            || g.tile_at(proposed_target(p, g, depth).0, proposed_target(p, g, depth).1)
            == TileType::Border,
    ensures
        resolved(p, g, depth, outcome, severity, hazard).0.x == p.x,
        resolved(p, g, depth, outcome, severity, hazard).0.y == p.y,
{
}

/// One player tick: draws the rolls, then resolves the move with them
/// against the elevator's current depth.
pub fn move_player(player: &mut Player, map: &mut Grid, elev: &Elevator)
    requires
        old(map).wf(),
        reward_fits(*old(player), old(map)@, elev@.depth),
    ensures
        final(map).wf(),
        exists|outcome: int, severity: int, hazard: Seq<u32>|
            {
                &&& 0 <= outcome < OUTCOME_ROLLS
                &&& 0 <= severity < SEVERITY_ROLLS
                &&& hazard.len() == HAZARD_CELLS
                &&& (*final(player), final(map)@) == resolved(
                    *old(player),
                    old(map)@,
                    elev@.depth,
                    outcome,
                    severity,
                    hazard,
                )
            },
{
    let rolls = DigRolls::draw();
    let depth = elev.depth();
    resolve_move(player, map, depth, &rolls);
}

} // verus!
