use crate::constants::{ELEVATOR_SHAFT_X, GRASS_LEVEL, MAP_HEIGHT, MAP_WIDTH, SKY_HEIGHT};
use crate::model::elevator::{Elevator, ElevatorView};
use crate::model::grid::{Grid, GridView, TileType};
use crate::model::player::Player;
use crate::systems::player::{in_cab, player_in_cab};
use vstd::prelude::*;

verus! {

/// Energy spent to put a ladder down.
pub const LADDER_COST: i32 = 5;

/// Money paid to be rescued back into the cab.
pub const RESCUE_COST: i32 = 250;

/// A player command, as read from the keyboard.
#[derive(Clone, Copy, Debug, PartialEq, Eq, Structural)]
pub enum PlayerKey {
    Left,
    Right,
    Up,
    Down,
    /// Put a ladder down on the player's cell.
    Ladder,
    /// Be lifted back into the cab, for a fee, and sent home.
    Rescue,
}

/// An elevator call, as read from the keyboard.
#[derive(Clone, Copy, Debug, PartialEq, Eq, Structural)]
pub enum ElevatorKey {
    /// Call the cab to the player's depth.
    CallHere,
    /// Send the cab to the top.
    Home,
    /// Send the cab to the bottom.
    Bottom,
}

/// What a player command does to the player, the grid and the elevator.
/// Horizontal steps stop short of the left border and of the shaft; while
/// riding, up and down call the cab instead of moving the player.
pub open spec fn after_key(p: Player, g: GridView, e: ElevatorView, key: PlayerKey) -> (
    Player,
    GridView,
    ElevatorView,
) {
    let riding = in_cab(p, e.depth);
    match key {
        PlayerKey::Left => if p.x > 1 {
            (Player { target_x: (p.x - 1) as i32, ..p }, g, e)
        } else {
            (p, g, e)
        },
        PlayerKey::Right => if p.x < MAP_WIDTH - 3 {
            (Player { target_x: (p.x + 1) as i32, ..p }, g, e)
        } else {
            (p, g, e)
        },
        PlayerKey::Up => if riding {
            (p, g, e.with_target(e.depth - 1))
        } else if p.y > SKY_HEIGHT {
            (Player { target_y: (p.y - 1) as i32, ..p }, g, e)
        } else {
            (p, g, e)
        },
        PlayerKey::Down => if riding {
            (p, g, e.with_target(e.depth + 1))
        } else if p.y < MAP_HEIGHT - 2 {
            (Player { target_y: (p.y + 1) as i32, ..p }, g, e)
        } else {
            (p, g, e)
        },
        PlayerKey::Ladder => if p.x < ELEVATOR_SHAFT_X && g.tile_at(p.x as int, p.y as int)
            == TileType::Empty && p.energy >= LADDER_COST {
            (
                Player { energy: (p.energy - LADDER_COST) as i32, ..p },
                g.with_tile(p.x as int, p.y as int, TileType::Ladder),
                e,
            )
        } else {
            (p, g, e)
        },
        PlayerKey::Rescue => if p.x < ELEVATOR_SHAFT_X && p.y > GRASS_LEVEL {
            (
                Player {
                    money: (p.money - RESCUE_COST) as i32,
                    x: ELEVATOR_SHAFT_X,
                    y: (SKY_HEIGHT + e.depth) as i32,
                    target_x: ELEVATOR_SHAFT_X,
                    target_y: (SKY_HEIGHT + e.depth) as i32,
                    ..p
                },
                g,
                e.with_target(0),
            )
        } else {
            (p, g, e)
        },
    }
}

/// A rescue, if `key` asks for one that happens, keeps money and position representable.
pub open spec fn rescue_fits(p: Player, e: ElevatorView, key: Option<PlayerKey>) -> bool {
    key == Some(PlayerKey::Rescue) && p.x < ELEVATOR_SHAFT_X && p.y > GRASS_LEVEL ==> {
        &&& p.money - RESCUE_COST >= i32::MIN
        &&& SKY_HEIGHT + e.depth <= i32::MAX
    }
}

/// Whether `key` can be applied without money or position leaving `i32`,
/// as `player_input` requires.
pub fn input_fits(player: &Player, elev: &Elevator, key: Option<PlayerKey>) -> (r: bool)
    requires
        elev.wf(),
    ensures
        r == rescue_fits(*player, elev@, key),
{
    match key {
        Some(PlayerKey::Rescue) => {
            if player.x < ELEVATOR_SHAFT_X && player.y > GRASS_LEVEL {
                player.money >= i32::MIN + RESCUE_COST && elev.depth() <= i32::MAX - SKY_HEIGHT
            } else {
                true
            }
        },
        _ => true,
    }
}

/// Applies this frame's command, if any; the rock hammer is held while shift is.
pub fn player_input(
    player: &mut Player,
    map: &mut Grid,
    elev: &mut Elevator,
    key: Option<PlayerKey>,
    shift_held: bool,
)
    requires
        old(map).wf(),
        old(elev).wf(),
        rescue_fits(*old(player), old(elev)@, key),
    ensures
        final(map).wf(),
        final(elev).wf(),
        final(player).rock_hammer == shift_held,
        key is None ==> {
            &&& *final(player) == (Player { rock_hammer: shift_held, ..*old(player) })
            &&& final(map)@ == old(map)@
            &&& final(elev)@ == old(elev)@
        },
        key matches Some(k) ==> {
            let (p, g, e) = after_key(*old(player), old(map)@, old(elev)@, k);
            &&& *final(player) == (Player { rock_hammer: shift_held, ..p })
            &&& final(map)@ == g
            &&& final(elev)@ == e
        },
{
    let depth = elev.depth();
    let player_in_elevator = player_in_cab(player, depth);

    match key {
        Some(PlayerKey::Left) => {
            if player.x > 1 {
                player.target_x = player.x - 1;
            }
        },
        Some(PlayerKey::Right) => {
            if player.x < MAP_WIDTH - 3 {
                player.target_x = player.x + 1;
            }
        },
        Some(PlayerKey::Up) => {
            if player_in_elevator {
                elev.set_target_depth(depth - 1);
            } else if player.y > SKY_HEIGHT {
                player.target_y = player.y - 1;
            }
        },
        Some(PlayerKey::Down) => {
            if player_in_elevator {
                // Past i32::MAX the call is clamped to the bottom all the same.
                let below = if depth < i32::MAX {
                    depth + 1
                } else {
                    depth
                };
                elev.set_target_depth(below);
            } else if player.y < MAP_HEIGHT - 2 {
                player.target_y = player.y + 1;
            }
        },
        Some(PlayerKey::Ladder) => {
            if player.x < ELEVATOR_SHAFT_X && map.tile(player.x, player.y) == TileType::Empty {
                if player.use_energy(LADDER_COST) {
                    map.set_tile(player.x, player.y, TileType::Ladder);
                }
            }
        },
        Some(PlayerKey::Rescue) => {
            if player.x < ELEVATOR_SHAFT_X && player.y > GRASS_LEVEL {
                player.pay_money(RESCUE_COST);
                player.x = ELEVATOR_SHAFT_X;
                player.y = SKY_HEIGHT + depth;
                player.target_x = player.x;
                player.target_y = player.y;
                elev.set_target_depth(0);
            }
        },
        None => {},
    }

    player.rock_hammer = shift_held;
}

/// Where an elevator call sends the cab, before clamping.
pub open spec fn called_depth(p: Player, key: ElevatorKey) -> int {
    match key {
        ElevatorKey::CallHere => p.y - SKY_HEIGHT,
        ElevatorKey::Home => -SKY_HEIGHT,
        ElevatorKey::Bottom => MAP_HEIGHT - SKY_HEIGHT,
    }
}

/// Applies this frame's elevator call, if any.
pub fn elevator_input(elev: &mut Elevator, player: &Player, key: Option<ElevatorKey>)
    requires
        old(elev).wf(),
    ensures
        final(elev).wf(),
        key is None ==> final(elev)@ == old(elev)@,
        key matches Some(k) ==> final(elev)@ == old(elev)@.with_target(called_depth(*player, k)),
{
    match key {
        Some(ElevatorKey::CallHere) => {
            // Below i32::MIN the call is clamped to the top all the same.
            let here = if player.y >= i32::MIN + SKY_HEIGHT {
                player.y - SKY_HEIGHT
            } else {
                i32::MIN
            };
            elev.set_target_depth(here);
        },
        Some(ElevatorKey::Home) => {
            elev.set_target_depth(-SKY_HEIGHT);
        },
        Some(ElevatorKey::Bottom) => {
            elev.set_target_depth(MAP_HEIGHT - SKY_HEIGHT);
        },
        None => {},
    }
}

} // verus!
