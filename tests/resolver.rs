use miner::model::elevator::Elevator;
use miner::model::grid::{Grid, TileType};
use miner::model::player::Player;
use miner::systems::player::{
    collect_fits, dig_outcome, move_player, player_in_cab, resolve_move, reward_for, target_of,
    DigOutcome, DigRolls, HAZARD_CELLS,
};

fn rolls(outcome: u32, severity: u32, hazard: u32) -> DigRolls {
    DigRolls { outcome, severity, hazard: vec![hazard; HAZARD_CELLS] }
}

/// A fresh grid with the player standing in a dug-out cell at `(x, y)`.
fn start(x: i32, y: i32) -> (Grid, Player) {
    let mut g = Grid::new(40, 60);
    g.set_tile(x, y, TileType::Empty);
    (g, Player::new(x, y))
}

#[test]
fn digging_without_energy_leaves_dirt() {
    let (mut g, mut p) = start(5, 10);
    p.energy = 0;
    p.target_x = 6;
    resolve_move(&mut p, &mut g, 0, &rolls(30, 0, 0));
    assert_eq!(TileType::Dirt, g.tile(6, 10));
    assert_eq!((5, 10), (p.x, p.y));
    assert_eq!((5, 10), (p.target_x, p.target_y));
    assert_eq!(1000, p.money());
    assert_eq!(0, p.energy());
}

#[test]
fn shallow_treasure_is_uncovered_then_collected() {
    let (mut g, mut p) = start(5, 10);
    p.target_x = 6;
    // Roll 10 uncovers treasure; (0 + 10) / 25 makes it worth value 0.
    resolve_move(&mut p, &mut g, 0, &rolls(10, 0, 99));
    assert_eq!(TileType::Treasure { value: 0 }, g.tile(6, 10));
    assert_eq!((5, 10), (p.x, p.y));
    assert_eq!(99, p.energy());
    assert_eq!(1000, p.money());

    p.target_x = 6;
    resolve_move(&mut p, &mut g, 0, &rolls(10, 0, 99));
    assert_eq!(TileType::Empty, g.tile(6, 10));
    assert_eq!(1200, p.money());
    assert_eq!((6, 10), (p.x, p.y));
    assert_eq!(99, p.energy());
}

#[test]
fn collecting_treasure_pays_by_value() {
    for v in 0..3u8 {
        let (mut g, mut p) = start(5, 10);
        g.set_tile(5, 11, TileType::Treasure { value: v });
        p.target_y = 11;
        resolve_move(&mut p, &mut g, 0, &rolls(30, 0, 99));
        assert_eq!(1000 + (1 << v) * 200, p.money());
        assert_eq!(TileType::Empty, g.tile(5, 11));
        assert_eq!((5, 11), (p.x, p.y));
    }
}

#[test]
fn reward_doubles_per_value() {
    assert_eq!(200, reward_for(0));
    assert_eq!(400, reward_for(1));
    assert_eq!(800, reward_for(2));
    assert_eq!(1638400, reward_for(13));
}

#[test]
fn rock_and_border_block_the_player() {
    let (mut g, mut p) = start(5, 10);
    g.set_tile(6, 10, TileType::Rock { hardness: 1 });
    p.target_x = 6;
    resolve_move(&mut p, &mut g, 0, &rolls(30, 0, 0));
    assert_eq!((5, 10), (p.x, p.y));
    assert_eq!(TileType::Rock { hardness: 1 }, g.tile(6, 10));
    assert_eq!(100, p.energy());

    let (mut g, mut p) = start(1, 10);
    p.target_x = 0;
    resolve_move(&mut p, &mut g, 0, &rolls(30, 0, 0));
    assert_eq!((1, 10), (p.x, p.y));
    assert_eq!(TileType::Border, g.tile(0, 10));
}

#[test]
fn plain_dig_clears_the_tile_and_spends_one_energy() {
    let (mut g, mut p) = start(5, 10);
    p.target_x = 4;
    resolve_move(&mut p, &mut g, 0, &rolls(30, 0, 0));
    assert_eq!(TileType::Empty, g.tile(4, 10));
    assert_eq!(99, p.energy());
    // The cleared cell is entered at once.
    assert_eq!((4, 10), (p.x, p.y));
    assert_eq!((4, 10), (p.target_x, p.target_y));
}

#[test]
fn dug_rock_hardness_grows_with_depth_and_is_capped() {
    let (mut g, mut p) = start(5, 30);
    p.target_y = 31;
    // (49 + 31) / 25 = 3.
    resolve_move(&mut p, &mut g, 0, &rolls(0, 49, 0));
    assert_eq!(TileType::Rock { hardness: 3 }, g.tile(5, 31));

    let (mut g, mut p) = start(5, 55);
    p.target_y = 56;
    // (49 + 56) / 25 = 4, shown and stored as 3.
    resolve_move(&mut p, &mut g, 0, &rolls(9, 49, 0));
    assert_eq!(TileType::Rock { hardness: 3 }, g.tile(5, 56));

    let (mut g, mut p) = start(5, 20);
    p.target_x = 6;
    // (5 + 20) / 25 = 1.
    resolve_move(&mut p, &mut g, 0, &rolls(0, 5, 0));
    assert_eq!(TileType::Rock { hardness: 1 }, g.tile(6, 20));
}

#[test]
fn deep_treasure_value_is_capped_at_two() {
    let (mut g, mut p) = start(5, 55);
    p.target_y = 56;
    resolve_move(&mut p, &mut g, 0, &rolls(12, 49, 0));
    assert_eq!(TileType::Treasure { value: 2 }, g.tile(5, 56));
}

#[test]
fn outcome_table() {
    for r in 0..10 {
        assert_eq!(DigOutcome::Rock, dig_outcome(r));
    }
    for r in 10..13 {
        assert_eq!(DigOutcome::Treasure, dig_outcome(r));
    }
    for r in 13..20 {
        assert_eq!(DigOutcome::Clear, dig_outcome(r));
    }
    assert_eq!(DigOutcome::Flood, dig_outcome(20));
    assert_eq!(DigOutcome::CaveIn, dig_outcome(21));
    for r in 22..50 {
        assert_eq!(DigOutcome::Clear, dig_outcome(r));
    }
}

#[test]
fn flood_fills_the_square_but_spares_the_player() {
    let (mut g, mut p) = start(10, 20);
    g.set_tile(12, 22, TileType::Ladder);
    p.target_x = 11;
    // Every hazard roll comes in under the 10% chance.
    resolve_move(&mut p, &mut g, 0, &rolls(20, 0, 0));
    assert_eq!(TileType::Empty, g.tile(10, 20));
    assert_eq!(TileType::Water, g.tile(11, 20));
    assert_eq!(TileType::Water, g.tile(6, 15));
    assert_eq!(TileType::Water, g.tile(16, 25));
    // Ladders do not flood; cells outside the square stay.
    assert_eq!(TileType::Ladder, g.tile(12, 22));
    assert_eq!(TileType::Dirt, g.tile(17, 20));
    assert_eq!(TileType::Dirt, g.tile(11, 26));
    assert_eq!(TileType::Dirt, g.tile(5, 20));
    // Water cannot be entered.
    assert_eq!((10, 20), (p.x, p.y));
    assert_eq!(99, p.energy());
}

#[test]
fn flood_stops_short_of_the_shaft() {
    let (mut g, mut p) = start(34, 21);
    p.target_x = 35;
    resolve_move(&mut p, &mut g, 0, &rolls(20, 0, 0));
    assert_eq!(TileType::Water, g.tile(36, 21));
    // Scenery rock does not flood.
    assert_eq!(TileType::Rock { hardness: 1 }, g.tile(36, 20));
    assert_eq!(TileType::Empty, g.tile(37, 21));
    assert_eq!(TileType::Dirt, g.tile(38, 21));
}

#[test]
fn flood_rolls_at_or_over_the_chance_do_nothing() {
    let (mut g, mut p) = start(10, 20);
    p.target_x = 11;
    resolve_move(&mut p, &mut g, 0, &rolls(20, 0, 10));
    assert_eq!(TileType::Dirt, g.tile(11, 20));
    assert_eq!(TileType::Dirt, g.tile(12, 21));
    assert_eq!(99, p.energy());
}

#[test]
fn cave_in_turns_open_space_and_ladders_to_dirt() {
    let (mut g, mut p) = start(10, 20);
    g.set_tile(9, 20, TileType::Empty);
    g.set_tile(12, 18, TileType::Ladder);
    g.set_tile(13, 18, TileType::Water);
    p.target_x = 11;
    let mut r = rolls(21, 0, 99);
    // Only the rolls for (9, 20) and (12, 18) come in under 50%.
    // Rolls run column by column from the square's top-left corner (6, 15).
    r.hazard[3 * 11 + 5] = 49;
    r.hazard[6 * 11 + 3] = 0;
    resolve_move(&mut p, &mut g, 0, &r);
    assert_eq!(TileType::Dirt, g.tile(9, 20));
    assert_eq!(TileType::Dirt, g.tile(12, 18));
    assert_eq!(TileType::Water, g.tile(13, 18));
    assert_eq!(TileType::Empty, g.tile(10, 20));
    assert_eq!(TileType::Dirt, g.tile(11, 20));
    assert_eq!((10, 20), (p.x, p.y));
}

#[test]
fn unsupported_player_falls() {
    let (mut g, mut p) = start(5, 10);
    g.set_tile(5, 11, TileType::Empty);
    p.target_x = 4;
    resolve_move(&mut p, &mut g, 0, &rolls(30, 0, 0));
    assert_eq!((5, 11), (p.x, p.y));
    assert_eq!(TileType::Dirt, g.tile(4, 10));
}

#[test]
fn ladder_holds_the_player_and_allows_climbing() {
    let (mut g, mut p) = start(5, 10);
    g.set_tile(5, 10, TileType::Ladder);
    g.set_tile(5, 11, TileType::Empty);
    g.set_tile(5, 9, TileType::Empty);
    p.target_y = 9;
    resolve_move(&mut p, &mut g, 0, &rolls(30, 0, 0));
    assert_eq!((5, 9), (p.x, p.y));
}

#[test]
fn no_climbing_through_open_air() {
    let (mut g, mut p) = start(5, 10);
    g.set_tile(5, 9, TileType::Empty);
    p.target_y = 9;
    resolve_move(&mut p, &mut g, 0, &rolls(30, 0, 0));
    assert_eq!((5, 10), (p.x, p.y));
    assert_eq!((5, 10), (p.target_x, p.target_y));
}

#[test]
fn riding_the_cab_ignores_vertical_intent() {
    let mut g = Grid::new(40, 60);
    // Cab at depth 5: its floor is row 8 of the shaft.
    let mut p = Player::new(37, 8);
    p.target_y = 9;
    resolve_move(&mut p, &mut g, 5, &rolls(30, 0, 0));
    assert_eq!((37, 8), (p.x, p.y));
    // Not in the cab: the open shaft below makes the player fall.
    let mut q = Player::new(37, 8);
    resolve_move(&mut q, &mut g, 4, &rolls(30, 0, 0));
    assert_eq!((37, 9), (q.x, q.y));
}

#[test]
fn bank_recharges_energy() {
    let mut g = Grid::new(40, 60);
    let mut p = Player::new(30, 3);
    p.energy = 40;
    p.target_x = 31;
    resolve_move(&mut p, &mut g, 0, &rolls(30, 0, 0));
    assert_eq!((31, 3), (p.x, p.y));
    assert_eq!(100, p.energy());
    assert_eq!(400, p.money());
}

#[test]
fn drawn_rolls_are_in_range() {
    for _ in 0..50 {
        let r = DigRolls::draw();
        assert!(r.outcome < 50);
        assert!(r.severity < 50);
        assert_eq!(121, r.hazard.len());
        assert!(r.hazard.iter().all(|h| *h < 100));
    }
}

#[test]
fn drawn_rolls_vary() {
    let mut seen = [false; 50];
    for _ in 0..2000 {
        seen[DigRolls::draw().outcome as usize] = true;
    }
    assert!(seen.iter().filter(|s| **s).count() > 40);
}

#[test]
fn random_tick_into_open_space_just_moves() {
    let (mut g, mut p) = start(5, 10);
    g.set_tile(6, 10, TileType::Empty);
    p.target_x = 6;
    let e = Elevator::new(10);
    move_player(&mut p, &mut g, &e);
    assert_eq!((6, 10), (p.x, p.y));
    assert_eq!(100, p.energy());
}

#[test]
fn random_dig_spends_one_energy_and_changes_the_dirt_or_its_surroundings() {
    let e = Elevator::new(10);
    for _ in 0..200 {
        let (mut g, mut p) = start(5, 10);
        p.target_x = 6;
        move_player(&mut p, &mut g, &e);
        assert_eq!(99, p.energy());
        match g.tile(6, 10) {
            TileType::Empty => assert_eq!((6, 10), (p.x, p.y)),
            TileType::Rock { hardness } => {
                assert!(hardness <= 2);
                assert_eq!((5, 10), (p.x, p.y));
            }
            TileType::Treasure { value } => {
                assert!(value <= 2);
                assert_eq!((5, 10), (p.x, p.y));
            }
            // A flood may take the dug cell; a cave-in leaves it dirt.
            TileType::Water | TileType::Dirt => assert_eq!((5, 10), (p.x, p.y)),
            other => panic!("unexpected tile {:?}", other),
        }
    }
}

#[test]
fn checks_before_a_tick() {
    let (mut g, mut p) = start(5, 10);
    assert!(!player_in_cab(&p, 0));
    assert!(player_in_cab(&Player::new(37, 8), 5));
    assert!(!player_in_cab(&Player::new(37, 8), 4));
    p.target_x = 6;
    assert_eq!((6, 10), target_of(&p, &g, 0));
    g.set_tile(5, 11, TileType::Empty);
    assert_eq!((5, 11), target_of(&p, &g, 0));
    g.set_tile(5, 11, TileType::Treasure { value: 2 });
    p.target_x = 5;
    p.target_y = 11;
    assert!(collect_fits(&p, &g, 0));
    p.money = i32::MAX - 799;
    assert!(!collect_fits(&p, &g, 0));
    p.money = i32::MAX - 800;
    assert!(collect_fits(&p, &g, 0));
    g.set_tile(5, 11, TileType::Treasure { value: 30 });
    p.money = 0;
    assert!(!collect_fits(&p, &g, 0));
    g.set_tile(5, 11, TileType::Treasure { value: 23 });
    assert!(collect_fits(&p, &g, 0));
    g.set_tile(5, 11, TileType::Treasure { value: 24 });
    assert!(!collect_fits(&p, &g, 0));
}
