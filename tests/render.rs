use miner::constants::SpriteIndex;
use miner::model::grid::TileType;
use miner::model::player::Player;
use miner::systems::render::{
    bank_sprites, elevator_sprites, player_sprite, tile_sprite, SpritePlacement,
};

#[test]
fn tiles_map_to_sheet_cells() {
    assert_eq!(None, tile_sprite(TileType::Void));
    assert_eq!(Some(0), tile_sprite(TileType::Empty));
    assert_eq!(Some(1), tile_sprite(TileType::Dirt));
    assert_eq!(Some(6), tile_sprite(TileType::Grass));
    assert_eq!(Some(7), tile_sprite(TileType::Water));
    assert_eq!(Some(8), tile_sprite(TileType::Border));
    assert_eq!(Some(9), tile_sprite(TileType::Sky));
    assert_eq!(Some(11), tile_sprite(TileType::Ladder));
    assert_eq!(Some(2), tile_sprite(TileType::Rock { hardness: 0 }));
    assert_eq!(Some(5), tile_sprite(TileType::Rock { hardness: 3 }));
    assert_eq!(Some(5), tile_sprite(TileType::Rock { hardness: 9 }));
    assert_eq!(Some(17), tile_sprite(TileType::Treasure { value: 0 }));
    assert_eq!(Some(19), tile_sprite(TileType::Treasure { value: 2 }));
    assert_eq!(Some(19), tile_sprite(TileType::Treasure { value: 200 }));
}

#[test]
fn sprite_indices() {
    assert_eq!(10, SpriteIndex::Person.index());
    assert_eq!(24, SpriteIndex::BankTopRight.index());
    assert_eq!(34, SpriteIndex::BankBottomRight.index());
    assert_eq!(32, SpriteIndex::ElevatorCable.index());
}

#[test]
fn elevator_rigging_grows_with_depth() {
    let s = elevator_sprites(2);
    assert_eq!(6, s.len());
    assert_eq!(SpritePlacement { x: 37, y: -5, layer: 2, sprite: 30 }, s[0]);
    assert_eq!(SpritePlacement { x: 37, y: -3, layer: 2, sprite: 32 }, s[1]);
    assert_eq!(SpritePlacement { x: 37, y: -4, layer: 2, sprite: 32 }, s[2]);
    assert_eq!(SpritePlacement { x: 37, y: -2, layer: 2, sprite: 20 }, s[3]);
    assert_eq!(SpritePlacement { x: 38, y: -2, layer: 2, sprite: 21 }, s[4]);
    assert_eq!(SpritePlacement { x: 38, y: -3, layer: 2, sprite: 31 }, s[5]);
    assert_eq!(4, elevator_sprites(0).len());
}

#[test]
fn player_and_bank_sprites() {
    let p = Player::new(12, 7);
    assert_eq!(SpritePlacement { x: 12, y: -7, layer: 1, sprite: 10 }, player_sprite(&p));
    let b = bank_sprites();
    assert_eq!(4, b.len());
    assert_eq!(SpritePlacement { x: 30, y: -2, layer: 0, sprite: 23 }, b[0]);
    assert_eq!(SpritePlacement { x: 31, y: -3, layer: 0, sprite: 34 }, b[3]);
}
