use crate::constants::{
    ELEVATOR_LAYER, ELEVATOR_SHAFT_X, GRASS_LEVEL, MAP_WIDTH, PLAYER_LAYER, SKY_HEIGHT, SpriteIndex,
};
use crate::model::grid::TileType;
use crate::model::player::Player;
use vstd::prelude::*;

verus! {

/// A sprite to draw at `(x, y)` of a layer. Screen rows grow upwards, so
/// grid row `y` is drawn at `-y`.
#[derive(Clone, Copy, Debug, PartialEq, Eq, Structural)]
pub struct SpritePlacement {
    pub x: i32,
    pub y: i32,
    pub layer: i32,
    pub sprite: u32,
}

/// The sprite drawn for a tile; `Void` is not drawn. Rock hardness shows up to
/// 3 and treasure value up to 2, each on its own sprite.
pub open spec fn tile_sprite_spec(t: TileType) -> Option<u32> {
    match t {
        TileType::Void => None,
        TileType::Empty => Some(SpriteIndex::Empty.sheet_index()),
        TileType::Sky => Some(SpriteIndex::Sky.sheet_index()),
        TileType::Grass => Some(SpriteIndex::Grass.sheet_index()),
        TileType::Dirt => Some(SpriteIndex::Dirt.sheet_index()),
        TileType::Ladder => Some(SpriteIndex::Ladder.sheet_index()),
        TileType::Rock { hardness } => Some(
            (SpriteIndex::Stone0.sheet_index() + if hardness <= 3 {
                hardness as int
            } else {
                3
            }) as u32,
        ),
        TileType::Treasure { value } => Some(
            (SpriteIndex::Treasure0.sheet_index() + if value <= 2 {
                value as int
            } else {
                2
            }) as u32,
        ),
        TileType::Water => Some(SpriteIndex::Water.sheet_index()),
        TileType::Border => Some(SpriteIndex::Border.sheet_index()),
    }
}

pub fn tile_sprite(t: TileType) -> (r: Option<u32>)
    ensures
        r == tile_sprite_spec(t),
{
    match t {
        TileType::Void => None,
        TileType::Empty => Some(SpriteIndex::Empty.index()),
        TileType::Sky => Some(SpriteIndex::Sky.index()),
        TileType::Grass => Some(SpriteIndex::Grass.index()),
        TileType::Dirt => Some(SpriteIndex::Dirt.index()),
        TileType::Ladder => Some(SpriteIndex::Ladder.index()),
        TileType::Rock { hardness } => {
            let shown = if hardness <= 3 {
                hardness
            } else {
                3
            };
            Some(SpriteIndex::Stone0.index() + shown as u32)
        },
        TileType::Treasure { value } => {
            let shown = if value <= 2 {
                value
            } else {
                2
            };
            Some(SpriteIndex::Treasure0.index() + shown as u32)
        },
        TileType::Water => Some(SpriteIndex::Water.index()),
        TileType::Border => Some(SpriteIndex::Border.index()),
    }
}

pub open spec fn placed(x: int, y: int, layer: int, s: SpriteIndex) -> SpritePlacement {
    SpritePlacement { x: x as i32, y: y as i32, layer: layer as i32, sprite: s.sheet_index() }
}

/// The player's sprite, on its own layer.
pub fn player_sprite(p: &Player) -> (r: SpritePlacement)
    requires
        p.y > i32::MIN,
    ensures
        r == placed(p.x as int, -p.y, PLAYER_LAYER as int, SpriteIndex::Person),
{
    SpritePlacement { x: p.x, y: -p.y, layer: PLAYER_LAYER, sprite: SpriteIndex::Person.index() }
}

/// The cab and its rigging at the given depth: the cab, one length of cable
/// for each unit of depth above it, the hook and the tower beside the shaft.
pub open spec fn elevator_sprites_spec(depth: int) -> Seq<SpritePlacement> {
    seq![placed(ELEVATOR_SHAFT_X as int, 1 - GRASS_LEVEL - depth, ELEVATOR_LAYER as int, SpriteIndex::Elevator)]
        + Seq::new(
        depth as nat,
        |i: int|
            placed(
                ELEVATOR_SHAFT_X as int,
                1 - GRASS_LEVEL - i,
                ELEVATOR_LAYER as int,
                SpriteIndex::ElevatorCable,
            ),
    ) + seq![
        placed(ELEVATOR_SHAFT_X as int, 2 - GRASS_LEVEL, ELEVATOR_LAYER as int, SpriteIndex::ElevatorHook),
        placed(ELEVATOR_SHAFT_X + 1, 2 - GRASS_LEVEL, ELEVATOR_LAYER as int, SpriteIndex::ElevatorTowerTop),
        placed(ELEVATOR_SHAFT_X + 1, 1 - GRASS_LEVEL, ELEVATOR_LAYER as int, SpriteIndex::ElevatorTowerBottom),
    ]
}

pub fn elevator_sprites(depth: i32) -> (r: Vec<SpritePlacement>)
    requires
        0 <= depth <= i32::MAX - GRASS_LEVEL,
    ensures
        r@ == elevator_sprites_spec(depth as int),
{
    let mut r: Vec<SpritePlacement> = Vec::new();
    r.push(
        SpritePlacement {
            x: ELEVATOR_SHAFT_X,
            y: 1 - GRASS_LEVEL - depth,
            layer: ELEVATOR_LAYER,
            sprite: SpriteIndex::Elevator.index(),
        },
    );
    let mut i: i32 = 0;
    while i < depth
        invariant
            0 <= i <= depth <= i32::MAX - GRASS_LEVEL,
            r@ == seq![placed(ELEVATOR_SHAFT_X as int, 1 - GRASS_LEVEL - depth, ELEVATOR_LAYER as int, SpriteIndex::Elevator)]
                + Seq::new(
                i as nat,
                |j: int|
                    placed(
                        ELEVATOR_SHAFT_X as int,
                        1 - GRASS_LEVEL - j,
                        ELEVATOR_LAYER as int,
                        SpriteIndex::ElevatorCable,
                    ),
            ),
        decreases depth - i,
    {
        r.push(
            SpritePlacement {
                x: ELEVATOR_SHAFT_X,
                y: 1 - GRASS_LEVEL - i,
                layer: ELEVATOR_LAYER,
                sprite: SpriteIndex::ElevatorCable.index(),
            },
        );
        i += 1;
        assert(r@ =~= seq![placed(ELEVATOR_SHAFT_X as int, 1 - GRASS_LEVEL - depth, ELEVATOR_LAYER as int, SpriteIndex::Elevator)]
            + Seq::new(
            i as nat,
            |j: int|
                placed(
                    ELEVATOR_SHAFT_X as int,
                    1 - GRASS_LEVEL - j,
                    ELEVATOR_LAYER as int,
                    SpriteIndex::ElevatorCable,
                ),
        ));
    }
    r.push(
        SpritePlacement {
            x: ELEVATOR_SHAFT_X,
            y: 2 - GRASS_LEVEL,
            layer: ELEVATOR_LAYER,
            sprite: SpriteIndex::ElevatorHook.index(),
        },
    );
    r.push(
        SpritePlacement {
            x: ELEVATOR_SHAFT_X + 1,
            y: 2 - GRASS_LEVEL,
            layer: ELEVATOR_LAYER,
            sprite: SpriteIndex::ElevatorTowerTop.index(),
        },
    );
    r.push(
        SpritePlacement {
            x: ELEVATOR_SHAFT_X + 1,
            y: 1 - GRASS_LEVEL,
            layer: ELEVATOR_LAYER,
            sprite: SpriteIndex::ElevatorTowerBottom.index(),
        },
    );
    assert(r@ =~= elevator_sprites_spec(depth as int));
    r
}

/// The bank's four sprites, drawn over the ground layer beside the bank cell.
pub open spec fn bank_sprites_spec() -> Seq<SpritePlacement> {
    seq![
        placed(MAP_WIDTH - 10, 1 - SKY_HEIGHT, 0, SpriteIndex::BankTopLeft),
        placed(MAP_WIDTH - 9, 1 - SKY_HEIGHT, 0, SpriteIndex::BankTopRight),
        placed(MAP_WIDTH - 10, -SKY_HEIGHT, 0, SpriteIndex::BankBottomLeft),
        placed(MAP_WIDTH - 9, -SKY_HEIGHT, 0, SpriteIndex::BankBottomRight),
    ]
}

pub fn bank_sprites() -> (r: Vec<SpritePlacement>)
    ensures
        r@ == bank_sprites_spec(),
{
    let left = MAP_WIDTH - 10;
    let right = MAP_WIDTH - 9;
    let top = 1 - SKY_HEIGHT;
    let bottom = -SKY_HEIGHT;
    let r = vec![
        SpritePlacement { x: left, y: top, layer: 0, sprite: SpriteIndex::BankTopLeft.index() },
        SpritePlacement { x: right, y: top, layer: 0, sprite: SpriteIndex::BankTopRight.index() },
        SpritePlacement {
            x: left,
            y: bottom,
            layer: 0,
            sprite: SpriteIndex::BankBottomLeft.index(),
        },
        SpritePlacement {
            x: right,
            y: bottom,
            layer: 0,
            sprite: SpriteIndex::BankBottomRight.index(),
        },
    ];
    assert(r@ =~= bank_sprites_spec());
    r
}

} // verus!
