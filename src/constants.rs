use vstd::prelude::*;

verus! {

pub const MAP_WIDTH: i32 = 40;

pub const MAP_HEIGHT: i32 = 60;

pub const SKY_HEIGHT: i32 = 3;

pub const GRASS_LEVEL: i32 = SKY_HEIGHT + 1;

pub const PLAYER_START_X: i32 = MAP_WIDTH - 5;

pub const PLAYER_START_Y: i32 = SKY_HEIGHT;

pub const MAX_ELEVATOR_DEPTH: i32 = MAP_HEIGHT - SKY_HEIGHT - 2;

/// Column of the elevator shaft; the cab only ever moves along it.
pub const ELEVATOR_SHAFT_X: i32 = MAP_WIDTH - 3;

/// The cell where standing recharges energy for money.
pub const BANK_X: i32 = MAP_WIDTH - 9;

pub const BANK_Y: i32 = SKY_HEIGHT;

pub const PLAYER_LAYER: i32 = 1;

pub const ELEVATOR_LAYER: i32 = 2;

/// Money paid for a treasure of value zero; each value step doubles it.
pub const TREASURE_BASE_VALUE: i32 = 200;

} // verus!

verus! {

/// Cells of the tile sheet.
#[derive(Clone, Copy, Debug, PartialEq, Eq, Structural)]
pub enum SpriteIndex {
    Empty,
    Dirt,
    Stone0,
    Grass,
    Water,
    Border,
    Sky,
    Person,
    Ladder,
    Treasure0,
    BankTopLeft,
    BankTopRight,
    BankBottomLeft,
    BankBottomRight,
    Elevator,
    ElevatorHook,
    ElevatorTowerTop,
    ElevatorTowerBottom,
    ElevatorCable,
}

impl SpriteIndex {
    /// Position of the sprite in the tile sheet.
    pub open spec fn sheet_index(self) -> u32 {
        match self {
            SpriteIndex::Empty => 0,
            SpriteIndex::Dirt => 1,
            SpriteIndex::Stone0 => 2,
            SpriteIndex::Grass => 6,
            SpriteIndex::Water => 7,
            SpriteIndex::Border => 8,
            SpriteIndex::Sky => 9,
            SpriteIndex::Person => 10,
            SpriteIndex::Ladder => 11,
            SpriteIndex::Treasure0 => 17,
            SpriteIndex::BankTopLeft => 23,
            SpriteIndex::BankTopRight => 24,
            SpriteIndex::BankBottomLeft => 33,
            SpriteIndex::BankBottomRight => 34,
            SpriteIndex::Elevator => 30,
            SpriteIndex::ElevatorHook => 20,
            SpriteIndex::ElevatorTowerTop => 21,
            SpriteIndex::ElevatorTowerBottom => 31,
            SpriteIndex::ElevatorCable => 32,
        }
    }

    pub fn index(self) -> (r: u32)
        ensures
            r == self.sheet_index(),
    {
        match self {
            SpriteIndex::Empty => 0,
            SpriteIndex::Dirt => 1,
            SpriteIndex::Stone0 => 2,
            SpriteIndex::Grass => 6,
            SpriteIndex::Water => 7,
            SpriteIndex::Border => 8,
            SpriteIndex::Sky => 9,
            SpriteIndex::Person => 10,
            SpriteIndex::Ladder => 11,
            SpriteIndex::Treasure0 => 17,
            SpriteIndex::BankTopLeft => 23,
            SpriteIndex::BankTopRight => 24,
            SpriteIndex::BankBottomLeft => 33,
            SpriteIndex::BankBottomRight => 34,
            SpriteIndex::Elevator => 30,
            SpriteIndex::ElevatorHook => 20,
            SpriteIndex::ElevatorTowerTop => 21,
            SpriteIndex::ElevatorTowerBottom => 31,
            SpriteIndex::ElevatorCable => 32,
        }
    }
}

} // verus!
