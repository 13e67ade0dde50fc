use vstd::prelude::*;

verus! {

pub const INITIAL_MONEY: i32 = 1000;

pub const MAX_ENERGY: i32 = 100;

pub const INITIAL_ENERGY: i32 = MAX_ENERGY;

/// Money paid for one unit of energy.
pub const ENERGY_COST: i32 = 10;

/// The player: where they stand, where they are trying to go this tick, and
/// their balances. Money and energy may go negative; either one below zero
/// means the player is dead. Balances are meant to change through the methods
/// below, which are the economy's rules.
pub struct Player {
    pub x: i32,
    pub y: i32,
    pub target_x: i32,
    pub target_y: i32,
    pub rock_hammer: bool,
    pub money: i32,
    pub energy: i32,
}

/// How many units of energy a recharge buys: one at a time while energy is
/// below the maximum and a unit can be paid for.
pub open spec fn refill_units(money: int, energy: int) -> int {
    if energy < MAX_ENERGY && money >= ENERGY_COST {
        let affordable = money / (ENERGY_COST as int);
        if MAX_ENERGY - energy <= affordable {
            MAX_ENERGY - energy
        } else {
            affordable
        }
    } else {
        0
    }
}

impl Player {
    pub open spec fn refilled(self) -> Player {
        let n = refill_units(self.money as int, self.energy as int);
        Player {
            energy: (self.energy + n) as i32,
            money: (self.money - n * ENERGY_COST) as i32,
            ..self
        }
    }

    pub open spec fn is_dead_spec(self) -> bool {
        self.money < 0 || self.energy < 0
    }

    /// A player standing at `(x, y)` with the starting money and full energy.
    pub fn new(x: i32, y: i32) -> (r: Player)
        ensures
            r == (Player {
                x,
                y,
                target_x: x,
                target_y: y,
                rock_hammer: false,
                money: INITIAL_MONEY,
                energy: INITIAL_ENERGY,
            }),
    {
        Player {
            x,
            y,
            target_x: x,
            target_y: y,
            rock_hammer: false,
            money: INITIAL_MONEY,
            energy: INITIAL_ENERGY,
        }
    }

    pub fn money(&self) -> (r: i32)
        ensures
            r == self.money,
    {
        self.money
    }

    pub fn receive_money(&mut self, m: i32)
        requires
            i32::MIN <= old(self).money + m <= i32::MAX,
        ensures
            *final(self) == (Player { money: (old(self).money + m) as i32, ..*old(self) }),
    {
        self.money += m;
    }

    pub fn pay_money(&mut self, m: i32)
        requires
            i32::MIN <= old(self).money - m <= i32::MAX,
        ensures
            *final(self) == (Player { money: (old(self).money - m) as i32, ..*old(self) }),
    {
        self.money -= m;
    }

    pub fn energy(&self) -> (r: i32)
        ensures
            r == self.energy,
    {
        self.energy
    }

    /// Buys energy one unit at a time, while energy is below the maximum and
    /// money covers a unit.
    pub fn refill_energy(&mut self)
        ensures
            *final(self) == old(self).refilled(),
            final(self).energy <= MAX_ENERGY || final(self).energy == old(self).energy,
            final(self).money >= 0 || final(self).money == old(self).money,
    {
        let ghost n = refill_units(self.money as int, self.energy as int);
        let ghost k: int = 0;
        while self.energy < MAX_ENERGY && self.money >= ENERGY_COST
            invariant
                0 <= k <= n,
                n == refill_units(old(self).money as int, old(self).energy as int),
                self.energy == old(self).energy + k,
                self.money == old(self).money - k * ENERGY_COST,
                *self == (Player { energy: self.energy, money: self.money, ..*old(self) }),
            decreases MAX_ENERGY - self.energy,
        {
            self.energy += 1;
            self.money -= ENERGY_COST;
            proof {
                k = k + 1;
            }
        }
    }

    /// Spends `e` energy if there is that much; otherwise changes nothing.
    pub fn use_energy(&mut self, e: i32) -> (ok: bool)
        requires
            old(self).energy - e <= i32::MAX,
        ensures
            ok == (e <= old(self).energy),
            ok ==> *final(self) == (Player { energy: (old(self).energy - e) as i32, ..*old(self) }),
            !ok ==> *final(self) == *old(self),
    {
        let ok = self.energy >= e;
        if ok {
            self.energy -= e;
        }
        ok
    }

    pub fn is_dead(&self) -> (r: bool)
        ensures
            r == self.is_dead_spec(),
    {
        self.money < 0 || self.energy < 0
    }
}

} // verus!
