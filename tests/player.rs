use miner::model::player::{Player, ENERGY_COST, MAX_ENERGY};

#[test]
fn player_init_works() {
    let p = Player::new(3, 4);
    assert_eq!(3, p.x);
    assert_eq!(4, p.y);
    assert_eq!(1000, p.money());
    assert_eq!(100, p.energy());
    assert_eq!(false, p.is_dead());
}

#[test]
fn money_works() {
    let mut p = Player::new(0, 0);

    let m1 = p.money();
    p.receive_money(42);
    let m2 = p.money();
    assert_eq!(m1 + 42, m2);
    assert_eq!(false, p.is_dead());

    p.pay_money(p.money());
    assert_eq!(0, p.money());
    assert_eq!(false, p.is_dead());

    p.pay_money(1);
    assert_eq!(-1, p.money());
    assert_eq!(true, p.is_dead());
}

#[test]
fn energy_works() {
    let mut p = Player::new(0, 0);
    p.receive_money(100000);

    p.refill_energy();
    assert_eq!(MAX_ENERGY, p.energy());
    assert_eq!(false, p.is_dead());

    assert_eq!(true, p.use_energy(p.energy() / 2));
    assert_eq!(MAX_ENERGY / 2, p.energy());
    assert_eq!(false, p.is_dead());

    p.refill_energy();
    assert_eq!(MAX_ENERGY, p.energy());
    assert_eq!(false, p.is_dead());

    assert_eq!(true, p.use_energy(MAX_ENERGY / 2));
    assert_eq!(MAX_ENERGY / 2, p.energy());
    assert_eq!(false, p.is_dead());

    assert_eq!(true, p.use_energy(MAX_ENERGY / 2));
    assert_eq!(0, p.energy());
    assert_eq!(false, p.is_dead());

    assert_eq!(false, p.use_energy(1));
    assert_eq!(0, p.energy());
    assert_eq!(false, p.is_dead());
}

#[test]
fn energy_costs_money() {
    let mut p = Player::new(0, 0);

    let m1 = p.money();
    assert_eq!(true, p.use_energy(p.energy()));
    assert_eq!(m1, p.money());
    p.refill_energy();
    assert_eq!(m1 - p.energy() * ENERGY_COST, p.money());

    p.pay_money(p.money());
    assert_eq!(true, p.use_energy(p.energy()));
    p.receive_money(2 * ENERGY_COST);
    p.refill_energy();
    assert_eq!(2, p.energy());
    assert_eq!(0, p.money());
    assert_eq!(false, p.is_dead());
}

#[test]
fn using_more_energy_than_held_changes_nothing() {
    let mut p = Player::new(0, 0);
    assert_eq!(false, p.use_energy(101));
    assert_eq!(100, p.energy());
    assert_eq!(true, p.use_energy(100));
    assert_eq!(0, p.energy());
    assert_eq!(false, p.use_energy(1));
    assert_eq!(0, p.energy());
}

#[test]
fn using_energy_deducts_exactly() {
    let mut p = Player::new(0, 0);
    assert_eq!(true, p.use_energy(37));
    assert_eq!(63, p.energy());
    assert_eq!(true, p.use_energy(0));
    assert_eq!(63, p.energy());
}

#[test]
fn refill_stops_when_money_runs_short() {
    let mut p = Player::new(0, 0);
    p.energy = 10;
    p.money = 255;
    p.refill_energy();
    // 25 units can be paid for, 90 are missing.
    assert_eq!(35, p.energy());
    assert_eq!(5, p.money());
}

#[test]
fn refill_with_full_energy_or_no_money_does_nothing() {
    let mut p = Player::new(0, 0);
    p.refill_energy();
    assert_eq!(100, p.energy());
    assert_eq!(1000, p.money());

    p.energy = 3;
    p.money = 9;
    p.refill_energy();
    assert_eq!(3, p.energy());
    assert_eq!(9, p.money());

    p.money = -50;
    p.refill_energy();
    assert_eq!(3, p.energy());
    assert_eq!(-50, p.money());
}

#[test]
fn negative_energy_means_death() {
    let mut p = Player::new(0, 0);
    p.energy = -1;
    assert_eq!(true, p.is_dead());
    p.energy = 0;
    p.money = 0;
    assert_eq!(false, p.is_dead());
}
