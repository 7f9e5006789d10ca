use pig_farm::money::{MONEY_CAP, PIG_PRICE, PIG_SALE, STARTING_MONEY};
use pig_farm::pig::{Position, PIG_LIFETIME, PIG_MAX_STEP, PIG_STEP_TIME};
use pig_farm::player::{Player, PLAYER_SPEED};
use pig_farm::world::{Sale, SpawnOutcome, World, WorldError};

fn farm(cents: u64) -> World {
    let mut world = World::new(cents);
    assert_eq!(world.set_player(Player::new(Position { x: 40, y: -20 }, PLAYER_SPEED)), None);
    assert_eq!(world.spawn_pig_parent(), Ok(0));
    world
}

#[test]
fn new_world_is_empty() {
    let world = World::new(STARTING_MONEY);
    assert_eq!(world.balance(), 10_000);
    assert_eq!(world.player(), None);
    assert_eq!(world.parent_id(), None);
    assert_eq!(world.pig_count(), 0);
    assert_eq!(world.pig(0), None);
}

#[test]
fn parent_is_made_once() {
    let mut world = World::new(STARTING_MONEY);
    assert_eq!(world.spawn_pig_parent(), Ok(0));
    assert_eq!(world.parent_id(), Some(0));
    assert_eq!(world.spawn_pig_parent(), Err(WorldError::ParentExists));
    assert_eq!(world.parent_id(), Some(0));
}

#[test]
fn spawn_without_command_does_nothing() {
    let mut world = World::new(STARTING_MONEY);
    assert_eq!(world.spawn_pig(false), Ok(SpawnOutcome::NoCommand));
    assert_eq!(world.balance(), STARTING_MONEY);
    assert_eq!(world.pig_count(), 0);
}

#[test]
fn spawn_without_player_fails() {
    let mut world = World::new(STARTING_MONEY);
    assert_eq!(world.spawn_pig_parent(), Ok(0));
    assert_eq!(world.spawn_pig(true), Err(WorldError::MissingPlayer));
    assert_eq!(world.balance(), STARTING_MONEY);
    assert_eq!(world.pig_count(), 0);
}

#[test]
fn spawn_without_parent_fails() {
    let mut world = World::new(STARTING_MONEY);
    world.set_player(Player::new(Position { x: 0, y: 0 }, PLAYER_SPEED));
    assert_eq!(world.spawn_pig(true), Err(WorldError::MissingParent));
    assert_eq!(world.balance(), STARTING_MONEY);
    assert_eq!(world.pig_count(), 0);
}

#[test]
fn lifetime_without_parent_fails() {
    let mut world = World::new(STARTING_MONEY);
    assert_eq!(world.pig_lifetime(1), Err(WorldError::MissingParent));
}

#[test]
fn spawned_pig_stands_where_the_player_stands() {
    let mut world = farm(STARTING_MONEY);
    assert_eq!(
        world.spawn_pig(true),
        Ok(SpawnOutcome::Bought { id: 1, position: Position { x: 40, y: -20 }, balance: 9_000 })
    );
    let pig = world.pig(0).unwrap();
    assert_eq!(pig.id, 1);
    assert_eq!(pig.position, Position { x: 40, y: -20 });
    assert_eq!(pig.pig.lifetime.elapsed(), 0);
    assert_eq!(pig.pig.lifetime.duration(), PIG_LIFETIME);
    assert_eq!(pig.pig.movement_timer.elapsed(), 0);
    assert_eq!(pig.pig.movement_timer.duration(), PIG_STEP_TIME);
    assert!(world.is_child(1));
    assert!(!world.is_child(0));
    assert_eq!(world.player().unwrap().position, Position { x: 40, y: -20 });
}

#[test]
fn scenario_buy_one_pig_and_wait_five_seconds() {
    let mut world = farm(10_000);
    assert!(matches!(world.spawn_pig(true), Ok(SpawnOutcome::Bought { .. })));
    assert_eq!(world.balance(), 9_000);
    assert_eq!(world.pig_count(), 1);
    assert_eq!(world.pig_lifetime(5_000_000_000), Ok(vec![Sale { id: 1, balance: 10_500 }]));
    assert_eq!(world.balance(), 10_500);
    assert_eq!(world.pig_count(), 0);
    assert!(!world.is_child(1));
}

#[test]
fn scenario_too_little_money_buys_nothing() {
    let mut world = farm(500);
    assert_eq!(world.spawn_pig(true), Ok(SpawnOutcome::InsufficientFunds { balance: 500 }));
    assert_eq!(world.balance(), 500);
    assert_eq!(world.pig_count(), 0);
}

#[test]
fn scenario_buy_two_pigs_and_wait_five_seconds() {
    let mut world = farm(10_000);
    assert!(matches!(world.spawn_pig(true), Ok(SpawnOutcome::Bought { id: 1, .. })));
    assert!(matches!(world.spawn_pig(true), Ok(SpawnOutcome::Bought { id: 2, .. })));
    assert_eq!(world.balance(), 8_000);
    assert_eq!(world.pig_count(), 2);
    assert_eq!(world.parent_id(), Some(0));
    assert!(world.is_child(1));
    assert!(world.is_child(2));
    assert_eq!(
        world.pig_lifetime(5_000_000_000),
        Ok(vec![Sale { id: 1, balance: 9_500 }, Sale { id: 2, balance: 11_000 }])
    );
    assert_eq!(world.balance(), 11_000);
    assert_eq!(world.pig_count(), 0);
    assert!(!world.is_child(1));
    assert!(!world.is_child(2));
}

#[test]
fn exact_price_buys_a_pig_and_one_cent_less_does_not() {
    let mut world = farm(PIG_PRICE);
    assert!(matches!(world.spawn_pig(true), Ok(SpawnOutcome::Bought { balance: 0, .. })));
    let mut world = farm(PIG_PRICE - 1);
    assert_eq!(world.spawn_pig(true), Ok(SpawnOutcome::InsufficientFunds { balance: 999 }));
}

#[test]
fn only_the_pigs_whose_life_is_over_are_sold() {
    let mut world = farm(10_000);
    world.spawn_pig(true).unwrap();
    assert_eq!(world.pig_lifetime(2_000_000_000), Ok(vec![]));
    world.spawn_pig(true).unwrap();
    world.spawn_pig(true).unwrap();
    assert_eq!(world.balance(), 7_000);
    // the first pig has three seconds left, the others five
    assert_eq!(world.pig_lifetime(3_000_000_000), Ok(vec![Sale { id: 1, balance: 8_500 }]));
    assert_eq!(world.pig_count(), 2);
    assert_eq!(world.pig(0).unwrap().id, 2);
    assert_eq!(world.pig(0).unwrap().pig.lifetime.elapsed(), 3_000_000_000);
    assert_eq!(world.pig(1).unwrap().id, 3);
    assert!(!world.is_child(1));
    assert!(world.is_child(2));
    assert!(world.is_child(3));
    assert_eq!(
        world.pig_lifetime(2_000_000_000),
        Ok(vec![Sale { id: 2, balance: 10_000 }, Sale { id: 3, balance: 11_500 }])
    );
    assert_eq!(world.pig_count(), 0);
}

#[test]
fn sales_stop_at_the_cap_of_the_purse() {
    let mut world = farm(MONEY_CAP);
    world.spawn_pig(true).unwrap();
    world.spawn_pig(true).unwrap();
    assert_eq!(world.balance(), MONEY_CAP - 2 * PIG_PRICE);
    assert_eq!(
        world.pig_lifetime(PIG_LIFETIME),
        Ok(vec![
            Sale { id: 1, balance: MONEY_CAP - 2 * PIG_PRICE + PIG_SALE },
            Sale { id: 2, balance: MONEY_CAP },
        ])
    );
    assert_eq!(world.balance(), MONEY_CAP);
}

#[test]
fn wandering_moves_each_pig_by_a_short_step_when_due() {
    let mut world = farm(10_000);
    world.spawn_pig(true).unwrap();
    world.spawn_pig(true).unwrap();
    world.pig_random_movement(PIG_STEP_TIME - 1);
    for i in 0..2 {
        let pig = world.pig(i).unwrap();
        assert_eq!(pig.position, Position { x: 40, y: -20 });
        assert_eq!(pig.pig.movement_timer.elapsed(), PIG_STEP_TIME - 1);
    }
    let mut moved = false;
    for _ in 0..50 {
        let before = [world.pig(0).unwrap(), world.pig(1).unwrap()];
        world.pig_random_movement(PIG_STEP_TIME);
        for i in 0..2 {
            let pig = world.pig(i).unwrap();
            assert!((pig.position.x - before[i].position.x).abs() <= PIG_MAX_STEP);
            assert!((pig.position.y - before[i].position.y).abs() <= PIG_MAX_STEP);
            assert_eq!(pig.pig.movement_timer.elapsed(), 0);
            assert_eq!(pig.pig.lifetime.elapsed(), 0);
            assert_eq!(pig.id, before[i].id);
            if pig.position != before[i].position {
                moved = true;
            }
        }
    }
    assert!(moved);
    assert_eq!(world.balance(), 8_000);
    assert_eq!(world.pig_count(), 2);
}

#[test]
fn player_walks_on_the_keys_held() {
    let mut world = farm(10_000);
    world.character_movement(true, false, false, true, 1_000_000_000);
    assert_eq!(world.player().unwrap().position, Position { x: 40, y: 99_980 });
    world.character_movement(false, false, true, true, 500_000_000);
    assert_eq!(world.player().unwrap().position, Position { x: 50_040, y: 99_980 });
    world.character_movement(false, false, false, false, 500_000_000);
    assert_eq!(world.player().unwrap().position, Position { x: 50_040, y: 99_980 });
    let mut empty = World::new(0);
    empty.character_movement(true, false, false, false, 1);
    assert_eq!(empty.player(), None);
}

#[test]
fn set_player_hands_back_the_player_before() {
    let mut world = World::new(0);
    let first = Player::new(Position { x: 1, y: 2 }, 3);
    let second = Player::new(Position { x: 4, y: 5 }, 6);
    assert_eq!(world.set_player(first), None);
    assert_eq!(world.set_player(second), Some(first));
    assert_eq!(world.player(), Some(second));
}

#[test]
fn pigs_are_found_by_their_identifier() {
    let mut world = farm(10_000);
    world.spawn_pig(true).unwrap();
    world.spawn_pig(true).unwrap();
    assert_eq!(world.pig_by_id(2), world.pig(1));
    assert_eq!(world.pig_by_id(2).unwrap().id, 2);
    assert_eq!(world.pig_by_id(0), None);
    assert_eq!(world.pig_by_id(3), None);
}
