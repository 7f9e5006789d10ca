use pig_farm::input::KeyEdge;
use pig_farm::pig::{Position, PIG_LIFETIME, PIG_STEP_TIME};
use pig_farm::player::{Player, PLAYER_SPEED};
use pig_farm::plugin::{Frame, PigPlugin};
use pig_farm::world::{Sale, SpawnOutcome, World, WorldError};

fn game(cents: u64) -> World {
    let mut world = World::new(cents);
    world.set_player(Player::new(Position { x: 0, y: 0 }, PLAYER_SPEED));
    assert_eq!(PigPlugin.build(&mut world), Ok(0));
    world
}

#[test]
fn build_makes_the_parent_once() {
    let mut world = World::new(0);
    assert_eq!(PigPlugin.build(&mut world), Ok(0));
    assert_eq!(PigPlugin.build(&mut world), Err(WorldError::ParentExists));
    assert_eq!(world.parent_id(), Some(0));
}

#[test]
fn frame_without_parent_fails() {
    let mut world = World::new(10_000);
    assert_eq!(PigPlugin.update(&mut world, false, 16), Err(WorldError::MissingParent));
    assert_eq!(PigPlugin.update(&mut world, true, 16), Err(WorldError::MissingPlayer));
    world.set_player(Player::new(Position { x: 0, y: 0 }, PLAYER_SPEED));
    assert_eq!(PigPlugin.update(&mut world, true, 16), Err(WorldError::MissingParent));
    assert_eq!(world.balance(), 10_000);
    assert_eq!(world.pig_count(), 0);
}

#[test]
fn frame_without_player_runs_unless_a_pig_is_asked_for() {
    let mut world = World::new(10_000);
    PigPlugin.build(&mut world).unwrap();
    assert_eq!(
        PigPlugin.update(&mut world, false, 16),
        Ok(Frame { spawn: SpawnOutcome::NoCommand, sales: vec![] })
    );
    assert_eq!(PigPlugin.update(&mut world, true, 16), Err(WorldError::MissingPlayer));
}

#[test]
fn frames_buy_a_pig_and_sell_it_after_five_seconds() {
    let mut world = game(10_000);
    let frame = PigPlugin.update(&mut world, true, 16_000_000).unwrap();
    assert_eq!(
        frame.spawn,
        SpawnOutcome::Bought { id: 1, position: Position { x: 0, y: 0 }, balance: 9_000 }
    );
    assert_eq!(frame.sales, vec![]);
    assert_eq!(world.balance(), 9_000);
    assert_eq!(world.pig_count(), 1);
    let mut elapsed: u64 = 0;
    let mut sold = Vec::new();
    while elapsed < PIG_LIFETIME {
        let frame = PigPlugin.update(&mut world, false, 16_000_000).unwrap();
        elapsed += 16_000_000;
        assert_eq!(frame.spawn, SpawnOutcome::NoCommand);
        if elapsed < PIG_LIFETIME {
            assert_eq!(frame.sales, vec![]);
            assert_eq!(world.pig_count(), 1);
        }
        sold.extend(frame.sales);
    }
    assert_eq!(sold, vec![Sale { id: 1, balance: 10_500 }]);
    assert_eq!(world.balance(), 10_500);
    assert_eq!(world.pig_count(), 0);
    assert!(!world.is_child(1));
}

#[test]
fn pig_bought_in_a_frame_is_not_touched_by_that_frame() {
    let mut world = game(10_000);
    let frame = PigPlugin.update(&mut world, true, 2 * PIG_LIFETIME).unwrap();
    assert!(matches!(frame.spawn, SpawnOutcome::Bought { id: 1, .. }));
    assert_eq!(frame.sales, vec![]);
    assert_eq!(world.pig_count(), 1);
    let pig = world.pig(0).unwrap();
    assert_eq!(pig.pig.lifetime.elapsed(), 0);
    assert_eq!(pig.pig.movement_timer.elapsed(), 0);
    assert_eq!(pig.position, Position { x: 0, y: 0 });
}

#[test]
fn purchase_is_decided_before_the_sales_of_the_frame() {
    let mut world = game(1_000);
    PigPlugin.update(&mut world, true, 0).unwrap();
    assert_eq!(world.balance(), 0);
    // the sale of this frame comes too late for this frame's purchase
    let frame = PigPlugin.update(&mut world, true, PIG_LIFETIME).unwrap();
    assert_eq!(frame.spawn, SpawnOutcome::InsufficientFunds { balance: 0 });
    assert_eq!(frame.sales, vec![Sale { id: 1, balance: 1_500 }]);
    let frame = PigPlugin.update(&mut world, true, 0).unwrap();
    assert_eq!(
        frame.spawn,
        SpawnOutcome::Bought { id: 2, position: Position { x: 0, y: 0 }, balance: 500 }
    );
}

#[test]
fn frame_with_too_little_money_reports_it() {
    let mut world = game(500);
    let frame = PigPlugin.update(&mut world, true, 16_000_000).unwrap();
    assert_eq!(frame.spawn, SpawnOutcome::InsufficientFunds { balance: 500 });
    assert_eq!(world.balance(), 500);
    assert_eq!(world.pig_count(), 0);
}

#[test]
fn frames_make_the_pigs_wander_every_tenth_of_a_second() {
    let mut world = game(10_000);
    PigPlugin.update(&mut world, true, 0).unwrap();
    PigPlugin.update(&mut world, false, PIG_STEP_TIME / 2).unwrap();
    assert_eq!(world.pig(0).unwrap().position, Position { x: 0, y: 0 });
    assert_eq!(world.pig(0).unwrap().pig.movement_timer.elapsed(), PIG_STEP_TIME / 2);
    PigPlugin.update(&mut world, false, PIG_STEP_TIME / 2).unwrap();
    assert_eq!(world.pig(0).unwrap().pig.movement_timer.elapsed(), 0);
    assert_eq!(world.pig(0).unwrap().pig.lifetime.elapsed(), PIG_STEP_TIME);
}

#[test]
fn held_key_buys_one_pig() {
    let mut world = game(10_000);
    let mut key = KeyEdge::new();
    let downs = [false, true, true, true, false, true];
    let mut bought = Vec::new();
    for down in downs {
        let frame = PigPlugin.update_on_key(&mut world, &mut key, down, 16_000_000).unwrap();
        bought.push(matches!(frame.spawn, SpawnOutcome::Bought { .. }));
    }
    assert_eq!(bought, vec![false, true, false, false, false, true]);
    assert_eq!(world.pig_count(), 2);
    assert_eq!(world.balance(), 8_000);
}
