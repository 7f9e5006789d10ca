use pig_farm::pig::{
    add_clamped, Pig, PigEntity, Position, PIG_LIFETIME, PIG_MAX_STEP, PIG_STEP_TIME,
};
use pig_farm::random::random_step;
use pig_farm::timer::TimerMode;

#[test]
fn new_pig_lives_five_seconds_and_steps_every_tenth() {
    let pig = Pig::new();
    assert_eq!(PIG_LIFETIME, 5_000_000_000);
    assert_eq!(PIG_STEP_TIME, 100_000_000);
    assert_eq!(pig.lifetime.duration(), PIG_LIFETIME);
    assert_eq!(pig.lifetime.mode(), TimerMode::Once);
    assert_eq!(pig.lifetime.elapsed(), 0);
    assert_eq!(pig.movement_timer.duration(), PIG_STEP_TIME);
    assert_eq!(pig.movement_timer.mode(), TimerMode::Repeating);
    assert_eq!(pig.movement_timer.elapsed(), 0);
}

#[test]
fn pig_expires_when_five_seconds_have_passed() {
    let mut pig = PigEntity::new(3, Position { x: 0, y: 0 });
    assert!(!pig.age(4_999_999_999));
    assert!(pig.age(1));
    assert!(pig.age(0));
    assert_eq!(pig.id, 3);
}

#[test]
fn pig_steps_by_the_given_offsets_when_a_step_is_due() {
    let mut pig = PigEntity::new(3, Position { x: 10, y: -10 });
    assert!(pig.step_due(PIG_STEP_TIME));
    assert!(pig.wander(PIG_STEP_TIME, 5_000, -5_000));
    assert_eq!(pig.position, Position { x: 5_010, y: -5_010 });
    assert_eq!(pig.pig.movement_timer.elapsed(), 0);
    assert_eq!(pig.pig.lifetime.elapsed(), 0);
}

#[test]
fn pig_only_waits_when_no_step_is_due() {
    let mut pig = PigEntity::new(3, Position { x: 10, y: -10 });
    assert!(!pig.step_due(PIG_STEP_TIME - 1));
    assert!(!pig.wander(PIG_STEP_TIME - 1, 5_000, -5_000));
    assert_eq!(pig.position, Position { x: 10, y: -10 });
    assert_eq!(pig.pig.movement_timer.elapsed(), PIG_STEP_TIME - 1);
    assert!(pig.wander(1, 1, 2));
    assert_eq!(pig.position, Position { x: 11, y: -8 });
}

#[test]
fn positions_stop_at_the_edge_of_the_map() {
    assert_eq!(add_clamped(i64::MAX - 1, 5), i64::MAX);
    assert_eq!(add_clamped(i64::MIN + 1, -5), i64::MIN);
    assert_eq!(add_clamped(-3, 5), 2);
    let p = Position { x: i64::MAX, y: i64::MIN }.shift(1, -1);
    assert_eq!(p, Position { x: i64::MAX, y: i64::MIN });
}

#[test]
fn random_steps_stay_in_range_and_vary() {
    let first = random_step();
    let mut varied = false;
    for _ in 0..500 {
        let (dx, dy) = random_step();
        assert!(-PIG_MAX_STEP <= dx && dx <= PIG_MAX_STEP);
        assert!(-PIG_MAX_STEP <= dy && dy <= PIG_MAX_STEP);
        if (dx, dy) != first {
            varied = true;
        }
    }
    assert!(varied);
}

#[test]
fn random_steps_do_not_sit_on_a_bound() {
    let mut inside = false;
    for _ in 0..500 {
        let (dx, dy) = random_step();
        if dx != -PIG_MAX_STEP && dx != PIG_MAX_STEP && dy != -PIG_MAX_STEP && dy != PIG_MAX_STEP {
            inside = true;
        }
    }
    assert!(inside);
}
