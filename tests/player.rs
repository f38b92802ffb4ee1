use arena_sim::enemy::{Enemy, Health};
use arena_sim::geometry::{Position, Velocity};
use arena_sim::input::{Direction, PlayerInput};
use arena_sim::items::{nearest_in_reach, pickup, Equipment, Item, WorldItem};
use arena_sim::player::{
    attack, handle_state, hit, take_damage, update_stats, visual_state, PlayerState, Stats, Tint,
    ATTACK_PERIOD, DASH_TIME, PLAYER_SPEED,
};
use arena_sim::timer::Countdown;

fn at(x: i32, y: i32) -> Position {
    Position { x, y }
}

fn enemy(x: i32, y: i32) -> Enemy {
    Enemy { position: at(x, y), health: Health(3), velocity: Velocity { x: 0, y: 0 } }
}

fn input(x: i8, y: i8, dash: bool, attack: bool) -> PlayerInput {
    PlayerInput { direction: Direction { x, y }, dash, attack }
}

#[test]
fn idle_moves_at_movement_speed() {
    let mut state = PlayerState::Idle;
    let mut dash = Countdown::new(DASH_TIME, false);
    let v = handle_state(&input(1, 0, false, false), &mut state, &mut dash, &Stats::default(), 15_625);
    assert_eq!(state, PlayerState::Idle);
    assert_eq!(v, Velocity { x: PLAYER_SPEED as i64, y: 0 });
}

#[test]
fn attacking_moves_at_half_speed() {
    let mut state = PlayerState::Idle;
    let mut dash = Countdown::new(DASH_TIME, false);
    let v = handle_state(&input(0, -1, false, true), &mut state, &mut dash, &Stats::default(), 15_625);
    assert_eq!(state, PlayerState::Attacking);
    assert_eq!(v, Velocity { x: 0, y: -60_000 });
}

#[test]
fn dash_wins_and_keeps_its_direction() {
    let mut state = PlayerState::Idle;
    let mut dash = Countdown::new(DASH_TIME, false);
    let stats = Stats::default();
    let v = handle_state(&input(0, 1, true, true), &mut state, &mut dash, &stats, 15_625);
    assert_eq!(state, PlayerState::Dashing(Direction { x: 0, y: 1 }));
    assert_eq!(v, Velocity { x: 0, y: 300_000 });
    // The held direction changes; the dash does not.
    let v = handle_state(&input(-1, 0, false, false), &mut state, &mut dash, &stats, 15_625);
    assert_eq!(state, PlayerState::Dashing(Direction { x: 0, y: 1 }));
    assert_eq!(v, Velocity { x: 0, y: 300_000 });
}

#[test]
fn diagonal_dash_is_normalised() {
    let mut state = PlayerState::Idle;
    let mut dash = Countdown::new(DASH_TIME, false);
    let v = handle_state(&input(1, 1, true, false), &mut state, &mut dash, &Stats::default(), 15_625);
    // 300000 / sqrt(2) = 212132.03...
    assert_eq!(v, Velocity { x: 212_132, y: 212_132 });
}

#[test]
fn dash_ends_after_dash_time() {
    let mut state = PlayerState::Dashing(Direction { x: 0, y: 1 });
    let mut dash = Countdown::new(DASH_TIME, false);
    let stats = Stats::default();
    let held = input(0, 1, false, false);
    for _ in 0..25 {
        handle_state(&held, &mut state, &mut dash, &stats, 15_625);
        assert!(state.is_dashing());
    }
    handle_state(&held, &mut state, &mut dash, &stats, 15_625);
    assert_eq!(state, PlayerState::Idle);
    assert_eq!(dash.elapsed, 0);
}

#[test]
fn contact_damage_counts_overlapping_enemies() {
    let es = vec![enemy(0, 0), enemy(10_000, 0), enemy(100_000, 0)];
    assert_eq!(hit(&PlayerState::Idle, at(0, 0), &es), 2);
    assert_eq!(hit(&PlayerState::Attacking, at(0, 0), &es), 2);
    assert_eq!(hit(&PlayerState::Idle, at(500_000, 0), &es), 0);
}

#[test]
fn dashing_takes_no_contact_damage() {
    let es = vec![enemy(0, 0), enemy(1_000, 0), enemy(-1_000, 0)];
    assert_eq!(hit(&PlayerState::Dashing(Direction { x: 1, y: 0 }), at(0, 0), &es), 0);
}

#[test]
fn death_is_signalled_once() {
    let mut health = Health(2);
    let mut signalled = false;
    assert!(!take_damage(&mut health, &mut signalled, 1));
    assert_eq!(health, Health(1));
    assert!(take_damage(&mut health, &mut signalled, 3));
    assert_eq!(health, Health(-2));
    assert!(signalled);
    assert!(!take_damage(&mut health, &mut signalled, 1));
    assert!(!take_damage(&mut health, &mut signalled, 0));
    assert_eq!(health, Health(-3));
}

#[test]
fn attacking_fires_at_the_attack_rate() {
    let mut timer = Countdown::new(ATTACK_PERIOD, false);
    let stats = Stats::default();
    // Attack speed two: the one-second countdown runs out after half a second.
    for _ in 0..31 {
        assert!(attack(&mut timer, &PlayerState::Attacking, &stats, 15_625, at(0, 0), None).is_none());
    }
    let p = attack(&mut timer, &PlayerState::Attacking, &stats, 15_625, at(0, 0), Some(at(0, 5))).unwrap();
    assert_eq!(p.velocity, Velocity { x: 0, y: 320_000 });
    assert_eq!(timer.elapsed, 0);
}

#[test]
fn no_shot_while_not_attacking() {
    let mut timer = Countdown::new(ATTACK_PERIOD, false);
    let stats = Stats::default();
    for _ in 0..40 {
        assert!(attack(&mut timer, &PlayerState::Idle, &stats, 15_625, at(0, 0), None).is_none());
    }
    // The countdown stays run out, so the first attacking tick fires.
    assert!(attack(&mut timer, &PlayerState::Attacking, &stats, 15_625, at(0, 0), None).is_some());
}

#[test]
fn tint_changes_only_with_the_state() {
    assert_eq!(visual_state(&PlayerState::Idle, &PlayerState::Idle), None);
    assert_eq!(visual_state(&PlayerState::Idle, &PlayerState::Attacking), Some(Tint::Red));
    assert_eq!(visual_state(&PlayerState::Attacking, &PlayerState::Idle), Some(Tint::Green));
    let d = PlayerState::Dashing(Direction { x: 1, y: 0 });
    assert_eq!(visual_state(&PlayerState::Idle, &d), Some(Tint::Blue));
    assert_eq!(visual_state(&d, &d), None);
}

#[test]
fn picking_a_banana_twice_counts_two() {
    let mut eq = Equipment::new();
    let mut stats = Stats::default();
    eq.pickup(Item::Banana);
    update_stats(&mut stats, &eq);
    let once = stats.attack_speed;
    assert_eq!(once, 3_000);
    eq.pickup(Item::Banana);
    update_stats(&mut stats, &eq);
    assert_eq!(eq.count(&Item::Banana), 2);
    // 2.0 * (1 + 2 * 0.5) = 4.0
    assert_eq!(stats.attack_speed, 4_000);
    assert!(stats.attack_speed >= once);
    assert_eq!(eq.item_stat(&Item::Banana), 1_000);
}

#[test]
fn unseen_kind_counts_zero() {
    let eq = Equipment::new();
    assert_eq!(eq.count(&Item::Banana), 0);
    assert_eq!(eq.item_stat(&Item::Banana), 0);
    assert_eq!(Item::Banana.stat(), 500);
}

#[test]
fn nearest_item_in_reach_is_picked() {
    let items = vec![
        WorldItem { item: Item::Banana, position: at(20_000, 0) },
        WorldItem { item: Item::Banana, position: at(0, 10_000) },
        WorldItem { item: Item::Banana, position: at(-10_000, 0) },
        WorldItem { item: Item::Banana, position: at(5_000, 0) },
    ];
    assert_eq!(nearest_in_reach(at(0, 0), &items), Some(3));
    // Equal distances: the first wins.
    assert_eq!(nearest_in_reach(at(0, 0), &items[..3].to_vec()), Some(1));
    assert_eq!(nearest_in_reach(at(1_000_000, 0), &items), None);
}

#[test]
fn item_at_interaction_distance_is_out_of_reach() {
    let mut items = vec![WorldItem { item: Item::Banana, position: at(30_000, 0) }];
    let mut eq = Equipment::new();
    assert!(!pickup(at(0, 0), &mut items, &mut eq));
    assert_eq!(items.len(), 1);
    assert_eq!(eq.count(&Item::Banana), 0);
}
