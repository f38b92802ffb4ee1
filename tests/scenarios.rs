use arena_sim::camera::{camera_goal, nudge, update_camera};
use arena_sim::enemy::{Enemy, Health};
use arena_sim::game::Game;
use arena_sim::geometry::{Position, Velocity};
use arena_sim::input::{Direction, RawInput};
use arena_sim::items::{Item, WorldItem};
use arena_sim::pause::{simulates, toggle, GameSubState};
use arena_sim::player::{PlayerState, ATTACK_SPEED};

const TICK: u64 = 15_625;

fn at(x: i32, y: i32) -> Position {
    Position { x, y }
}

fn keys(up: bool, dash: bool) -> RawInput {
    RawInput {
        left: false,
        right: false,
        down: false,
        up,
        dash_primary_just_pressed: dash,
        dash_secondary_just_pressed: false,
        attack_held: false,
    }
}

#[test]
fn standing_in_an_enemy_until_death() {
    let mut game = Game::new(Vec::new());
    assert_eq!(game.player.stats.movement_speed, 120_000);
    game.enemies.push(Enemy {
        position: at(0, 0),
        health: Health(3),
        velocity: Velocity { x: 0, y: 0 },
    });
    let mut deaths = 0;
    for _ in 0..3 {
        if game.fixed_update(TICK, None) {
            deaths += 1;
        }
    }
    assert_eq!(game.player.health, Health(97));
    for _ in 3..100 {
        if game.fixed_update(TICK, None) {
            deaths += 1;
        }
    }
    assert_eq!(game.player.health, Health(0));
    assert_eq!(deaths, 1);
    assert!(game.player.death_signalled);
    // Nothing more happens to a dead player.
    for _ in 0..10 {
        assert!(!game.fixed_update(TICK, None));
    }
    assert_eq!(game.player.health, Health(0));
}

#[test]
fn picking_up_a_banana_in_reach() {
    let banana = WorldItem { item: Item::Banana, position: at(10_000, -5_000) };
    let mut game = Game::new(vec![banana]);
    assert!(game.interact());
    assert!(game.items.is_empty());
    assert_eq!(game.player.equipment.count(&Item::Banana), 1);
    assert_eq!(game.player.stats.attack_speed, ATTACK_SPEED * 3 / 2);
    assert!(!game.interact());
}

#[test]
fn dash_up_then_back_to_idle_with_up_held() {
    let mut game = Game::new(Vec::new());
    game.sample_input(keys(true, true));
    game.fixed_update(TICK, None);
    assert_eq!(game.player.state, PlayerState::Dashing(Direction { x: 0, y: 1 }));
    assert_eq!(game.player.velocity, Velocity { x: 0, y: 300_000 });
    game.sample_input(keys(true, false));
    let mut ticks = 0;
    while game.player.state != PlayerState::Idle {
        game.fixed_update(TICK, None);
        ticks += 1;
        assert!(ticks <= 26);
    }
    // 26 ticks of 1/64 s: the first tick at or past 0.4 s.
    assert_eq!(ticks, 26);
    assert_eq!(game.player.velocity, Velocity { x: 0, y: 120_000 });
}

#[test]
fn dashing_through_enemies_takes_no_damage() {
    let mut game = Game::new(Vec::new());
    for k in 0..4 {
        game.enemies.push(Enemy {
            position: at(1_000 * k, 0),
            health: Health(3),
            velocity: Velocity { x: 0, y: 0 },
        });
    }
    game.sample_input(keys(true, true));
    // The tick that starts the dash still takes contact damage.
    game.fixed_update(TICK, None);
    assert_eq!(game.player.health, Health(96));
    game.sample_input(keys(true, false));
    for _ in 0..25 {
        game.fixed_update(TICK, None);
        assert!(game.player.state != PlayerState::Idle);
    }
    assert_eq!(game.player.health, Health(96));
}

#[test]
fn attacking_player_shoots_and_kills_an_enemy() {
    let mut game = Game::new(Vec::new());
    let mut raw = keys(false, false);
    raw.attack_held = true;
    game.sample_input(raw);
    game.enemies.push(Enemy {
        position: at(0, 100_000),
        health: Health(1),
        velocity: Velocity { x: 0, y: 0 },
    });
    // The first tick turns the player to attacking; the attack countdown
    // runs out after half a second.
    let mut shots = 0;
    for _ in 0..33 {
        let before = game.projectiles.len();
        game.fixed_update(TICK, Some(at(0, 100_000)));
        if game.projectiles.len() > before {
            shots += 1;
        }
    }
    assert_eq!(shots, 1);
    assert_eq!(game.enemies[0].velocity, Velocity { x: 0, y: -100_000 });
    // Put the shot on the enemy, as the physics engine would.
    game.projectiles[0].position = at(0, 100_000);
    game.fixed_update(TICK, Some(at(0, 100_000)));
    assert!(game.enemies.is_empty());
}

#[test]
fn enemies_spawn_every_five_seconds() {
    let mut game = Game::new(Vec::new());
    for _ in 0..319 {
        game.fixed_update(TICK, None);
    }
    assert!(game.enemies.is_empty());
    game.fixed_update(TICK, None);
    assert_eq!(game.enemies.len(), 1);
    assert_eq!(game.enemies[0].health, Health(3));
}

#[test]
fn camera_follows_player_without_cursor() {
    assert_eq!(camera_goal(at(100, 200), at(0, 0), None), at(100, 200));
}

#[test]
fn camera_leans_toward_cursor() {
    // player + 0.3 * (cursor - camera)
    assert_eq!(camera_goal(at(100, 200), at(0, 0), Some(at(1_000, -1_000))), at(400, -100));
}

#[test]
fn camera_nudge_moves_part_of_the_way() {
    assert_eq!(nudge(at(0, 0), at(1_000, -1_000), 250), at(250, -250));
    assert_eq!(nudge(at(0, 0), at(1_000, -1_000), 0), at(0, 0));
    assert_eq!(nudge(at(0, 0), at(1_000, -1_000), 1_000), at(1_000, -1_000));
    assert_eq!(nudge(at(0, 0), at(3, -3), 500), at(1, -1));
    assert_eq!(update_camera(at(0, 0), at(1_000, 0), None, 500), at(500, 0));
}

#[test]
fn pause_toggles_and_freezes() {
    let (s, shown) = toggle(GameSubState::Running);
    assert_eq!(s, GameSubState::Paused);
    assert!(shown);
    assert!(!simulates(s));
    let (s, shown) = toggle(s);
    assert_eq!(s, GameSubState::Running);
    assert!(!shown);
    assert!(simulates(s));
}

#[test]
fn physics_moves_bodies_along_their_velocities() {
    let mut game = Game::new(Vec::new());
    game.enemies.push(Enemy {
        position: at(0, 0),
        health: Health(3),
        velocity: Velocity { x: -100_000, y: 100_000 },
    });
    game.player.velocity = Velocity { x: 120_000, y: 0 };
    game.physics(TICK);
    assert_eq!(game.player.position, at(1_875, 0));
    // 1562.5 milli-pixels, rounded toward zero.
    assert_eq!(game.enemies[0].position, at(-1_562, 1_562));
}

#[test]
fn physics_holds_positions_inside_the_world() {
    let mut game = Game::new(Vec::new());
    game.player.position = at(i32::MAX - 10, i32::MIN + 10);
    game.player.velocity = Velocity { x: 1_000_000, y: -1_000_000 };
    game.physics(TICK);
    assert_eq!(game.player.position, at(i32::MAX, i32::MIN));
}
