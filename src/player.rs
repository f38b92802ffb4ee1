use crate::enemy::{Enemy, Health, ENEMY_SIZE};
use crate::geometry::{is_scaled, scale_to_length, square_collide, squares_overlap, Position, Velocity};
use crate::input::{Direction, PlayerInput};
use crate::items::{Equipment, Item};
use crate::projectile::{fire, is_fired, Projectile};
use crate::timer::Countdown;
use vstd::prelude::*;

verus! {

/// How long a dash lasts, in microseconds.
pub const DASH_TIME: u64 = 400_000;

/// Base period of the attack countdown, in microseconds; it runs faster by the
/// attack speed.
pub const ATTACK_PERIOD: u64 = 1_000_000;

/// Base attack speed, in thousandths.
pub const ATTACK_SPEED: u64 = 2_000;

/// Base movement speed, in milli-pixels per second.
pub const PLAYER_SPEED: u32 = 120_000;

/// Hit points of the player at the start of a run.
pub const PLAYER_HEALTH: i64 = 100;

/// Side of the player's square, in milli-pixels.
pub const PLAYER_SIZE: u32 = 25_000;

/// Speed factors of the states, in thousandths.
pub const IDLE_FACTOR: u64 = 1_000;

pub const ATTACKING_FACTOR: u64 = 500;

pub const DASHING_FACTOR: u64 = 2_500;

/// What the player is doing. A dash keeps the direction it started with.
#[derive(Clone, Copy, Debug, PartialEq, Eq, Structural)]
pub enum PlayerState {
    Idle,
    Dashing(Direction),
    Attacking,
}

impl PlayerState {
    pub open spec fn wf(self) -> bool {
        self matches PlayerState::Dashing(d) ==> d.wf()
    }

    pub fn is_dashing(&self) -> (r: bool)
        ensures
            r == self is Dashing,
    {
        matches!(self, PlayerState::Dashing(_))
    }
}

/// The colour that shows the player's state.
#[derive(Clone, Copy, Debug, PartialEq, Eq, Structural)]
pub enum Tint {
    Green,
    Red,
    Blue,
}

pub open spec fn tint_of(state: PlayerState) -> Tint {
    match state {
        PlayerState::Idle => Tint::Green,
        PlayerState::Attacking => Tint::Red,
        PlayerState::Dashing(_) => Tint::Blue,
    }
}

/// The new tint when the state changed, nothing when it did not: idle shows
/// green, attacking red, dashing blue.
pub fn visual_state(previous: &PlayerState, current: &PlayerState) -> (r: Option<Tint>)
    ensures
        r == if *previous == *current {
            None
        } else {
            Some(tint_of(*current))
        },
{
    if *previous == *current {
        None
    } else {
        Some(
            match current {
                PlayerState::Idle => Tint::Green,
                PlayerState::Attacking => Tint::Red,
                PlayerState::Dashing(_) => Tint::Blue,
            },
        )
    }
}

/// The player's derived figures.
#[derive(Clone, Copy, Debug, PartialEq, Eq, Structural)]
pub struct Stats {
    pub max_health: i64,
    /// Thousandths of the base attack rate.
    pub attack_speed: u64,
    /// Milli-pixels per second.
    pub movement_speed: u32,
}

/// The stats that an equipment gives: the base figures, with the attack speed
/// multiplied by one plus the equipment's bonus.
pub open spec fn stats_for(eq: Equipment) -> Stats {
    Stats {
        max_health: PLAYER_HEALTH,
        attack_speed: (ATTACK_SPEED * (1000 + eq.bonus_spec()) / 1000) as u64,
        movement_speed: PLAYER_SPEED,
    }
}

impl Default for Stats {
    fn default() -> (r: Stats)
        ensures
            r == (Stats {
                max_health: PLAYER_HEALTH,
                attack_speed: ATTACK_SPEED,
                movement_speed: PLAYER_SPEED,
            }),
    {
        Stats { max_health: PLAYER_HEALTH, attack_speed: ATTACK_SPEED, movement_speed: PLAYER_SPEED }
    }
}

impl Stats {
    /// Recomputes the stats from the base figures and the equipment.
    pub fn apply_equipment(&mut self, eq: &Equipment)
        requires
            eq.wf(),
        ensures
            *final(self) == stats_for(*eq),
    {
        let bonus = eq.item_stat(&Item::Banana);
        assert(bonus <= 0xffff_ffff * 500);
        self.max_health = PLAYER_HEALTH;
        self.attack_speed = ATTACK_SPEED * (1000 + bonus) / 1000;
        self.movement_speed = PLAYER_SPEED;
    }
}

/// Brings the stats up to date after the equipment changed.
pub fn update_stats(stats: &mut Stats, eq: &Equipment)
    requires
        eq.wf(),
    ensures
        *final(stats) == stats_for(*eq),
{
    stats.apply_equipment(eq);
}

/// The state and dash countdown after one fixed tick of `dt` microseconds.
/// A dash runs until its countdown finishes, whatever the input; then, and
/// whenever the player is not dashing, a dash request wins over a held attack,
/// which wins over neither.
pub open spec fn next_state(input: PlayerInput, state: PlayerState, dash: Countdown, dt: int) -> (
    PlayerState,
    Countdown,
) {
    let (s1, t1) = if state is Dashing {
        let t = dash.ticked(dt);
        if t.finished {
            (PlayerState::Idle, Countdown { elapsed: 0, finished: false, ..t })
        } else {
            (state, t)
        }
    } else {
        (state, dash)
    };
    let s2 = if s1 is Dashing {
        s1
    } else if input.dash {
        PlayerState::Dashing(input.direction)
    } else if input.attack {
        PlayerState::Attacking
    } else {
        PlayerState::Idle
    };
    (s2, t1)
}

/// Speed factor of a state, in thousandths.
pub open spec fn factor(state: PlayerState) -> int {
    match state {
        PlayerState::Idle => IDLE_FACTOR as int,
        PlayerState::Attacking => ATTACKING_FACTOR as int,
        PlayerState::Dashing(_) => DASHING_FACTOR as int,
    }
}

/// The direction the player moves in: the dash direction while dashing, the
/// held direction otherwise.
pub open spec fn heading(state: PlayerState, input: PlayerInput) -> Direction {
    match state {
        PlayerState::Dashing(d) => d,
        _ => input.direction,
    }
}

/// The player's velocity: the unit heading times the movement speed times the
/// state's factor.
pub open spec fn is_player_velocity(
    state: PlayerState,
    input: PlayerInput,
    movement_speed: int,
    v: Velocity,
) -> bool {
    is_scaled(
        heading(state, input).x as int,
        heading(state, input).y as int,
        movement_speed * factor(state) / 1000,
        v,
    )
}

/// One fixed tick of the player's state machine; returns the new velocity.
pub fn handle_state(
    input: &PlayerInput,
    state: &mut PlayerState,
    dash_timer: &mut Countdown,
    stats: &Stats,
    dt: u64,
) -> (v: Velocity)
    requires
        input.direction.wf(),
        old(state).wf(),
        old(dash_timer).wf(),
        old(dash_timer).duration + dt <= u64::MAX,
    ensures
        (*final(state), *final(dash_timer)) == next_state(*input, *old(state), *old(dash_timer), dt as int),
        final(state).wf(),
        final(dash_timer).wf(),
        is_player_velocity(*final(state), *input, stats.movement_speed as int, v),
{
    if state.is_dashing() && dash_timer.tick(dt) {
        *state = PlayerState::Idle;
        dash_timer.reset();
    }
    if !state.is_dashing() {
        *state = if input.dash {
            PlayerState::Dashing(input.direction)
        } else if input.attack {
            PlayerState::Attacking
        } else {
            PlayerState::Idle
        };
    }
    let (d, f) = match *state {
        PlayerState::Idle => (input.direction, IDLE_FACTOR),
        PlayerState::Dashing(d) => (d, DASHING_FACTOR),
        PlayerState::Attacking => (input.direction, ATTACKING_FACTOR),
    };
    assert(d.wf() && f <= DASHING_FACTOR && d == heading(*state, *input) && f == factor(*state));
    let ms: u64 = stats.movement_speed as u64;
    assert(ms * f <= 0xffff_ffff * DASHING_FACTOR) by (nonlinear_arith)
        requires
            ms <= 0xffff_ffff,
            f <= DASHING_FACTOR,
    ;
    let speed: u64 = ms * f / 1000;
    assert(crate::geometry::abs(d.x as int) * speed <= speed && crate::geometry::abs(d.y as int)
        * speed <= speed) by (nonlinear_arith)
        requires
            -1 <= d.x <= 1,
            -1 <= d.y <= 1,
    ;
    scale_to_length(d.x as i64, d.y as i64, speed)
}

/// Number of enemies whose squares overlap the player's.
pub open spec fn overlapping(player: Position, es: Seq<Enemy>) -> int
    decreases es.len(),
{
    if es.len() == 0 {
        0
    } else {
        overlapping(player, es.drop_last()) + if squares_overlap(
            player,
            PLAYER_SIZE as int,
            es.last().position,
            ENEMY_SIZE as int,
        ) {
            1int
        } else {
            0
        }
    }
}

/// Contact damage for one tick: none while dashing, else one per enemy that
/// overlaps the player.
pub open spec fn contact_damage(state: PlayerState, player: Position, es: Seq<Enemy>) -> int {
    if state is Dashing {
        0
    } else {
        overlapping(player, es)
    }
}

/// At most every enemy overlaps the player.
pub proof fn lemma_overlapping_bounded(player: Position, es: Seq<Enemy>)
    ensures
        0 <= overlapping(player, es) <= es.len(),
    decreases es.len(),
{
    if es.len() > 0 {
        lemma_overlapping_bounded(player, es.drop_last());
    }
}

/// The damage that enemies in contact deal to the player this tick.
pub fn hit(state: &PlayerState, player: Position, enemies: &Vec<Enemy>) -> (r: u64)
    ensures
        r == contact_damage(*state, player, enemies@),
{
    if state.is_dashing() {
        return 0;
    }
    let mut n: u64 = 0;
    let mut i: usize = 0;
    while i < enemies.len()
        invariant
            i <= enemies@.len(),
            n == overlapping(player, enemies@.subrange(0, i as int)),
        decreases enemies@.len() - i,
    {
        proof {
            assert(enemies@.subrange(0, i + 1).drop_last() == enemies@.subrange(0, i as int));
            lemma_overlapping_bounded(player, enemies@.subrange(0, i as int));
        }
        if square_collide(player, PLAYER_SIZE, enemies[i].position, ENEMY_SIZE) {
            n = n + 1;
        }
        i = i + 1;
    }
    assert(enemies@.subrange(0, enemies@.len() as int) == enemies@);
    n
}

/// Health after a tick's damage, and whether that tick raises the death
/// signal: it does the first time health is at or below zero, and never again.
pub open spec fn damaged(health: int, signalled: bool, damage: int) -> (int, bool, bool) {
    let h = health - damage;
    let raise = !signalled && h <= 0;
    (h, signalled || raise, raise)
}

/// Applies a tick's damage in one subtraction; returns whether the player's
/// death is to be announced now.
pub fn take_damage(health: &mut Health, death_signalled: &mut bool, damage: u64) -> (r: bool)
    requires
        old(health).0 - damage >= i64::MIN,
    ensures
        (final(health).0 as int, *final(death_signalled), r) == damaged(
            old(health).0 as int,
            *old(death_signalled),
            damage as int,
        ),
{
    health.0 = (health.0 as i128 - damage as i128) as i64;
    let raise = !*death_signalled && health.0 <= 0;
    if raise {
        *death_signalled = true;
    }
    raise
}

/// Ticks the attack countdown at the attack speed; while attacking, each time
/// it has run out a projectile is fired at the cursor and the countdown
/// starts over.
pub fn attack(
    attack_timer: &mut Countdown,
    state: &PlayerState,
    stats: &Stats,
    dt: u64,
    player: Position,
    cursor: Option<Position>,
) -> (r: Option<Projectile>)
    requires
        old(attack_timer).wf(),
        old(attack_timer).duration + dt * stats.attack_speed / 1000 <= u64::MAX,
    ensures
        ({
            let t = old(attack_timer).ticked(dt * stats.attack_speed / 1000);
            if *state == PlayerState::Attacking && t.finished {
                &&& *final(attack_timer) == (Countdown { elapsed: 0, finished: false, ..t })
                &&& r is Some
            } else {
                &&& *final(attack_timer) == t
                &&& r is None
            }
        }),
        final(attack_timer).wf(),
        r matches Some(p) ==> is_fired(player, cursor, p) && p.wf(),
{
    let step: u128 = dt as u128 * stats.attack_speed as u128 / 1000;
    let done = attack_timer.tick(step as u64);
    if *state == PlayerState::Attacking && done {
        attack_timer.reset();
        Some(fire(player, cursor))
    } else {
        None
    }
}

} // verus!

verus! {

/// A dash shields the player for as long as it lasts: while the dash
/// countdown does not run out, the player stays dashing in the same
/// direction whatever the input, and takes no contact damage however many
/// enemies overlap.
pub proof fn lemma_dash_invulnerable(
    input: PlayerInput,
    d: Direction,
    dash: Countdown,
    dt: int,
    player: Position,
    es: Seq<Enemy>,
)
    requires
        !dash.ticked(dt).finished,
    ensures
        next_state(input, PlayerState::Dashing(d), dash, dt).0 == PlayerState::Dashing(d),
        contact_damage(next_state(input, PlayerState::Dashing(d), dash, dt).0, player, es) == 0,
        contact_damage(PlayerState::Dashing(d), player, es) == 0,
{
}

/// Health, death flag and number of death signals after a run of ticks with
/// the given damages.
pub open spec fn after_ticks(health: int, signalled: bool, damages: Seq<int>) -> (int, bool, int)
    decreases damages.len(),
{
    if damages.len() == 0 {
        (health, signalled, 0)
    } else {
        let (h, s, n) = after_ticks(health, signalled, damages.drop_last());
        let (h2, s2, raise) = damaged(h, s, damages.last());
        (h2, s2, n + if raise {
            1int
        } else {
            0
        })
    }
}

pub open spec fn total(damages: Seq<int>) -> int
    decreases damages.len(),
{
    if damages.len() == 0 {
        0
    } else {
        total(damages.drop_last()) + damages.last()
    }
}

/// Over any run of ticks, health drops by exactly the sum of the damages, and
/// a player that starts alive gets at most one death signal: one exactly when
/// health has reached zero or below, never a second, in one tick or across
/// ticks.
pub proof fn lemma_death_signalled_once(health: int, damages: Seq<int>)
    requires
        health > 0,
        forall|i: int| 0 <= i < damages.len() ==> #[trigger] damages[i] >= 0,
    ensures
        after_ticks(health, false, damages).0 == health - total(damages),
        after_ticks(health, false, damages).2 == if health - total(damages) <= 0 {
            1int
        } else {
            0
        },
        after_ticks(health, false, damages).1 <==> after_ticks(health, false, damages).2 == 1,
    decreases damages.len(),
{
    if damages.len() > 0 {
        let prefix = damages.drop_last();
        assert forall|i: int| 0 <= i < prefix.len() implies #[trigger] prefix[i] >= 0 by {
            assert(prefix[i] == damages[i]);
        }
        lemma_death_signalled_once(health, prefix);
        assert(damages.last() == damages[damages.len() - 1]);
    }
}

/// `after` is `before` with one more item of kind `x`.
pub open spec fn picked_up(before: Equipment, x: Item, after: Equipment) -> bool {
    &&& before.wf()
    &&& after.wf()
    &&& after.count_spec(x) == before.count_spec(x) + 1
    &&& forall|other: Item| other != x ==> after.count_spec(other) == before.count_spec(other)
}

/// Equipment only adds up: picking up an item twice counts it twice, and the
/// attack speed never drops with a pickup; from an empty equipment, two items
/// of a kind give the base attack speed times one plus twice the kind's stat.
pub proof fn lemma_pickup_monotone(e0: Equipment, x: Item, e1: Equipment, e2: Equipment)
    requires
        picked_up(e0, x, e1),
        picked_up(e1, x, e2),
    ensures
        e2.count_spec(x) == e0.count_spec(x) + 2,
        stats_for(e0).attack_speed <= stats_for(e1).attack_speed,
        stats_for(e1).attack_speed <= stats_for(e2).attack_speed,
        e0.count_spec(x) == 0 ==> stats_for(e2).attack_speed == ATTACK_SPEED * (1000 + 2
            * x.stat_spec()) / 1000,
{
    assert(x == Item::Banana);
    let b0 = e0.bonus_spec();
    let b1 = e1.bonus_spec();
    let b2 = e2.bonus_spec();
    assert(0 <= b0 <= b1 <= b2);
    assert(ATTACK_SPEED * (1000 + b0) <= ATTACK_SPEED * (1000 + b1)) by (nonlinear_arith)
        requires
            b0 <= b1,
    ;
    assert(ATTACK_SPEED * (1000 + b1) <= ATTACK_SPEED * (1000 + b2)) by (nonlinear_arith)
        requires
            b1 <= b2,
    ;
    vstd::arithmetic::div_mod::lemma_div_is_ordered(
        ATTACK_SPEED * (1000 + b0),
        ATTACK_SPEED * (1000 + b1),
        1000,
    );
    vstd::arithmetic::div_mod::lemma_div_is_ordered(
        ATTACK_SPEED * (1000 + b1),
        ATTACK_SPEED * (1000 + b2),
        1000,
    );
}

} // verus!
