use crate::enemy::{
    first_hit, handle_state as enemies_seek, healthy, hit as strike_enemies, is_seek_velocity,
    missing, new_enemy, spawn as spawn_enemy, striking, struck, Enemy, EnemySpawn, Health,
    ENEMY_HEALTH,
};
use crate::geometry::{Position, Velocity};
use crate::input::PlayerInput;
use crate::items::{Equipment, WorldItem};
use crate::player::{
    attack, contact_damage, damaged, handle_state as player_step, hit as contact_hit,
    is_player_velocity, next_state, stats_for, take_damage, PlayerState, Stats, ATTACK_PERIOD,
    DASH_TIME, PLAYER_HEALTH,
};
use crate::projectile::{expiring, is_fired, lifetime, outliving, Projectile};
use crate::timer::Countdown;
use vstd::prelude::*;

verus! {

/// Longest fixed tick accepted, in microseconds.
pub const MAX_TICK: u64 = 1_000_000_000;

/// The player and everything it owns.
#[derive(Debug)]
pub struct Player {
    pub position: Position,
    pub velocity: Velocity,
    pub health: Health,
    pub stats: Stats,
    pub equipment: Equipment,
    pub state: PlayerState,
    pub dash_timer: Countdown,
    pub attack_timer: Countdown,
    pub input: PlayerInput,
    /// The death signal was raised.
    pub death_signalled: bool,
}

impl Player {
    pub open spec fn wf(&self) -> bool {
        &&& self.equipment.wf()
        &&& self.stats == stats_for(self.equipment)
        &&& self.state.wf()
        &&& self.input.direction.wf()
        &&& self.dash_timer.wf()
        &&& !self.dash_timer.repeating
        &&& self.dash_timer.duration == DASH_TIME
        &&& self.attack_timer.wf()
        &&& !self.attack_timer.repeating
        &&& self.attack_timer.duration == ATTACK_PERIOD
        &&& !self.death_signalled ==> self.health.0 > 0
    }

    /// A player at the start of a run: at `position`, at full health, idle,
    /// with nothing picked up and no input.
    pub fn spawn(position: Position) -> (r: Player)
        ensures
            r.wf(),
            r.position == position,
            r.velocity == (Velocity { x: 0, y: 0 }),
            r.health == Health(PLAYER_HEALTH),
            r.state == PlayerState::Idle,
            !r.death_signalled,
            r.dash_timer == Countdown::new_spec(DASH_TIME, false),
            r.attack_timer == Countdown::new_spec(ATTACK_PERIOD, false),
            forall|item: crate::items::Item| r.equipment.count_spec(item) == 0,
            !r.input.dash && !r.input.attack && r.input.direction.is_zero(),
    {
        let equipment = Equipment::new();
        let mut stats = Stats::default();
        stats.apply_equipment(&equipment);
        Player {
            position,
            velocity: Velocity { x: 0, y: 0 },
            health: Health(PLAYER_HEALTH),
            stats,
            equipment,
            state: PlayerState::Idle,
            dash_timer: Countdown::new(DASH_TIME, false),
            attack_timer: Countdown::new(ATTACK_PERIOD, false),
            input: PlayerInput::none(),
            death_signalled: false,
        }
    }
}

/// The simulated world of one run.
#[derive(Debug)]
pub struct Game {
    pub player: Player,
    pub enemies: Vec<Enemy>,
    pub projectiles: Vec<Projectile>,
    pub items: Vec<WorldItem>,
    pub spawner: EnemySpawn,
}

/// The enemies after the spawner has run for `dt` more microseconds.
pub open spec fn with_spawn(es: Seq<Enemy>, spawner: EnemySpawn, dt: int) -> Seq<Enemy> {
    if spawner.0.ticked(dt).finished {
        es.push(new_enemy())
    } else {
        es
    }
}

impl Game {
    pub open spec fn wf(&self) -> bool {
        &&& self.player.wf()
        &&& self.spawner.wf()
        &&& forall|j: int|
            0 <= j < self.enemies@.len() ==> 0 < (#[trigger] self.enemies@[j]).health.0
                <= ENEMY_HEALTH
        &&& forall|i: int|
            0 <= i < self.projectiles@.len() ==> (#[trigger] self.projectiles@[i]).wf()
    }
}

impl Game {
    /// A run starting with the player at the origin, the given items lying
    /// around, no enemies and no projectiles.
    pub fn new(items: Vec<WorldItem>) -> (r: Game)
        ensures
            r.wf(),
            r.player.position == (Position { x: 0, y: 0 }),
            r.player.health == Health(PLAYER_HEALTH),
            r.player.state == PlayerState::Idle,
            !r.player.death_signalled,
            r.player.dash_timer == Countdown::new_spec(DASH_TIME, false),
            r.player.attack_timer == Countdown::new_spec(ATTACK_PERIOD, false),
            forall|item: crate::items::Item| r.player.equipment.count_spec(item) == 0,
            r.spawner.0 == Countdown::new_spec(crate::enemy::ENEMY_SPAWN_INTERVAL, true),
            r.enemies@.len() == 0,
            r.projectiles@.len() == 0,
            r.items@ == items@,
    {
        Game {
            player: Player::spawn(Position { x: 0, y: 0 }),
            enemies: Vec::new(),
            projectiles: Vec::new(),
            items,
            spawner: EnemySpawn::default(),
        }
    }

    /// One fixed tick of `dt` microseconds, in this order: the spawner runs;
    /// enemies in contact damage the player, raising the death signal the
    /// first time health reaches zero or below; projectiles strike enemies and
    /// dead enemies are removed; the player attacks; projectile lifetimes run;
    /// the player's state machine steps, then enemies turn toward the player.
    /// Once the death signal was raised the world no longer changes. Moving
    /// bodies along their velocities is the next step, `physics`. Returns
    /// whether the death signal is raised this tick.
    pub fn fixed_update(&mut self, dt: u64, cursor: Option<Position>) -> (death: bool)
        requires
            old(self).wf(),
            dt <= MAX_TICK,
            old(self).enemies@.len() < i64::MAX,
            old(self).projectiles@.len() < i64::MAX,
        ensures
            final(self).wf(),
            old(self).player.death_signalled ==> *final(self) == *old(self) && !death,
            !old(self).player.death_signalled ==> ({
                let p = old(self).player;
                let es1 = with_spawn(old(self).enemies@, old(self).spawner, dt as int);
                let ps = old(self).projectiles@;
                let es2 = healthy(struck(es1, ps));
                let t = p.attack_timer.ticked(dt * p.stats.attack_speed / 1000);
                let fires = p.state == PlayerState::Attacking && t.finished;
                let q = final(self).player;
                &&& final(self).spawner.0 == old(self).spawner.0.ticked(dt as int)
                &&& (q.health.0 as int, q.death_signalled, death) == damaged(
                    p.health.0 as int,
                    false,
                    contact_damage(p.state, p.position, es1),
                )
                &&& q.attack_timer == if fires {
                    Countdown { elapsed: 0, finished: false, ..t }
                } else {
                    t
                }
                &&& fires ==> exists|shot: Projectile|
                    is_fired(p.position, cursor, shot) && final(self).projectiles@ == outliving(
                        missing(ps, es1).push(shot),
                        dt as int,
                    )
                &&& !fires ==> final(self).projectiles@ == outliving(missing(ps, es1), dt as int)
                &&& (q.state, q.dash_timer) == next_state(p.input, p.state, p.dash_timer, dt as int)
                &&& is_player_velocity(q.state, p.input, p.stats.movement_speed as int, q.velocity)
                &&& q.position == p.position
                &&& q.stats == p.stats
                &&& q.equipment == p.equipment
                &&& q.input == p.input
                &&& final(self).items == old(self).items
                &&& final(self).enemies@.len() == es2.len()
                &&& forall|j: int|
                    0 <= j < es2.len() ==> {
                        &&& (#[trigger] final(self).enemies@[j]).position == es2[j].position
                        &&& final(self).enemies@[j].health == es2[j].health
                        &&& is_seek_velocity(
                            es2[j].position,
                            p.position,
                            final(self).enemies@[j].velocity,
                        )
                    }
            }),
    {
        if self.player.death_signalled {
            return false;
        }
        let ghost es0 = self.enemies@;
        let ghost ps0 = self.projectiles@;
        // Spawning.
        match spawn_enemy(&mut self.spawner, dt) {
            Some(e) => {
                self.enemies.push(e);
            },
            None => {},
        }
        let ghost es1 = self.enemies@;
        assert(es1 == with_spawn(es0, old(self).spawner, dt as int));
        // Contact damage.
        let damage = contact_hit(&self.player.state, self.player.position, &self.enemies);
        proof {
            crate::player::lemma_overlapping_bounded(self.player.position, es1);
        }
        let death = take_damage(&mut self.player.health, &mut self.player.death_signalled, damage);
        // Projectiles against enemies, then the sweep of dead enemies.
        assert forall|j: int| 0 <= j < self.enemies@.len() implies #[trigger] self.enemies@[j].health.0
            >= i64::MIN + self.projectiles@.len() by {
            if j < es0.len() {
                assert(self.enemies@[j] == es0[j]);
            }
        }
        strike_enemies(&mut self.enemies, &mut self.projectiles);
        let ghost es_struck = self.enemies@;
        crate::enemy::despawn_unhealthy(&mut self.enemies);
        let ghost es2 = self.enemies@;
        // Attacking.
        assert(self.player.stats.attack_speed <= 4_295_000_000_000);
        assert(dt * self.player.stats.attack_speed <= 1_000_000_000 * 4_295_000_000_000) by (
        nonlinear_arith)
            requires
                dt <= 1_000_000_000,
                self.player.stats.attack_speed <= 4_295_000_000_000,
        ;
        let shot = attack(
            &mut self.player.attack_timer,
            &self.player.state,
            &self.player.stats,
            dt,
            self.player.position,
            cursor,
        );
        let ghost ps2 = self.projectiles@;
        match shot {
            Some(p) => {
                self.projectiles.push(p);
            },
            None => {},
        }
        let ghost ps3 = self.projectiles@;
        // Lifetimes.
        proof {
            crate::enemy::lemma_missing_from(ps0, es1);
            assert forall|i: int| 0 <= i < ps3.len() implies (#[trigger] ps3[i]).wf() by {
                if i < ps2.len() {
                    assert(ps3[i] == ps2[i]);
                    assert(ps2.contains(ps2[i]));
                }
            }
        }
        lifetime(&mut self.projectiles, dt);
        // State machines.
        let v = player_step(
            &self.player.input,
            &mut self.player.state,
            &mut self.player.dash_timer,
            &self.player.stats,
            dt,
        );
        self.player.velocity = v;
        enemies_seek(&mut self.enemies, self.player.position);
        proof {
            assert forall|j: int| 0 <= j < es2.len() implies 0 < (#[trigger] es2[j]).health.0
                <= ENEMY_HEALTH by {
                let f = |e: Enemy| e.health.0 > 0;
                es_struck.lemma_filter_pred(f, j);
                assert(es_struck.filter(f).contains(es2[j]));
                es_struck.lemma_filter_contains_rev(f, es2[j]);
                let k = choose|k: int| 0 <= k < es_struck.len() && es_struck[k] == es2[j];
                crate::enemy::lemma_hits_on_bounded(ps0, es1, k);
                if k < es0.len() {
                    assert(es1[k] == es0[k]);
                }
            }
            if shot is Some {
                assert(exists|s: Projectile|
                    is_fired(old(self).player.position, cursor, s) && ps3 == missing(ps0, es1).push(
                        s,
                    ));
            }
        }
        death
    }
}

impl Game {
    /// Samples a frame of keys into the input the next fixed tick uses; a
    /// later frame before that tick replaces it.
    pub fn sample_input(&mut self, raw: crate::input::RawInput)
        requires
            old(self).wf(),
        ensures
            final(self).wf(),
            final(self).player.input == crate::input::input_of(raw),
            final(self).player.position == old(self).player.position,
            final(self).player.state == old(self).player.state,
            final(self).player.health == old(self).player.health,
            final(self).enemies == old(self).enemies,
            final(self).projectiles == old(self).projectiles,
            final(self).items == old(self).items,
    {
        self.player.input = crate::input::handle_input(raw);
    }

    /// On the interact key: picks up the nearest item in reach, if any, and
    /// brings the stats up to date. Tells whether an item was picked up.
    pub fn interact(&mut self) -> (r: bool)
        requires
            old(self).wf(),
            forall|item: crate::items::Item| old(self).player.equipment.count_spec(item) < u32::MAX,
        ensures
            final(self).wf(),
            r <==> exists|j: int|
                0 <= j < old(self).items@.len() && crate::items::in_reach(
                    old(self).player.position,
                    old(self).items@[j],
                ),
            !r ==> final(self).items@ == old(self).items@ && final(self).player.equipment
                == old(self).player.equipment,
            r ==> exists|i: int|
                {
                    &&& crate::items::is_nearest_in_reach(
                        old(self).player.position,
                        old(self).items@,
                        i,
                    )
                    &&& final(self).items@ == old(self).items@.remove(i)
                    &&& crate::player::picked_up(
                        old(self).player.equipment,
                        old(self).items@[i].item,
                        final(self).player.equipment,
                    )
                },
            final(self).player.stats == stats_for(final(self).player.equipment),
            final(self).player.health == old(self).player.health,
            final(self).player.state == old(self).player.state,
            final(self).enemies == old(self).enemies,
            final(self).projectiles == old(self).projectiles,
    {
        let r = crate::items::pickup(self.player.position, &mut self.items, &mut self.player.equipment);
        if r {
            crate::player::update_stats(&mut self.player.stats, &self.player.equipment);
        }
        r
    }
}

/// Every projectile of a tick meets one fate only: one that strikes an enemy
/// is destroyed by the strike and never reaches the lifetime sweep; of the
/// others, those whose lifetime runs out are destroyed and the rest fly on.
/// Struck, expired and flying projectiles together count each projectile
/// exactly once.
pub proof fn lemma_projectile_destroyed_once(ps: Seq<Projectile>, es: Seq<Enemy>, dt: int)
    ensures
        striking(ps, es) + expiring(missing(ps, es), dt) + outliving(missing(ps, es), dt).len()
            == ps.len(),
        forall|i: int|
            0 <= i < missing(ps, es).len() ==> first_hit(#[trigger] missing(ps, es)[i], es) is None,
{
    crate::enemy::lemma_missing_count(ps, es);
    crate::projectile::lemma_outliving_count(missing(ps, es), dt);
    crate::enemy::lemma_missing_from(ps, es);
}

/// `b` is `a` moved along its velocity for `dt` microseconds.
pub open spec fn moved(a: Position, v: Velocity, dt: int, b: Position) -> bool {
    b.x == crate::geometry::advanced(a.x as int, v.x as int, dt)
        && b.y == crate::geometry::advanced(a.y as int, v.y as int, dt)
}

impl Game {
    /// Moves the player, every enemy and every projectile along its velocity
    /// for `dt` microseconds; nothing else changes.
    pub fn physics(&mut self, dt: u64)
        requires
            old(self).wf(),
        ensures
            final(self).wf(),
            moved(old(self).player.position, old(self).player.velocity, dt as int, final(self).player.position),
            final(self).player.health == old(self).player.health,
            final(self).player.state == old(self).player.state,
            final(self).player.velocity == old(self).player.velocity,
            final(self).player.death_signalled == old(self).player.death_signalled,
            final(self).enemies@.len() == old(self).enemies@.len(),
            forall|j: int|
                0 <= j < final(self).enemies@.len() ==> {
                    &&& moved(
                        old(self).enemies@[j].position,
                        old(self).enemies@[j].velocity,
                        dt as int,
                        (#[trigger] final(self).enemies@[j]).position,
                    )
                    &&& final(self).enemies@[j].health == old(self).enemies@[j].health
                    &&& final(self).enemies@[j].velocity == old(self).enemies@[j].velocity
                },
            final(self).projectiles@.len() == old(self).projectiles@.len(),
            forall|i: int|
                0 <= i < final(self).projectiles@.len() ==> {
                    &&& moved(
                        old(self).projectiles@[i].position,
                        old(self).projectiles@[i].velocity,
                        dt as int,
                        (#[trigger] final(self).projectiles@[i]).position,
                    )
                    &&& final(self).projectiles@[i].velocity == old(self).projectiles@[i].velocity
                    &&& final(self).projectiles@[i].lifetime == old(self).projectiles@[i].lifetime
                },
            final(self).items == old(self).items,
            final(self).spawner == old(self).spawner,
    {
        self.player.position = crate::geometry::advance(self.player.position, self.player.velocity, dt);
        let ghost es0 = self.enemies@;
        let ghost pl = self.player;
        let mut j: usize = 0;
        while j < self.enemies.len()
            invariant
                self.player == pl,
                self.projectiles == old(self).projectiles,
                self.items == old(self).items,
                self.spawner == old(self).spawner,
                self.enemies@.len() == es0.len(),
                j <= es0.len(),
                forall|k: int|
                    0 <= k < es0.len() ==> {
                        &&& k < j ==> moved(
                            es0[k].position,
                            es0[k].velocity,
                            dt as int,
                            (#[trigger] self.enemies@[k]).position,
                        )
                        &&& k >= j ==> self.enemies@[k] == es0[k]
                        &&& self.enemies@[k].health == es0[k].health
                        &&& self.enemies@[k].velocity == es0[k].velocity
                    },
            decreases es0.len() - j,
        {
            let mut e = self.enemies[j];
            e.position = crate::geometry::advance(e.position, e.velocity, dt);
            self.enemies.set(j, e);
            j = j + 1;
        }
        let ghost ps0 = self.projectiles@;
        let ghost es1 = self.enemies@;
        let mut i: usize = 0;
        while i < self.projectiles.len()
            invariant
                self.player == pl,
                self.enemies@ == es1,
                self.items == old(self).items,
                self.spawner == old(self).spawner,
                ps0 == old(self).projectiles@,
                es0 == old(self).enemies@,
                forall|k: int|
                    0 <= k < es0.len() ==> moved(
                        es0[k].position,
                        es0[k].velocity,
                        dt as int,
                        (#[trigger] es1[k]).position,
                    ) && es1[k].health == es0[k].health && es1[k].velocity == es0[k].velocity,
                self.projectiles@.len() == ps0.len(),
                i <= ps0.len(),
                forall|k: int|
                    0 <= k < ps0.len() ==> {
                        &&& k < i ==> moved(
                            ps0[k].position,
                            ps0[k].velocity,
                            dt as int,
                            (#[trigger] self.projectiles@[k]).position,
                        )
                        &&& k >= i ==> self.projectiles@[k] == ps0[k]
                        &&& self.projectiles@[k].velocity == ps0[k].velocity
                        &&& self.projectiles@[k].lifetime == ps0[k].lifetime
                    },
            decreases ps0.len() - i,
        {
            let mut p = self.projectiles[i];
            p.position = crate::geometry::advance(p.position, p.velocity, dt);
            self.projectiles.set(i, p);
            i = i + 1;
        }
    }
}

} // verus!
