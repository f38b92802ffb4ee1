use crate::geometry::{
    abs, is_scaled, scale_to_length, square_collide, squares_overlap, Position, Velocity,
};
use crate::projectile::{Projectile, PROJECTILE_SIZE};
use crate::timer::Countdown;
use vstd::prelude::*;

verus! {

/// Speed of an enemy, in milli-pixels per second.
pub const ENEMY_SPEED: u32 = 100_000;

/// Side of an enemy's square, in milli-pixels.
pub const ENEMY_SIZE: u32 = 15_000;

/// Hit points of a new enemy.
pub const ENEMY_HEALTH: i64 = 3;

/// Time between two enemy spawns, in microseconds.
pub const ENEMY_SPAWN_INTERVAL: u64 = 5_000_000;

/// Where enemies appear, in milli-pixels.
pub const SPAWN_X: i32 = 320_000;

pub const SPAWN_Y: i32 = 180_000;

/// Hit points; at zero or below the entity is dead.
#[derive(Clone, Copy, Debug, PartialEq, Eq, Structural)]
pub struct Health(pub i64);

/// An enemy of the player.
#[derive(Clone, Copy, Debug, PartialEq, Eq, Structural)]
pub struct Enemy {
    pub position: Position,
    pub health: Health,
    pub velocity: Velocity,
}

/// The repeating countdown that brings in enemies.
#[derive(Clone, Copy, Debug, PartialEq, Eq, Structural)]
pub struct EnemySpawn(pub Countdown);

impl EnemySpawn {
    pub open spec fn wf(self) -> bool {
        self.0.wf() && self.0.repeating && self.0.duration == ENEMY_SPAWN_INTERVAL
    }
}

impl Default for EnemySpawn {
    fn default() -> (r: EnemySpawn)
        ensures
            r.0 == (Countdown {
                duration: ENEMY_SPAWN_INTERVAL,
                elapsed: 0,
                repeating: true,
                finished: false,
            }),
            r.wf(),
    {
        EnemySpawn(Countdown::new(ENEMY_SPAWN_INTERVAL, true))
    }
}

/// A new enemy: at the spawn point, at full health, standing still.
pub open spec fn new_enemy() -> Enemy {
    Enemy {
        position: Position { x: SPAWN_X, y: SPAWN_Y },
        health: Health(ENEMY_HEALTH),
        velocity: Velocity { x: 0, y: 0 },
    }
}

/// Advances the spawner by `dt` microseconds; each time it runs out, one enemy
/// comes in.
pub fn spawn(spawner: &mut EnemySpawn, dt: u64) -> (r: Option<Enemy>)
    requires
        old(spawner).wf(),
        ENEMY_SPAWN_INTERVAL + dt <= u64::MAX,
    ensures
        final(spawner).0 == old(spawner).0.ticked(dt as int),
        final(spawner).wf(),
        r == if final(spawner).0.finished {
            Some(new_enemy())
        } else {
            None
        },
{
    if spawner.0.tick(dt) {
        Some(
            Enemy {
                position: Position { x: SPAWN_X, y: SPAWN_Y },
                health: Health(ENEMY_HEALTH),
                velocity: Velocity { x: 0, y: 0 },
            },
        )
    } else {
        None
    }
}

/// The velocity that takes an enemy at `at` straight toward `target` at enemy
/// speed; zero when it is already there.
pub open spec fn is_seek_velocity(at: Position, target: Position, v: Velocity) -> bool {
    is_scaled(target.x - at.x, target.y - at.y, ENEMY_SPEED as int, v)
}

/// The seek velocity from `at` toward `target`.
pub fn seek(at: Position, target: Position) -> (v: Velocity)
    ensures
        is_seek_velocity(at, target, v),
{
    let dx: i64 = target.x as i64 - at.x as i64;
    let dy: i64 = target.y as i64 - at.y as i64;
    assert(abs(dx as int) * ENEMY_SPEED <= u64::MAX) by (nonlinear_arith)
        requires
            -0x1_0000_0000 <= dx <= 0x1_0000_0000,
    ;
    assert(abs(dy as int) * ENEMY_SPEED <= u64::MAX) by (nonlinear_arith)
        requires
            -0x1_0000_0000 <= dy <= 0x1_0000_0000,
    ;
    scale_to_length(dx, dy, ENEMY_SPEED as u64)
}

/// Seek velocity has enemy speed as its length, up to the rounding of its
/// components, except at the player's own position, where it is zero.
pub proof fn lemma_seek_speed(at: Position, target: Position, v: Velocity)
    requires
        is_seek_velocity(at, target, v),
    ensures
        at == target ==> v == (Velocity { x: 0, y: 0 }),
        at != target ==> {
            &&& v.x * v.x + v.y * v.y <= ENEMY_SPEED * ENEMY_SPEED
            &&& ENEMY_SPEED * ENEMY_SPEED < (abs(v.x as int) + 1) * (abs(v.x as int) + 1) + (abs(
                v.y as int,
            ) + 1) * (abs(v.y as int) + 1)
        },
{
    if at != target {
        crate::geometry::lemma_scaled_length(
            target.x - at.x,
            target.y - at.y,
            ENEMY_SPEED as int,
            v,
        );
    }
}

/// Points every enemy straight at the player.
pub fn handle_state(enemies: &mut Vec<Enemy>, player: Position)
    ensures
        final(enemies)@.len() == old(enemies)@.len(),
        forall|i: int|
            0 <= i < final(enemies)@.len() ==> {
                &&& (#[trigger] final(enemies)@[i]).position == old(enemies)@[i].position
                &&& final(enemies)@[i].health == old(enemies)@[i].health
                &&& is_seek_velocity(old(enemies)@[i].position, player, final(enemies)@[i].velocity)
            },
{
    let ghost start = enemies@;
    let mut i: usize = 0;
    while i < enemies.len()
        invariant
            enemies@.len() == start.len(),
            i <= start.len(),
            forall|k: int|
                0 <= k < start.len() ==> {
                    &&& (#[trigger] enemies@[k]).position == start[k].position
                    &&& enemies@[k].health == start[k].health
                    &&& k < i ==> is_seek_velocity(start[k].position, player, enemies@[k].velocity)
                    &&& k >= i ==> enemies@[k] == start[k]
                },
        decreases start.len() - i,
    {
        let mut e = enemies[i];
        e.velocity = seek(e.position, player);
        enemies.set(i, e);
        i = i + 1;
    }
}

pub open spec fn hits(p: Projectile, e: Enemy) -> bool {
    squares_overlap(p.position, PROJECTILE_SIZE as int, e.position, ENEMY_SIZE as int)
}

/// The first enemy from index `k` on that the projectile overlaps.
pub open spec fn first_hit_from(p: Projectile, es: Seq<Enemy>, k: int) -> Option<int>
    decreases es.len() - k,
{
    if k < 0 || k >= es.len() {
        None
    } else if hits(p, es[k]) {
        Some(k)
    } else {
        first_hit_from(p, es, k + 1)
    }
}

/// The enemy a projectile strikes: the first in order that it overlaps.
pub open spec fn first_hit(p: Projectile, es: Seq<Enemy>) -> Option<int> {
    first_hit_from(p, es, 0)
}

/// How many of the projectiles strike enemy `j`.
pub open spec fn hits_on(ps: Seq<Projectile>, es: Seq<Enemy>, j: int) -> int
    decreases ps.len(),
{
    if ps.len() == 0 {
        0
    } else {
        hits_on(ps.drop_last(), es, j) + if first_hit(ps.last(), es) == Some(j) {
            1int
        } else {
            0
        }
    }
}

/// The enemies after the projectiles struck: each loses one hit point per
/// projectile that strikes it.
pub open spec fn struck(es: Seq<Enemy>, ps: Seq<Projectile>) -> Seq<Enemy> {
    Seq::new(
        es.len(),
        |j: int| Enemy { health: Health((es[j].health.0 - hits_on(ps, es, j)) as i64), ..es[j] },
    )
}

/// The projectiles that strike no enemy, in their order.
pub open spec fn missing(ps: Seq<Projectile>, es: Seq<Enemy>) -> Seq<Projectile>
    decreases ps.len(),
{
    if ps.len() == 0 {
        ps
    } else if first_hit(ps.last(), es) is Some {
        missing(ps.drop_last(), es)
    } else {
        missing(ps.drop_last(), es).push(ps.last())
    }
}

/// How many of the projectiles strike an enemy.
pub open spec fn striking(ps: Seq<Projectile>, es: Seq<Enemy>) -> int
    decreases ps.len(),
{
    if ps.len() == 0 {
        0
    } else {
        striking(ps.drop_last(), es) + if first_hit(ps.last(), es) is Some {
            1int
        } else {
            0
        }
    }
}

pub proof fn lemma_missing_count(ps: Seq<Projectile>, es: Seq<Enemy>)
    ensures
        missing(ps, es).len() + striking(ps, es) == ps.len(),
    decreases ps.len(),
{
    if ps.len() > 0 {
        lemma_missing_count(ps.drop_last(), es);
    }
}

/// The projectiles that strike nothing are projectiles of the tick that
/// strike nothing.
pub proof fn lemma_missing_from(ps: Seq<Projectile>, es: Seq<Enemy>)
    ensures
        forall|i: int|
            0 <= i < missing(ps, es).len() ==> ps.contains(#[trigger] missing(ps, es)[i])
                && first_hit(missing(ps, es)[i], es) is None,
    decreases ps.len(),
{
    if ps.len() > 0 {
        let prefix = ps.drop_last();
        lemma_missing_from(prefix, es);
        assert forall|i: int| 0 <= i < missing(ps, es).len() implies ps.contains(
            #[trigger] missing(ps, es)[i],
        ) && first_hit(missing(ps, es)[i], es) is None by {
            if i < missing(prefix, es).len() {
                assert(missing(ps, es)[i] == missing(prefix, es)[i]);
                let k = choose|k: int| 0 <= k < prefix.len() && prefix[k] == missing(prefix, es)[i];
                assert(ps[k] == prefix[k]);
            } else {
                assert(missing(ps, es)[i] == ps.last());
                assert(ps[ps.len() - 1] == ps.last());
            }
        }
    }
}

/// No enemy is struck more times than there are projectiles.
pub proof fn lemma_hits_on_bounded(ps: Seq<Projectile>, es: Seq<Enemy>, j: int)
    ensures
        0 <= hits_on(ps, es, j) <= ps.len(),
    decreases ps.len(),
{
    if ps.len() > 0 {
        lemma_hits_on_bounded(ps.drop_last(), es, j);
    }
}

proof fn lemma_first_hit_same_positions(p: Projectile, a: Seq<Enemy>, b: Seq<Enemy>, k: int)
    requires
        a.len() == b.len(),
        forall|j: int| 0 <= j < a.len() ==> #[trigger] a[j].position == b[j].position,
    ensures
        first_hit_from(p, a, k) == first_hit_from(p, b, k),
    decreases a.len() - k,
{
    if 0 <= k < a.len() {
        lemma_first_hit_same_positions(p, a, b, k + 1);
    }
}

proof fn lemma_first_hit_skip(p: Projectile, es: Seq<Enemy>, i: int, k: int)
    requires
        0 <= i <= k <= es.len(),
        forall|j: int| i <= j < k ==> !hits(p, #[trigger] es[j]),
    ensures
        first_hit_from(p, es, i) == first_hit_from(p, es, k),
    decreases k - i,
{
    if i < k {
        lemma_first_hit_skip(p, es, i + 1, k);
    }
}

fn find_first_hit(p: &Projectile, enemies: &Vec<Enemy>) -> (r: Option<usize>)
    ensures
        r matches Some(j) ==> first_hit(*p, enemies@) == Some(j as int) && j < enemies@.len(),
        r is None ==> first_hit(*p, enemies@) is None,
{
    let mut k: usize = 0;
    while k < enemies.len()
        invariant
            k <= enemies@.len(),
            forall|j: int| 0 <= j < k ==> !hits(*p, #[trigger] enemies@[j]),
        decreases enemies@.len() - k,
    {
        if square_collide(p.position, PROJECTILE_SIZE, enemies[k].position, ENEMY_SIZE) {
            proof {
                lemma_first_hit_skip(*p, enemies@, 0, k as int);
            }
            return Some(k);
        }
        k = k + 1;
    }
    proof {
        lemma_first_hit_skip(*p, enemies@, 0, k as int);
    }
    None
}

/// Resolves projectiles against enemies: each projectile strikes the first
/// enemy in order that it overlaps, if any, taking one hit point from it, and
/// is destroyed; a projectile never strikes two enemies, while one enemy may
/// be struck by several projectiles in the same tick.
pub fn hit(enemies: &mut Vec<Enemy>, projectiles: &mut Vec<Projectile>)
    requires
        forall|j: int|
            0 <= j < old(enemies)@.len() ==> #[trigger] old(enemies)@[j].health.0 >= i64::MIN
                + old(projectiles)@.len(),
    ensures
        final(enemies)@.len() == old(enemies)@.len(),
        forall|j: int|
            0 <= j < final(enemies)@.len() ==> #[trigger] final(enemies)@[j] == (Enemy {
                health: Health(
                    (old(enemies)@[j].health.0 - hits_on(old(projectiles)@, old(enemies)@, j)) as i64,
                ),
                ..old(enemies)@[j]
            }),
        final(projectiles)@ == missing(old(projectiles)@, old(enemies)@),
        final(enemies)@ == struck(old(enemies)@, old(projectiles)@),
{
    let ghost es0 = enemies@;
    let ghost ps0 = projectiles@;
    let mut kept: Vec<Projectile> = Vec::new();
    let mut i: usize = 0;
    while i < projectiles.len()
        invariant
            projectiles@ == ps0,
            i <= ps0.len(),
            enemies@.len() == es0.len(),
            forall|j: int|
                0 <= j < es0.len() ==> #[trigger] es0[j].health.0 >= i64::MIN + ps0.len(),
            forall|j: int|
                0 <= j < es0.len() ==> #[trigger] enemies@[j] == (Enemy {
                    health: Health(
                        (es0[j].health.0 - hits_on(ps0.subrange(0, i as int), es0, j)) as i64,
                    ),
                    ..es0[j]
                }),
            kept@ == missing(ps0.subrange(0, i as int), es0),
        decreases ps0.len() - i,
    {
        let p = projectiles[i];
        let ghost pre = enemies@;
        let ghost before = ps0.subrange(0, i as int);
        let ghost after = ps0.subrange(0, i + 1);
        assert(after.drop_last() == before);
        assert(after.last() == p);
        proof {
            assert forall|j: int| 0 <= j < es0.len() implies #[trigger] enemies@[j].position
                == es0[j].position by {}
            lemma_first_hit_same_positions(p, enemies@, es0, 0);
        }
        match find_first_hit(&p, enemies) {
            Some(j) => {
                let mut e = enemies[j];
                assert(es0[j as int].health.0 >= i64::MIN + ps0.len());
                assert(e == pre[j as int]);
                assert(enemies@[j as int] == (Enemy {
                    health: Health((es0[j as int].health.0 - hits_on(before, es0, j as int)) as i64),
                    ..es0[j as int]
                }));
                assert(first_hit(p, es0) == Some(j as int));
                proof {
                    lemma_hits_on_bounded(before, es0, j as int);
                }
                e.health = Health(e.health.0 - 1);
                enemies.set(j, e);
                assert forall|k: int| 0 <= k < es0.len() implies #[trigger] enemies@[k] == (Enemy {
                    health: Health((es0[k].health.0 - hits_on(after, es0, k)) as i64),
                    ..es0[k]
                }) by {
                    assert(es0[k].health.0 >= i64::MIN + ps0.len());
                    lemma_hits_on_bounded(after, es0, k);
                    lemma_hits_on_bounded(before, es0, k);
                    assert(hits_on(after, es0, k) == hits_on(before, es0, k) + if first_hit(
                        p,
                        es0,
                    ) == Some(k) {
                        1int
                    } else {
                        0
                    });
                    if k != j {
                        assert(enemies@[k] == pre[k]);
                    }
                }
            },
            None => {
                kept.push(p);
                assert forall|k: int| 0 <= k < es0.len() implies #[trigger] enemies@[k] == (Enemy {
                    health: Health((es0[k].health.0 - hits_on(after, es0, k)) as i64),
                    ..es0[k]
                }) by {
                    lemma_hits_on_bounded(after, es0, k);
                    lemma_hits_on_bounded(before, es0, k);
                    assert(hits_on(after, es0, k) == hits_on(before, es0, k) + if first_hit(
                        p,
                        es0,
                    ) == Some(k) {
                        1int
                    } else {
                        0
                    });
                    assert(enemies@[k] == pre[k]);
                }
            },
        }
        i = i + 1;
    }
    assert(ps0.subrange(0, ps0.len() as int) == ps0);
    assert(enemies@ =~= struck(es0, ps0));
    *projectiles = kept;
}

/// Enemies that are still alive, in their order.
pub open spec fn healthy(es: Seq<Enemy>) -> Seq<Enemy> {
    es.filter(|e: Enemy| e.health.0 > 0)
}

/// Destroys the enemies whose health fell to zero or below.
pub fn despawn_unhealthy(enemies: &mut Vec<Enemy>)
    ensures
        final(enemies)@ == healthy(old(enemies)@),
{
    let ghost start = enemies@;
    let mut kept: Vec<Enemy> = Vec::new();
    let mut i: usize = 0;
    while i < enemies.len()
        invariant
            enemies@ == start,
            i <= start.len(),
            kept@ == healthy(start.subrange(0, i as int)),
        decreases start.len() - i,
    {
        let e = enemies[i];
        proof {
            assert(start.subrange(0, i + 1) == start.subrange(0, i as int).push(e));
            start.subrange(0, i as int).lemma_filter_push(e, |e: Enemy| e.health.0 > 0);
        }
        if e.health.0 > 0 {
            kept.push(e);
        }
        i = i + 1;
    }
    assert(start.subrange(0, start.len() as int) == start);
    *enemies = kept;
}

} // verus!
