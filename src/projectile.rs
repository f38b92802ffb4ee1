use crate::geometry::{is_scaled, scale_to_length, Position, Velocity};
use crate::timer::Countdown;
use vstd::prelude::*;

verus! {

/// Side of a projectile's square, in milli-pixels.
pub const PROJECTILE_SIZE: u32 = 2_000;

/// How long a projectile flies, in microseconds.
pub const PROJECTILE_LIFETIME: u64 = 1_000_000;

/// Speed of a projectile, in milli-pixels per second.
pub const PROJECTILE_SPEED: u32 = 320_000;

/// A one-shot countdown after which its entity is destroyed.
#[derive(Clone, Copy, Debug, PartialEq, Eq, Structural)]
pub struct Lifetime(pub Countdown);

impl Lifetime {
    /// A lifetime of `duration` microseconds.
    pub fn new(duration: u64) -> (r: Lifetime)
        ensures
            r.0 == (Countdown { duration, elapsed: 0, repeating: false, finished: false }),
            r.0.wf(),
    {
        Lifetime(Countdown::new(duration, false))
    }
}

/// A shot of the player.
#[derive(Clone, Copy, Debug, PartialEq, Eq, Structural)]
pub struct Projectile {
    pub position: Position,
    pub velocity: Velocity,
    pub lifetime: Lifetime,
}

impl Projectile {
    pub open spec fn wf(self) -> bool {
        &&& !self.lifetime.0.repeating
        &&& self.lifetime.0.wf()
        &&& self.lifetime.0.duration == PROJECTILE_LIFETIME
    }
}

/// `p` is a projectile fired from `from` toward the cursor, or upward when
/// there is no cursor, at the projectile speed and with a fresh lifetime.
/// Aimed at the point it starts from, it does not move.
pub open spec fn is_fired(from: Position, cursor: Option<Position>, p: Projectile) -> bool {
    &&& p.position == from
    &&& p.lifetime.0 == (Countdown {
        duration: PROJECTILE_LIFETIME,
        elapsed: 0,
        repeating: false,
        finished: false,
    })
    &&& cursor matches Some(c) ==> is_scaled(
        c.x - from.x,
        c.y - from.y,
        PROJECTILE_SPEED as int,
        p.velocity,
    )
    &&& cursor is None ==> p.velocity == (Velocity { x: 0, y: PROJECTILE_SPEED as i64 })
}

/// Fires a projectile from `from` toward the cursor.
pub fn fire(from: Position, cursor: Option<Position>) -> (r: Projectile)
    ensures
        is_fired(from, cursor, r),
        r.wf(),
{
    let velocity = match cursor {
        Some(c) => {
            let dx: i64 = c.x as i64 - from.x as i64;
            let dy: i64 = c.y as i64 - from.y as i64;
            assert(crate::geometry::abs(dx as int) * PROJECTILE_SPEED <= u64::MAX) by (
            nonlinear_arith)
                requires
                    -0x1_0000_0000 <= dx <= 0x1_0000_0000,
            ;
            assert(crate::geometry::abs(dy as int) * PROJECTILE_SPEED <= u64::MAX) by (
            nonlinear_arith)
                requires
                    -0x1_0000_0000 <= dy <= 0x1_0000_0000,
            ;
            scale_to_length(dx, dy, PROJECTILE_SPEED as u64)
        },
        None => Velocity { x: 0, y: PROJECTILE_SPEED as i64 },
    };
    Projectile { position: from, velocity, lifetime: Lifetime::new(PROJECTILE_LIFETIME) }
}

/// The projectiles that outlive `dt` more microseconds, each with its lifetime
/// advanced, in their order.
pub open spec fn outliving(ps: Seq<Projectile>, dt: int) -> Seq<Projectile>
    decreases ps.len(),
{
    if ps.len() == 0 {
        ps
    } else {
        let rest = outliving(ps.drop_last(), dt);
        let last = ps.last();
        let ticked = Projectile { lifetime: Lifetime(last.lifetime.0.ticked(dt)), ..last };
        if ticked.lifetime.0.finished {
            rest
        } else {
            rest.push(ticked)
        }
    }
}

/// How many of the projectiles run out of lifetime within `dt` more
/// microseconds.
pub open spec fn expiring(ps: Seq<Projectile>, dt: int) -> int
    decreases ps.len(),
{
    if ps.len() == 0 {
        0
    } else {
        expiring(ps.drop_last(), dt) + if ps.last().lifetime.0.ticked(dt).finished {
            1int
        } else {
            0
        }
    }
}

pub proof fn lemma_outliving_count(ps: Seq<Projectile>, dt: int)
    ensures
        outliving(ps, dt).len() + expiring(ps, dt) == ps.len(),
    decreases ps.len(),
{
    if ps.len() > 0 {
        lemma_outliving_count(ps.drop_last(), dt);
    }
}

/// Advances every lifetime by `dt` microseconds and destroys the projectiles
/// whose lifetime ran out.
pub fn lifetime(projectiles: &mut Vec<Projectile>, dt: u64)
    requires
        forall|i: int| 0 <= i < old(projectiles)@.len() ==> #[trigger] old(projectiles)@[i].wf(),
        PROJECTILE_LIFETIME + dt <= u64::MAX,
    ensures
        final(projectiles)@ == outliving(old(projectiles)@, dt as int),
        forall|i: int| 0 <= i < final(projectiles)@.len() ==> #[trigger] final(projectiles)@[i].wf(),
{
    let ghost start = projectiles@;
    let mut kept: Vec<Projectile> = Vec::new();
    let mut i: usize = 0;
    while i < projectiles.len()
        invariant
            projectiles@ == start,
            i <= start.len(),
            kept@ == outliving(start.subrange(0, i as int), dt as int),
            forall|k: int| 0 <= k < start.len() ==> #[trigger] start[k].wf(),
            PROJECTILE_LIFETIME + dt <= u64::MAX,
            forall|k: int| 0 <= k < kept@.len() ==> #[trigger] kept@[k].wf(),
        decreases start.len() - i,
    {
        let mut p = projectiles[i];
        assert(start[i as int].wf());
        let done = p.lifetime.0.tick(dt);
        assert(start.subrange(0, i + 1).drop_last() == start.subrange(0, i as int));
        if !done {
            kept.push(p);
        }
        i = i + 1;
    }
    assert(start.subrange(0, start.len() as int) == start);
    *projectiles = kept;
}

} // verus!
