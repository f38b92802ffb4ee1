use arena_sim::projectile::Lifetime;
use arena_sim::timer::Countdown;

#[test]
fn one_shot_finishes_and_stays_finished() {
    let mut c = Countdown::new(100, false);
    assert!(!c.tick(60));
    assert_eq!(c.elapsed, 60);
    assert!(c.tick(60));
    assert_eq!(c.elapsed, 100);
    assert!(c.tick(1));
    assert!(c.is_finished());
    c.reset();
    assert!(!c.is_finished());
    assert_eq!(c.elapsed, 0);
}

#[test]
fn repeating_wraps_around() {
    let mut c = Countdown::new(100, true);
    assert!(!c.tick(70));
    assert!(c.tick(70));
    assert_eq!(c.elapsed, 40);
    assert!(!c.tick(10));
    assert_eq!(c.elapsed, 50);
}

#[test]
fn exact_duration_finishes() {
    let mut c = Countdown::new(400_000, false);
    for _ in 0..25 {
        assert!(!c.tick(15_625));
    }
    // 26 ticks of 1/64 s pass 0.4 s.
    assert!(c.tick(15_625));
}

#[test]
fn lifetime_is_one_shot() {
    let l = Lifetime::new(1_000_000);
    assert_eq!(l.0.duration, 1_000_000);
    assert!(!l.0.repeating);
    assert!(!l.0.finished);
}
