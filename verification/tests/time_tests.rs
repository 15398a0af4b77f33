use core::time::Duration;
use render_backend::time::Instant;

fn at(nanos: u64) -> Instant {
    Instant(Duration::from_nanos(nanos))
}

#[test]
fn test_fallback_instant_now() {
    let t1 = at(100_000);
    let t2 = at(150_000);
    assert!(t2 >= t1);
    let diff = t2 - t1;
    assert_eq!(t2.duration_since(t1), diff);
    assert_eq!(t1.duration_since(t2), Duration::ZERO);
    assert_eq!(t1.saturating_duration_since(t2), Duration::ZERO);
    let elapsed = t1.elapsed(t2);
    assert!(elapsed >= Duration::ZERO);
}

#[test]
fn test_fallback_instant_set_elapsed() {
    let mut counter: u64 = 100_000;
    let mut now = || {
        let t = at(counter);
        counter += 50_000;
        t
    };
    let t1 = now();
    let t2 = now();
    assert!(t2 > t1);
    assert_eq!(t2.duration_since(t1), Duration::from_nanos(50_000));
    assert_eq!(t2.checked_duration_since(t1), Some(Duration::from_nanos(50_000)));
    assert_eq!(t1.checked_duration_since(t2), None);
}

#[test]
fn adding_then_subtracting_gives_the_instant_back() {
    let t = at(1_000);
    let d = Duration::from_nanos(250);
    let later = t + d;
    assert_eq!(later, at(1_250));
    assert_eq!(later - d, t);
    assert_eq!(later.duration_since(t), d);
    assert_eq!(t.checked_add(d), Some(later));
    assert_eq!(later.checked_sub(d), Some(t));
    assert_eq!(t.checked_sub(Duration::from_nanos(1_001)), None);
    assert_eq!(Instant(Duration::MAX).checked_add(Duration::from_nanos(1)), None);
}

#[test]
fn assign_operators_move_the_instant() {
    let mut t = at(10);
    t.add_assign(Duration::from_nanos(5));
    assert_eq!(t, at(15));
    t.sub_assign(Duration::from_nanos(15));
    assert_eq!(t, at(0));
    assert_eq!(at(7).elapsed(at(3)), Duration::ZERO);
    assert_eq!(at(3).elapsed(at(7)), Duration::from_nanos(4));
}
