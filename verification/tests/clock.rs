use shooter_core::clock::{tick_counter, TickCounter};

#[test]
fn new_counter_reads_zero() {
    assert_eq!(TickCounter::new().inner, 0);
    assert_eq!(TickCounter::default().inner, 0);
}

#[test]
fn tick_adds_one() {
    let mut counter = TickCounter::new();
    counter.tick();
    assert_eq!(counter.inner, 1);
    counter.tick();
    counter.tick();
    assert_eq!(counter.inner, 3);
}

#[test]
fn tick_starts_over_after_the_highest_value() {
    let mut counter = TickCounter { inner: u32::MAX - 1 };
    counter.tick();
    assert_eq!(counter.inner, u32::MAX);
    counter.tick();
    assert_eq!(counter.inner, 0);
    counter.tick();
    assert_eq!(counter.inner, 1);
}

#[test]
fn clock_system_advances_once() {
    let mut counter = TickCounter { inner: 41 };
    tick_counter(&mut counter);
    assert_eq!(counter.inner, 42);
}

#[test]
fn zero_is_a_multiple_of_everything() {
    let counter = TickCounter::new();
    for n in [1u32, 2, 13, 40, 120, 240, u32::MAX] {
        assert!(counter.is_n(n));
    }
}

#[test]
fn is_n_tests_divisibility() {
    let counter = TickCounter { inner: 120 };
    assert!(counter.is_n(1));
    assert!(counter.is_n(40));
    assert!(counter.is_n(120));
    assert!(!counter.is_n(240));
    assert!(!counter.is_n(13));
    assert!(!counter.is_n(121));
    let counter = TickCounter { inner: 39 };
    assert!(counter.is_n(13));
    assert!(!counter.is_n(40));
}

#[test]
fn many_ticks_add_up() {
    let mut counter = TickCounter { inner: u32::MAX - 99 };
    for _ in 0..240 {
        counter.tick();
    }
    assert_eq!(counter.inner, 140);
}
