use chip8::emulator::Emulator;
use chip8::timing::{Scheduler, TimerClock, TICK_NS};

#[test]
fn zero_elapsed_time_pays_no_tick() {
    let mut c = TimerClock::new();
    assert_eq!(c.advance(0), 0);
    assert_eq!(c.acc_ns, 0);
}

#[test]
fn one_sixtieth_of_a_second_pays_exactly_one_tick() {
    let mut c = TimerClock::new();
    assert_eq!(c.advance(TICK_NS - 1), 0);
    assert_eq!(c.advance(1), 1);
    assert_eq!(c.acc_ns, 0);
    let mut c = TimerClock::new();
    assert_eq!(c.advance(TICK_NS), 1);
}

#[test]
fn accumulated_time_carries_across_calls() {
    let mut c = TimerClock::new();
    assert_eq!(c.advance(3 * TICK_NS + 5), 3);
    assert_eq!(c.acc_ns, 5);
}

#[test]
fn ticks_decrement_positive_timers_by_one() {
    let mut e = Emulator::new();
    e.load_vx_byte(0, 2);
    e.ld_dt_vx(0);
    e.tick_timers();
    assert_eq!(e.dt, 1);
    assert_eq!(e.st, 0); // a timer at zero stays at zero
    e.tick_timers();
    e.tick_timers();
    assert_eq!(e.dt, 0); // never below zero
}

#[test]
fn paused_scheduler_owes_nothing() {
    let mut s = Scheduler::new(700);
    assert_eq!(s.advance(1_000_000_000), (0, 0));
    s.start();
    s.pause();
    assert_eq!(s.advance(1_000_000_000), (0, 0));
}

#[test]
fn scheduler_budgets_are_independent() {
    let mut s = Scheduler::new(700);
    s.start();
    // One second owes 700 cycles and 59 ticks (the tick period is
    // rounded up, so a tick never comes early); neither count is derived
    // from the other.
    let (cycles, ticks) = s.advance(1_000_000_000);
    assert_eq!(ticks, 1_000_000_000 / TICK_NS);
    assert_eq!(ticks, 59);
    assert_eq!(cycles, 1_000_000_000 / (1_000_000_000 / 700));
    // Zero further time owes nothing more on either budget.
    assert_eq!(s.advance(0), (0, 0));
}

#[test]
fn scheduler_reset_forgets_accumulated_time() {
    let mut s = Scheduler::new(60);
    s.start();
    s.advance(TICK_NS / 2);
    s.reset();
    assert!(!s.running);
    assert_eq!(s.clock.acc_ns, 0);
    s.start();
    assert_eq!(s.advance(TICK_NS / 2), (0, 0));
}
