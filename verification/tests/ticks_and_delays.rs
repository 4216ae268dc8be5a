//! Tick arithmetic and the two delay primitives.

use bringup::time::delay;
use bringup::time::tick_advanced;
use bringup::time::ticks_elapsed;
use bringup::time::DelayError;
use bringup::time::DelayPlan;
use bringup::time::Duration;
use bringup::time::TickCounter;
use bringup::time::Udelay;

#[test]
fn tick_counter_increments_from_zero() {
    let mut c = TickCounter::new();
    assert_eq!(c.read(), 0);
    c.increment();
    assert_eq!(c.read(), 1);
}

#[test]
fn tick_counter_wraparound_increment_yields_zero() {
    let mut c = TickCounter { ticks: u64::MAX };
    c.increment();
    assert_eq!(c.read(), 0);
}

#[test]
fn tick_wraparound_subtraction_is_one_step() {
    assert_eq!(ticks_elapsed(u64::MAX, 0), 1);
    assert_eq!(ticks_elapsed(5, 7), 2);
    assert_eq!(ticks_elapsed(7, 7), 0);
}

#[test]
fn tick_advanced_is_wraparound_safe() {
    assert!(tick_advanced(u64::MAX, 0));
    assert!(!tick_advanced(3, 3));
    assert!(tick_advanced(3, 4));
}

#[test]
fn duration_conversions() {
    assert_eq!(Duration::from_micros(999).as_micros(), 999);
    assert_eq!(Duration::from_millis(7).as_micros(), 7000);
    assert_eq!(Duration::from_micros(10500).as_millis(), 10);
}

#[test]
fn delay_dispatches_sub_millisecond_durations_to_busy_path() {
    assert_eq!(
        delay(Duration::from_micros(0)),
        Ok(DelayPlan::Busy { micros: 0 })
    );
    assert_eq!(
        delay(Duration::from_micros(999)),
        Ok(DelayPlan::Busy { micros: 999 })
    );
}

#[test]
fn delay_dispatches_whole_milliseconds_to_halt_path() {
    assert_eq!(
        delay(Duration::from_millis(1)),
        Ok(DelayPlan::Halt { steps: 0 })
    );
    assert_eq!(
        delay(Duration::from_millis(35)),
        Ok(DelayPlan::Halt { steps: 3 })
    );
    assert_eq!(
        delay(Duration::from_millis(10)),
        Ok(DelayPlan::Halt { steps: 1 })
    );
}

#[test]
fn delay_rejects_fractional_milliseconds() {
    assert_eq!(
        delay(Duration::from_micros(1500)),
        Err(DelayError::NotWholeMilliseconds)
    );
}

#[test]
fn udelay_threshold_formula_is_exact() {
    let u = Udelay::begin(10000, 500, 100_000);
    assert_eq!(u.threshold, 10000 * 500 / 10000);
    assert_eq!(u.threshold, 500);
    assert_eq!(u.start_count, 100_000);
}

#[test]
fn udelay_busy_waits_until_threshold_on_mock_countdown() {
    // A mocked Local APIC countdown register: starts at 100_000 and
    // decreases; the delay may only end once 500 ticks were consumed.
    let u = Udelay::begin(10000, 500, 100_000);
    assert!(!u.poll(100_000));
    assert!(!u.poll(99_502));
    assert!(!u.poll(99_501)); // 499 ticks consumed: strictly too early
    assert!(u.poll(99_500)); // exactly 500 ticks consumed
    assert!(u.poll(90_000));
}

#[test]
fn udelay_comparison_handles_countdown_wraparound() {
    // The countdown register reloads and wraps past zero.
    let u = Udelay::begin(20000, 999, 50);
    assert_eq!(u.threshold, 20000 * 999 / 10000);
    assert!(!u.poll(50));
    // After wrapping below zero the wraparound-safe difference keeps
    // counting consumed ticks.
    assert!(u.poll(50u32.wrapping_sub(u.threshold as u32)));
}

#[test]
fn mdelay_observes_one_advance_per_ten_millisecond_step() {
    // Each 10 ms step waits for the main tick counter to advance once.
    let plan = delay(Duration::from_millis(30)).unwrap();
    let steps = match plan {
        DelayPlan::Halt { steps } => steps,
        _ => panic!("expected the halt path"),
    };
    assert_eq!(steps, 3);
    let mut counter = TickCounter::new();
    let mut observed = 0u64;
    for _ in 0..steps {
        let base = counter.read();
        // The periodic-timer interrupt would advance the counter while the
        // processor halts; simulate one firing.
        while !tick_advanced(base, counter.read()) {
            counter.increment();
        }
        observed += 1;
    }
    assert_eq!(observed, 3);
    assert_eq!(counter.read(), 3);
}
