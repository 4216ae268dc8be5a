//! The calibration protocol against a simulated Local APIC and PIT.

use bringup::apic::lapic_apply_all;
use bringup::apic::HwOp;
use bringup::apic::Lapic;
use bringup::apic::APIC_MASKED;
use bringup::apic::APIC_TIMER_PERIODIC;
use bringup::apic::LAPIC_LVT_TIMER_REG;
use bringup::apic::LAPIC_TIMER_CURRCNT_REG;
use bringup::apic::LAPIC_TIMER_DIV_REG;
use bringup::apic::LAPIC_TIMER_INITCNT_REG;
use bringup::time::init;
use bringup::time::CalibrationPhase;
use bringup::time::PIT_CHANNEL0_PORT;
use bringup::time::PIT_COMMAND_PORT;
use bringup::time::PIT_DIVIDER_10MS;
use bringup::time::PIT_RATE_GENERATOR_CMD;

#[test]
fn calibration_start_programs_pit_and_prepares_lapic() {
    let (cal, ops) = init(0, 0x14);
    assert!(matches!(cal.phase, CalibrationPhase::AwaitFirstEdge));
    assert_eq!(cal.pit_apic, 0);
    assert_eq!(cal.pit_reg, 0x14);
    assert_eq!(cal.base_tick, None);
    assert_eq!(cal.ticks_in_10ms, 0);
    assert_eq!(ops.len(), 6);
    assert_eq!(
        ops[0],
        HwOp::PortWrite { port: PIT_COMMAND_PORT, value: PIT_RATE_GENERATOR_CMD }
    );
    // The 10 ms divider is sent low byte first.
    assert_eq!(
        ops[1],
        HwOp::PortWrite { port: PIT_CHANNEL0_PORT, value: (PIT_DIVIDER_10MS & 0xFF) as u8 }
    );
    assert_eq!(
        ops[2],
        HwOp::PortWrite { port: PIT_CHANNEL0_PORT, value: (PIT_DIVIDER_10MS >> 8) as u8 }
    );
    // The Local APIC timer routes to the scratch vector, divider 16, and
    // stays unarmed until the first PIT edge.
    assert_eq!(ops[3], HwOp::LapicWrite { offset: LAPIC_LVT_TIMER_REG, value: 33 });
    assert_eq!(ops[4], HwOp::LapicWrite { offset: LAPIC_TIMER_DIV_REG, value: 3 });
    assert_eq!(ops[5], HwOp::EnableInterrupts);
}

#[test]
fn calibration_computes_exact_constant_on_simulated_devices() {
    // Simulated Local APIC whose count, once armed, decreases by a fixed
    // rate per simulated PIT period.
    let rate: u32 = 123_456;
    let mut lapic = Lapic::new(0xFEE0_0000);
    let (mut cal, start_ops) = init(0, 0x14);
    lapic_apply_all(&mut lapic, &start_ops);
    assert_eq!(lapic.lvt_timer, 33);
    assert_eq!(lapic.timer_div, 3);

    // The simulated PIT drives the main tick counter; calibration first
    // records a baseline, then waits for an edge.
    let mut tick: u64 = 7; // arbitrary counter value at protocol entry
    let (done, ops) = cal.poll_first_edge(tick);
    assert!(!done && ops.is_empty());
    let (done, ops) = cal.poll_first_edge(tick);
    assert!(!done && ops.is_empty());
    tick += 1; // first PIT edge
    let (done, ops) = cal.poll_first_edge(tick);
    assert!(done);
    assert_eq!(
        ops,
        vec![HwOp::LapicWrite { offset: LAPIC_TIMER_INITCNT_REG, value: u32::MAX }]
    );
    lapic_apply_all(&mut lapic, &ops);
    // Arming loads the countdown with the maximum count.
    assert_eq!(lapic.timer_currcnt, u32::MAX);

    // The armed timer counts down at the fixed rate while calibration
    // waits one full PIT period.
    let (done, ops) = cal.poll_second_edge(tick);
    assert!(!done && ops.is_empty());
    lapic.timer_currcnt = u32::MAX - rate;
    tick += 1; // second PIT edge, exactly one period later
    let (done, ops) = cal.poll_second_edge(tick);
    assert!(done);
    assert_eq!(
        ops,
        vec![HwOp::LapicWrite { offset: LAPIC_LVT_TIMER_REG, value: APIC_MASKED }]
    );
    lapic_apply_all(&mut lapic, &ops);

    // The constant equals maximum count minus remaining count, exactly.
    let remaining = lapic.read_register(LAPIC_TIMER_CURRCNT_REG);
    let (ticks_in_10ms, finish_ops) = cal.finish(remaining);
    assert_eq!(ticks_in_10ms, u32::MAX - remaining);
    assert_eq!(ticks_in_10ms, rate);
    assert!(matches!(cal.phase, CalibrationPhase::Complete));
    assert_eq!(cal.ticks_in_10ms, rate);

    // Finishing disables interrupts, retires the PIT's redirection entry,
    // and reprograms the periodic reload with exactly the constant.
    assert_eq!(finish_ops[0], HwOp::DisableInterrupts);
    assert_eq!(
        finish_ops[1],
        HwOp::IoApicWrite { apic: 0, reg: 0x14, value: APIC_MASKED }
    );
    assert_eq!(
        finish_ops[2],
        HwOp::LapicWrite { offset: LAPIC_LVT_TIMER_REG, value: 32 | APIC_TIMER_PERIODIC }
    );
    assert_eq!(
        finish_ops[3],
        HwOp::LapicWrite { offset: LAPIC_TIMER_INITCNT_REG, value: rate }
    );
    assert_eq!(
        finish_ops[4],
        HwOp::LapicWrite { offset: LAPIC_TIMER_DIV_REG, value: 3 }
    );
    lapic_apply_all(&mut lapic, &finish_ops);
    assert_eq!(lapic.lvt_timer, 32 | APIC_TIMER_PERIODIC);
    assert_eq!(lapic.timer_initcnt, rate);
    assert_eq!(lapic.timer_div, 3);
}

#[test]
fn calibration_waits_ignore_stale_counter_readings() {
    let (mut cal, _) = init(1, 0x10);
    let (done, _) = cal.poll_first_edge(41);
    assert!(!done);
    // The counter may wrap between readings; the comparison stays safe.
    let (done, ops) = cal.poll_first_edge(u64::MAX.wrapping_add(42).wrapping_add(1));
    assert!(done);
    assert_eq!(ops.len(), 1);
}
