//! Timekeeping: the physical-to-virtual address translator, the shared tick
//! counter with its wraparound-safe arithmetic, the PIT-referenced Local APIC
//! timer calibration protocol, and the two delay primitives built on the
//! calibrated tick rate.

use vstd::prelude::*;

use crate::apic::HwOp;
use crate::apic::APIC_MASKED;
use crate::apic::APIC_TIMER_PERIODIC;
use crate::apic::LAPIC_LVT_TIMER_REG;
use crate::apic::LAPIC_TIMER_DIV_BY_16;
use crate::apic::LAPIC_TIMER_DIV_REG;
use crate::apic::LAPIC_TIMER_INITCNT_REG;
use crate::interrupts::SCRATCH_TIMER_VECTOR;
use crate::interrupts::TIMER_VECTOR;

verus! {

/// Converts a physical address into the virtual address space through the
/// fixed linear offset established once at boot. Stateless beyond the offset
/// and cheap to copy.
#[derive(Clone, Copy, PartialEq, Eq, Structural, Debug)]
pub struct Mapper {
    /// Offset of the linear mapping of all physical memory.
    pub physical_memory_offset: usize,
}

impl Mapper {
    /// A translator for the linear mapping at `physical_memory_offset`.
    pub fn new(physical_memory_offset: usize) -> (r: Self)
        ensures
            r.physical_memory_offset == physical_memory_offset,
    {
        Mapper { physical_memory_offset }
    }

    /// The virtual address the physical address `phys` is mapped at.
    pub fn phys_to_virt(&self, phys: usize) -> (r: usize)
        requires
            self.physical_memory_offset + phys <= usize::MAX,
        ensures
            r == self.physical_memory_offset + phys,
    {
        self.physical_memory_offset + phys
    }
}

/// One step of wraparound-safe counter arithmetic: the number of steps from
/// the earlier reading `earlier` to the later reading `later`, modulo the
/// counter width. Never compares absolute values.
pub fn ticks_elapsed(earlier: u64, later: u64) -> (r: u64)
    ensures
        r == vstd::wrapping::u64_specs::wrapping_sub(later, earlier),
{
    later.wrapping_sub(earlier)
}

/// True once the reading `current` lies at least one step past `earlier`,
/// by wraparound-safe subtraction.
pub fn tick_advanced(earlier: u64, current: u64) -> (r: bool)
    ensures
        r == (vstd::wrapping::u64_specs::wrapping_sub(current, earlier) >= 1),
{
    ticks_elapsed(earlier, current) >= 1
}

/// The single wrap-around tick counter. Written only by the periodic-timer
/// interrupt service (single writer); read from arbitrary contexts. Sized to
/// one atomically readable word so readers never observe a torn value.
#[derive(Clone, Copy, PartialEq, Eq, Structural, Debug)]
pub struct TickCounter {
    /// The current counter word.
    pub ticks: u64,
}

impl TickCounter {
    /// A counter at zero.
    pub fn new() -> (r: Self)
        ensures
            r.ticks == 0,
    {
        TickCounter { ticks: 0 }
    }

    /// Advance by one step, wrapping at the counter's maximum.
    pub fn increment(&mut self)
        ensures
            final(self).ticks == vstd::wrapping::u64_specs::wrapping_add(old(self).ticks, 1),
    {
        self.ticks = self.ticks.wrapping_add(1);
    }

    /// An idempotent single-word read of the counter.
    pub fn read(&self) -> (r: u64)
        ensures
            r == self.ticks,
    {
        self.ticks
    }
}

/// Law: counter wraparound is lossless. One increment past the maximum
/// representable value yields zero, the wraparound-safe difference of the
/// readings "zero minus maximum" is one step, and in general the difference
/// between a reading and its successor is always exactly one.
pub proof fn tick_wraparound_law()
    ensures
        vstd::wrapping::u64_specs::wrapping_add(u64::MAX, 1) == 0,
        vstd::wrapping::u64_specs::wrapping_sub(0, u64::MAX) == 1,
        forall|c: u64|
            vstd::wrapping::u64_specs::wrapping_sub(
                #[trigger] vstd::wrapping::u64_specs::wrapping_add(c, 1),
                c,
            ) == 1,
{
}

/// A span of time, stored at microsecond granularity.
#[derive(Clone, Copy, PartialEq, Eq, Structural, Debug)]
pub struct Duration {
    /// The span in microseconds.
    pub micros: u64,
}

impl Duration {
    /// The span of `micros` microseconds.
    pub fn from_micros(micros: u64) -> (r: Self)
        ensures
            r.micros == micros,
    {
        Duration { micros }
    }

    /// The span of `millis` milliseconds.
    pub fn from_millis(millis: u64) -> (r: Self)
        requires
            millis * 1000 <= u64::MAX,
        ensures
            r.micros == millis * 1000,
    {
        Duration { micros: millis * 1000 }
    }

    /// The whole number of microseconds in this span.
    pub fn as_micros(&self) -> (r: u64)
        ensures
            r == self.micros,
    {
        self.micros
    }

    /// The whole number of milliseconds in this span, rounded down.
    pub fn as_millis(&self) -> (r: u64)
        ensures
            r == self.micros / 1000,
    {
        self.micros / 1000
    }
}

/// How a requested delay is to be carried out.
#[derive(Clone, Copy, PartialEq, Eq, Structural, Debug)]
pub enum DelayPlan {
    /// Busy-poll the Local APIC countdown register; `micros` is under 1000.
    /// Does not need interrupts enabled.
    Busy { micros: u64 },
    /// Halt until the main tick counter has advanced by one, `steps` times
    /// (each step is one 10 ms period). Needs interrupts enabled.
    Halt { steps: u64 },
}

/// A delay request that cannot be carried out; fatal by design.
#[derive(Clone, Copy, PartialEq, Eq, Structural, Debug)]
pub enum DelayError {
    /// A duration of a millisecond or more that is not a whole number of
    /// milliseconds has no delay path.
    NotWholeMilliseconds,
}

/// Decompose a requested duration into the delay path that serves it:
/// durations under 1000 microseconds take the sub-millisecond busy path
/// exclusively; all others take the millisecond halt path in 10 ms steps,
/// and are rejected when they are not a whole number of milliseconds.
pub fn delay(dur: Duration) -> (r: Result<DelayPlan, DelayError>)
    ensures
        dur.micros < 1000 ==> r == Ok::<DelayPlan, DelayError>(DelayPlan::Busy { micros: dur.micros }),
        dur.micros >= 1000 && dur.micros % 1000 == 0 ==> r == Ok::<DelayPlan, DelayError>(
            DelayPlan::Halt { steps: (dur.micros / 1000) / 10 },
        ),
        dur.micros >= 1000 && dur.micros % 1000 != 0 ==> r == Err::<DelayPlan, DelayError>(
            DelayError::NotWholeMilliseconds,
        ),
{
    let micros = dur.as_micros();
    if micros < 1000 {
        Ok(DelayPlan::Busy { micros })
    } else if micros % 1000 == 0 {
        Ok(DelayPlan::Halt { steps: (micros / 1000) / 10 })
    } else {
        Err(DelayError::NotWholeMilliseconds)
    }
}

/// The tick-count threshold a sub-millisecond delay of `micros` microseconds
/// must outwait: `ticks_per_10ms * micros / 10000`.
pub open spec fn udelay_threshold(ticks_per_10ms: u32, micros: u64) -> int {
    ticks_per_10ms * micros / 10000
}

/// True once a sub-millisecond delay that started at countdown reading
/// `start_count` is allowed to end at reading `current_count`. The Local
/// APIC timer counts down, so the comparison direction is inverted relative
/// to the tick counter, and it is wraparound-safe like every other counter
/// comparison.
pub open spec fn udelay_done(u: Udelay, current_count: u32) -> bool {
    vstd::wrapping::u32_specs::wrapping_sub(u.start_count, current_count) >= u.threshold
}

/// An in-progress sub-millisecond delay: busy-polls the Local APIC's live
/// countdown register, since the shared tick counter only advances once per
/// 10 ms and lacks the resolution. Works with interrupts disabled.
#[derive(Clone, Copy, PartialEq, Eq, Structural, Debug)]
pub struct Udelay {
    /// The countdown register reading when the delay began.
    pub start_count: u32,
    /// How many timer ticks must elapse before the delay may end.
    pub threshold: u64,
}

impl Udelay {
    /// Begin a delay of `micros` microseconds (sub-millisecond only),
    /// given the calibrated tick rate and the countdown register's
    /// reading now.
    pub fn begin(ticks_per_10ms: u32, micros: u64, current_count: u32) -> (r: Udelay)
        requires
            micros < 1000,
        ensures
            r.start_count == current_count,
            r.threshold == udelay_threshold(ticks_per_10ms, micros),
    {
        let wide: u64 = ticks_per_10ms as u64;
        proof {
            assert(wide * micros <= 0xFFFF_FFFFu64 * 999u64) by (nonlinear_arith)
                requires
                    wide <= 0xFFFF_FFFFu64,
                    micros < 1000,
            ;
        }
        let threshold: u64 = wide * micros / 10000;
        Udelay { start_count: current_count, threshold }
    }

    /// Poll the delay against a fresh countdown reading: true once enough
    /// ticks have been consumed, false while the wait must continue.
    pub fn poll(&self, current_count: u32) -> (done: bool)
        ensures
            done == udelay_done(*self, current_count),
    {
        let consumed: u32 = self.start_count.wrapping_sub(current_count);
        (consumed as u64) >= self.threshold
    }
}

/// Law: the sub-millisecond delay busy-waits strictly until at least
/// `ticks_per_10ms * micros / 10000` timer ticks have elapsed — while fewer
/// have been consumed the poll keeps waiting, and it ends as soon as the
/// threshold is reached.
pub proof fn udelay_waits_law(ticks_per_10ms: u32, micros: u64, start: u32, current: u32)
    requires
        micros < 1000,
    ensures
        ({
            let u = (Udelay {
                start_count: start,
                threshold: udelay_threshold(ticks_per_10ms, micros) as u64,
            });
            udelay_done(u, current) <==> vstd::wrapping::u32_specs::wrapping_sub(start, current)
                >= udelay_threshold(ticks_per_10ms, micros)
        }),
{
    assert(0 <= udelay_threshold(ticks_per_10ms, micros) <= 0xFFFF_FFFFint * 999)
        by (nonlinear_arith)
        requires
            ticks_per_10ms <= 0xFFFF_FFFFu32,
            micros < 1000,
    ;
}

/// PIT channel 0 data port.
pub const PIT_CHANNEL0_PORT: u16 = 0x40;

/// PIT mode/command port.
pub const PIT_COMMAND_PORT: u16 = 0x43;

/// PIT command: select channel 0, lobyte/hibyte access, mode 2 (rate
/// generator).
pub const PIT_RATE_GENERATOR_CMD: u8 = 0x34;

/// PIT reload divider for a 100 Hz rate: the PIT input clock runs at
/// 1193182 Hz, so this divider produces one interrupt every 10 ms.
pub const PIT_DIVIDER_10MS: u16 = 11932;

/// Where the calibration protocol stands.
#[derive(Clone, Copy, PartialEq, Eq, Structural, Debug)]
pub enum CalibrationPhase {
    /// PIT armed and interrupts enabled; waiting for a stable PIT edge.
    AwaitFirstEdge,
    /// Local APIC timer counting down from its maximum; waiting for the
    /// next PIT edge, exactly one PIT period later.
    AwaitSecondEdge,
    /// Local APIC timer stopped; the remaining count is to be read and
    /// turned into the calibration constant.
    TimerStopped,
    /// Calibration constant stored; devices reprogrammed for steady state.
    Complete,
}

/// The calibration protocol: measures, with the PIT as the only timing
/// reference, how many Local APIC timer ticks elapse in exactly 10 ms, then
/// switches timekeeping over to the Local APIC. Interrupts must be globally
/// disabled when the protocol starts; it leaves them disabled again when it
/// completes.
#[derive(Clone, Copy, PartialEq, Eq, Structural, Debug)]
pub struct Calibrator {
    /// Current protocol phase.
    pub phase: CalibrationPhase,
    /// Index of the I/O APIC holding the PIT's redirection entry.
    pub pit_apic: usize,
    /// Redirection register of the PIT's entry on that I/O APIC.
    pub pit_reg: u8,
    /// The tick-counter reading the next PIT edge is measured against.
    pub base_tick: Option<u64>,
    /// The calibration constant: Local APIC ticks per 10 ms. Zero until the
    /// protocol completes; written exactly once.
    pub ticks_in_10ms: u32,
}

/// The operations that start calibration: program the PIT's channel 0 for a
/// 10 ms rate, route the Local APIC timer to the calibration-only scratch
/// vector with divider 16 while leaving it unarmed, and enable interrupts.
pub open spec fn calibration_start_ops() -> Seq<HwOp> {
    seq![
        HwOp::PortWrite { port: PIT_COMMAND_PORT, value: PIT_RATE_GENERATOR_CMD },
        HwOp::PortWrite { port: PIT_CHANNEL0_PORT, value: (PIT_DIVIDER_10MS & 0xFF) as u8 },
        HwOp::PortWrite { port: PIT_CHANNEL0_PORT, value: (PIT_DIVIDER_10MS >> 8) as u8 },
        HwOp::LapicWrite { offset: LAPIC_LVT_TIMER_REG, value: SCRATCH_TIMER_VECTOR as u32 },
        HwOp::LapicWrite { offset: LAPIC_TIMER_DIV_REG, value: LAPIC_TIMER_DIV_BY_16 },
        HwOp::EnableInterrupts,
    ]
}

/// The operations that finish calibration, given the computed constant:
/// disable interrupts, retire the PIT's redirection entry, and reprogram the
/// Local APIC timer for periodic 10 ms interrupts on the main timer vector
/// with the constant as reload count and the same divider as calibration.
pub open spec fn calibration_finish_ops(pit_apic: usize, pit_reg: u8, ticks: u32) -> Seq<HwOp> {
    seq![
        HwOp::DisableInterrupts,
        HwOp::IoApicWrite { apic: pit_apic, reg: pit_reg, value: APIC_MASKED },
        HwOp::LapicWrite {
            offset: LAPIC_LVT_TIMER_REG,
            value: (TIMER_VECTOR as u32) | APIC_TIMER_PERIODIC,
        },
        HwOp::LapicWrite { offset: LAPIC_TIMER_INITCNT_REG, value: ticks },
        HwOp::LapicWrite { offset: LAPIC_TIMER_DIV_REG, value: LAPIC_TIMER_DIV_BY_16 },
    ]
}

impl Calibrator {
    /// Poll for a PIT edge while waiting for the first stable edge. The
    /// first reading only records the baseline; a later reading one or more
    /// steps past the baseline (wraparound-safe) marks the edge, arms the
    /// Local APIC timer in one-shot mode at the maximum possible count, and
    /// moves the protocol to the second wait.
    pub fn poll_first_edge(&mut self, tick: u64) -> (r: (bool, Vec<HwOp>))
        requires
            old(self).phase == CalibrationPhase::AwaitFirstEdge,
        ensures
            old(self).base_tick is None ==> (!r.0 && *final(self) == (Calibrator {
                base_tick: Some(tick),
                ..*old(self)
            }) && r.1@ == Seq::<HwOp>::empty()),
            old(self).base_tick is Some && !edge_reached(old(self).base_tick.unwrap(), tick) ==> (
            !r.0 && *final(self) == *old(self) && r.1@ == Seq::<HwOp>::empty()),
            old(self).base_tick is Some && edge_reached(old(self).base_tick.unwrap(), tick) ==> (
            r.0 && *final(self) == (Calibrator {
                phase: CalibrationPhase::AwaitSecondEdge,
                base_tick: Some(tick),
                ..*old(self)
            }) && r.1@ == seq![
                HwOp::LapicWrite { offset: LAPIC_TIMER_INITCNT_REG, value: u32::MAX },
            ]),
    {
        match self.base_tick {
            None => {
                self.base_tick = Some(tick);
                (false, Vec::new())
            }
            Some(base) => {
                if tick_advanced(base, tick) {
                    self.phase = CalibrationPhase::AwaitSecondEdge;
                    self.base_tick = Some(tick);
                    let ops: Vec<HwOp> = vec![
                        HwOp::LapicWrite { offset: LAPIC_TIMER_INITCNT_REG, value: u32::MAX },
                    ];
                    (true, ops)
                } else {
                    (false, Vec::new())
                }
            }
        }
    }

    /// Poll for the PIT edge that ends the measurement window, exactly one
    /// PIT period after the first. When it arrives the Local APIC timer is
    /// masked immediately, so that the remaining count can be read.
    pub fn poll_second_edge(&mut self, tick: u64) -> (r: (bool, Vec<HwOp>))
        requires
            old(self).phase == CalibrationPhase::AwaitSecondEdge,
            old(self).base_tick is Some,
        ensures
            !edge_reached(old(self).base_tick.unwrap(), tick) ==> (!r.0 && *final(self) == *old(
                self,
            ) && r.1@ == Seq::<HwOp>::empty()),
            edge_reached(old(self).base_tick.unwrap(), tick) ==> (r.0 && *final(self) == (
            Calibrator { phase: CalibrationPhase::TimerStopped, ..*old(self) }) && r.1@ == seq![
                HwOp::LapicWrite { offset: LAPIC_LVT_TIMER_REG, value: APIC_MASKED },
            ]),
    {
        let base = match self.base_tick {
            Some(b) => b,
            None => 0,
        };
        if tick_advanced(base, tick) {
            self.phase = CalibrationPhase::TimerStopped;
            let ops: Vec<HwOp> = vec![
                HwOp::LapicWrite { offset: LAPIC_LVT_TIMER_REG, value: APIC_MASKED },
            ];
            (true, ops)
        } else {
            (false, Vec::new())
        }
    }

    /// Turn the remaining one-shot count into the calibration constant and
    /// retire the PIT: the ticks consumed in the 10 ms window are exactly the
    /// maximum count minus the remaining count, and the periodic reload is
    /// programmed with exactly that constant.
    pub fn finish(&mut self, remaining_count: u32) -> (r: (u32, Vec<HwOp>))
        requires
            old(self).phase == CalibrationPhase::TimerStopped,
        ensures
            r.0 == u32::MAX - remaining_count,
            *final(self) == (Calibrator {
                phase: CalibrationPhase::Complete,
                ticks_in_10ms: (u32::MAX - remaining_count) as u32,
                ..*old(self)
            }),
            r.1@ == calibration_finish_ops(old(self).pit_apic, old(self).pit_reg, r.0),
    {
        let ticks: u32 = u32::MAX - remaining_count;
        self.phase = CalibrationPhase::Complete;
        self.ticks_in_10ms = ticks;
        let ops: Vec<HwOp> = vec![
            HwOp::DisableInterrupts,
            HwOp::IoApicWrite { apic: self.pit_apic, reg: self.pit_reg, value: APIC_MASKED },
            HwOp::LapicWrite {
                offset: LAPIC_LVT_TIMER_REG,
                value: (TIMER_VECTOR as u32) | APIC_TIMER_PERIODIC,
            },
            HwOp::LapicWrite { offset: LAPIC_TIMER_INITCNT_REG, value: ticks },
            HwOp::LapicWrite { offset: LAPIC_TIMER_DIV_REG, value: LAPIC_TIMER_DIV_BY_16 },
        ];
        (ticks, ops)
    }
}

/// True once the counter reading `tick` lies at least one step past `base`.
pub open spec fn edge_reached(base: u64, tick: u64) -> bool {
    vstd::wrapping::u64_specs::wrapping_sub(tick, base) >= 1
}

/// Begin the transition from the PIT to the Local APIC timer: returns the
/// calibration protocol in its first waiting phase together with the
/// operations that arm the PIT and prepare the Local APIC timer. The PIT's
/// redirection entry (register `pit_reg` of I/O APIC `pit_apic`) must
/// already point at the main timer vector, and interrupts must be globally
/// disabled; the returned operations end by enabling them.
pub fn init(pit_apic: usize, pit_reg: u8) -> (r: (Calibrator, Vec<HwOp>))
    ensures
        r.0 == (Calibrator {
            phase: CalibrationPhase::AwaitFirstEdge,
            pit_apic,
            pit_reg,
            base_tick: None,
            ticks_in_10ms: 0u32,
        }),
        r.1@ == calibration_start_ops(),
{
    let calibrator = Calibrator {
        phase: CalibrationPhase::AwaitFirstEdge,
        pit_apic,
        pit_reg,
        base_tick: None,
        ticks_in_10ms: 0,
    };
    let ops: Vec<HwOp> = vec![
        HwOp::PortWrite { port: PIT_COMMAND_PORT, value: PIT_RATE_GENERATOR_CMD },
        HwOp::PortWrite { port: PIT_CHANNEL0_PORT, value: (PIT_DIVIDER_10MS & 0xFF) as u8 },
        HwOp::PortWrite { port: PIT_CHANNEL0_PORT, value: (PIT_DIVIDER_10MS >> 8) as u8 },
        HwOp::LapicWrite { offset: LAPIC_LVT_TIMER_REG, value: SCRATCH_TIMER_VECTOR as u32 },
        HwOp::LapicWrite { offset: LAPIC_TIMER_DIV_REG, value: LAPIC_TIMER_DIV_BY_16 },
        HwOp::EnableInterrupts,
    ];
    (calibrator, ops)
}

} // verus!
